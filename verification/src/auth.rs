//! One authentication attempt, from the request to the verdict.
//!
//! The authenticator does no I/O and knows no wire syntax. An attempt is a
//! short dialogue with its caller: the authenticator names the next
//! [`Action`], the caller performs it with its codec and its transport and
//! reports what came of it as an [`Event`]. [`next_action`] is the whole
//! dialogue, written as a function.

use crate::model::{
    CccClientRequest, CccClientRequestView, CccServerResponse, CccServerResponseView,
    RequestData, RequestDataView, RequestHeader, RequestHeaderView,
};
use crate::request_id::{decimal_digits, next_counter, to_decimal, RequestIdGenerator};
use crate::util::{
    encode_to_hex, hex_of_text, lemma_hex_alphabet, lemma_hex_round_trip,
    lemma_text_not_in_its_hex, may_stand_in_its_hex, occurs_in, same_text, text_of_hex,
};
use vstd::prelude::*;
use vstd::string::*;
use vstd::utf8::*;

verus! {

/// Request type of a credential exchange.
pub const REQUEST_TYPE: &'static str = "UserPass";

/// Name under which this client implementation presents itself.
pub const CLIENT_TYPE: &'static str = "TRAC";

/// Operating system family that the client reports.
pub const ENDPOINT_OS: &'static str = "unix";

/// The text by which a server confirms the credentials. Nothing else
/// counts as a confirmation.
pub const AUTHENTICATED: &'static str = "true";

/// Why the transport did not deliver a usable answer.
#[derive(Debug, Clone, Copy, PartialEq, Eq, Structural)]
pub enum TransportError {
    /// No response arrived: the connection, the TLS session or the transfer
    /// failed.
    Connection,
    /// A response arrived with this HTTP status, which is not a 2xx one.
    Status(u16),
}

/// Which direction of the codec failed.
#[derive(Debug, Clone, Copy, PartialEq, Eq, Structural)]
pub enum CodecError {
    /// The request could not be written in wire syntax.
    Encoding,
    /// The response body is not a record of the expected shape.
    Decoding,
}

/// Why an authentication attempt failed.
#[derive(Debug, Clone, Copy, PartialEq, Eq, Structural)]
pub enum AuthError {
    /// The server could not be asked.
    Transport(TransportError),
    /// Client and server do not speak the same protocol.
    Codec(CodecError),
    /// The server answered in good form and did not grant access.
    AuthenticationRejected,
}

/// The text that describes an error to a user.
pub open spec fn message_of(error: AuthError) -> Seq<char> {
    match error {
        AuthError::Transport(TransportError::Connection) => "Connection to the server failed"@,
        AuthError::Transport(TransportError::Status(code)) => "Server answered with HTTP status "@
            + decimal_digits(code as nat),
        AuthError::Codec(CodecError::Encoding) => "Request could not be encoded"@,
        AuthError::Codec(CodecError::Decoding) => "Response could not be decoded"@,
        AuthError::AuthenticationRejected => "Authentication failed!"@,
    }
}

impl AuthError {
    /// Describes the error to a user. No message holds a credential.
    pub fn message(&self) -> (text: String)
        ensures
            text@ == message_of(*self),
    {
        match self {
            AuthError::Transport(TransportError::Connection) => {
                "Connection to the server failed".to_string()
            },
            AuthError::Transport(TransportError::Status(code)) => {
                let mut text = "Server answered with HTTP status ".to_string();
                let digits = to_decimal(*code as u32);
                text.append(digits.as_str());
                text
            },
            AuthError::Codec(CodecError::Encoding) => "Request could not be encoded".to_string(),
            AuthError::Codec(CodecError::Decoding) => "Response could not be decoded".to_string(),
            AuthError::AuthenticationRejected => "Authentication failed!".to_string(),
        }
    }
}

/// What the caller reports back after performing an [`Action`].
#[derive(Debug, Clone, PartialEq, Eq)]
pub enum Event {
    /// The codec wrote the request as this wire text.
    Encoded { text: String },
    /// The codec could not write the request.
    EncodeFailed,
    /// The transport got a response with this HTTP status and this body.
    Responded { status: u16, body: Vec<u8> },
    /// The transport got no response.
    TransportFailed,
    /// The codec read a record with this tag from the response.
    Decoded { name: String, response: CccServerResponse },
    /// The codec could not read the response.
    DecodeFailed,
}

/// Mathematical value of an [`Event`].
pub enum EventView {
    Encoded { text: Seq<char> },
    EncodeFailed,
    Responded { status: u16, body: Seq<u8> },
    TransportFailed,
    Decoded { name: Seq<char>, response: CccServerResponseView },
    DecodeFailed,
}

impl View for Event {
    type V = EventView;

    open spec fn view(&self) -> EventView {
        match *self {
            Event::Encoded { text } => EventView::Encoded { text: text@ },
            Event::EncodeFailed => EventView::EncodeFailed,
            Event::Responded { status, body } => EventView::Responded { status, body: body@ },
            Event::TransportFailed => EventView::TransportFailed,
            Event::Decoded { name, response } => EventView::Decoded {
                name: name@,
                response: response@,
            },
            Event::DecodeFailed => EventView::DecodeFailed,
        }
    }
}

/// What the caller has to do next.
#[derive(Debug, PartialEq, Eq)]
pub enum Action {
    /// Have the codec write `request` as a record with the tag `name`.
    Encode { name: String, request: CccClientRequest },
    /// Send `body` to `url` with an HTTPS POST and wait for the response.
    Post { url: String, body: String },
    /// Have the codec read `text`.
    Decode { text: String },
    /// The attempt is over, with this outcome.
    Finish { outcome: Result<CccServerResponse, AuthError> },
}

/// Mathematical value of an [`Action`].
pub enum ActionView {
    Encode { name: Seq<char>, request: CccClientRequestView },
    Post { url: Seq<char>, body: Seq<char> },
    Decode { text: Seq<char> },
    Finish { outcome: Result<CccServerResponseView, AuthError> },
}

/// Mathematical value of an attempt's outcome.
pub open spec fn outcome_view(
    outcome: Result<CccServerResponse, AuthError>,
) -> Result<CccServerResponseView, AuthError> {
    match outcome {
        Ok(response) => Ok(response@),
        Err(error) => Err(error),
    }
}

impl View for Action {
    type V = ActionView;

    open spec fn view(&self) -> ActionView {
        match *self {
            Action::Encode { name, request } => ActionView::Encode {
                name: name@,
                request: request@,
            },
            Action::Post { url, body } => ActionView::Post { url: url@, body: body@ },
            Action::Decode { text } => ActionView::Decode { text: text@ },
            Action::Finish { outcome } => ActionView::Finish { outcome: outcome_view(outcome) },
        }
    }
}

/// Mathematical value of a [`SnxHttpAuthenticator`]: what it was made with.
pub struct AuthenticatorView {
    pub server_name: Seq<char>,
    pub username: Seq<char>,
    pub password: Seq<char>,
}

/// The request that an authenticator sends when the id counter stands at
/// `counter`.
pub open spec fn request_of(auth: AuthenticatorView, counter: nat) -> CccClientRequestView {
    CccClientRequestView {
        header: RequestHeaderView {
            id: decimal_digits(counter),
            request_type: REQUEST_TYPE@,
            session_id: Seq::empty(),
        },
        data: RequestDataView {
            client_type: CLIENT_TYPE@,
            endpoint_os: ENDPOINT_OS@,
            username: hex_of_text(auth.username),
            password: hex_of_text(auth.password),
        },
    }
}

/// Where the requests for `server_name` go.
pub open spec fn endpoint_url(server_name: Seq<char>) -> Seq<char> {
    "https://"@ + server_name + "/clients/"@
}

/// True of the HTTP statuses that deliver a response body: the 2xx ones.
pub open spec fn is_success_status(status: u16) -> bool {
    200 <= status < 300
}

/// True of a decoded response that grants access: it carries the response
/// tag, says `true`, and brings a key.
pub open spec fn grants_access(name: Seq<char>, response: CccServerResponseView) -> bool {
    &&& name == CccServerResponse::NAME@
    &&& response.data.is_authenticated == AUTHENTICATED@
    &&& response.data.active_key is Some
}

/// The outcome of an attempt whose response was decoded: the response
/// itself where it grants access, a rejection otherwise.
pub open spec fn verdict(name: Seq<char>, response: CccServerResponseView) -> Result<
    CccServerResponseView,
    AuthError,
> {
    if grants_access(name, response) {
        Ok(response)
    } else {
        Err(AuthError::AuthenticationRejected)
    }
}

/// The text that `String::from_utf8_lossy` of std makes of `bytes`.
pub uninterp spec fn lossy_text(bytes: Seq<u8>) -> Seq<char>;

/// What follows each event of an attempt.
pub open spec fn next_action(auth: AuthenticatorView, event: EventView) -> ActionView {
    match event {
        EventView::Encoded { text } => ActionView::Post {
            url: endpoint_url(auth.server_name),
            body: text,
        },
        EventView::EncodeFailed => ActionView::Finish {
            outcome: Err(AuthError::Codec(CodecError::Encoding)),
        },
        EventView::Responded { status, body } => if is_success_status(status) {
            ActionView::Decode { text: lossy_text(body) }
        } else {
            ActionView::Finish {
                outcome: Err(AuthError::Transport(TransportError::Status(status))),
            }
        },
        EventView::TransportFailed => ActionView::Finish {
            outcome: Err(AuthError::Transport(TransportError::Connection)),
        },
        EventView::Decoded { name, response } => ActionView::Finish {
            outcome: verdict(name, response),
        },
        EventView::DecodeFailed => ActionView::Finish {
            outcome: Err(AuthError::Codec(CodecError::Decoding)),
        },
    }
}

/// `String::from_utf8_lossy` of std, made into an owned string. The
/// contract names the result; of well-formed UTF-8 it claims what std
/// documents, that the text is the one the bytes encode.
#[verifier::external_body]
fn text_of_body(body: &[u8]) -> (text: String)
    ensures
        text@ == lossy_text(body@),
        valid_utf8(body@) ==> text@ == decode_utf8(body@),
{
    String::from_utf8_lossy(body).into_owned()
}

/// Judges a decoded response: hands it back where it grants access, and
/// rejects the attempt otherwise.
pub fn check_response(name: &str, response: CccServerResponse) -> (outcome: Result<
    CccServerResponse,
    AuthError,
>)
    ensures
        outcome_view(outcome) == verdict(name@, response@),
{
    if same_text(name, CccServerResponse::NAME) && same_text(
        response.data.is_authenticated.as_str(),
        AUTHENTICATED,
    ) && response.data.active_key.is_some() {
        Ok(response)
    } else {
        Err(AuthError::AuthenticationRejected)
    }
}

/// Authenticates one user against one server.
pub struct SnxHttpAuthenticator {
    server_name: String,
    auth: (String, String),
}

impl View for SnxHttpAuthenticator {
    type V = AuthenticatorView;

    closed spec fn view(&self) -> AuthenticatorView {
        AuthenticatorView {
            server_name: self.server_name@,
            username: self.auth.0@,
            password: self.auth.1@,
        }
    }
}

impl SnxHttpAuthenticator {
    /// An authenticator for the server `server_name` and the user
    /// `auth.0` with the password `auth.1`.
    pub fn new(server_name: String, auth: (String, String)) -> (authenticator: Self)
        ensures
            authenticator@ == (AuthenticatorView {
                server_name: server_name@,
                username: auth.0@,
                password: auth.1@,
            }),
    {
        Self { server_name, auth }
    }

    /// Builds the request of a new attempt and takes its id from `ids`.
    pub fn new_request(&self, ids: &mut RequestIdGenerator) -> (request: CccClientRequest)
        ensures
            request@ == request_of(self@, old(ids)@),
            final(ids)@ == next_counter(old(ids)@),
    {
        CccClientRequest {
            header: RequestHeader {
                id: ids.next_id(),
                request_type: REQUEST_TYPE.to_string(),
                session_id: String::new(),
            },
            data: RequestData {
                client_type: CLIENT_TYPE.to_string(),
                endpoint_os: ENDPOINT_OS.to_string(),
                username: encode_to_hex(self.auth.0.as_str()),
                password: encode_to_hex(self.auth.1.as_str()),
            },
        }
    }

    /// The address that the requests are posted to.
    pub fn url(&self) -> (url: String)
        ensures
            url@ == endpoint_url(self@.server_name),
    {
        let mut url = "https://".to_string();
        url.append(self.server_name.as_str());
        url.append("/clients/");
        url
    }

    /// Opens an attempt: the first thing to do is to encode a new request
    /// under the request tag.
    pub fn start(&self, ids: &mut RequestIdGenerator) -> (action: Action)
        ensures
            action@ == (ActionView::Encode {
                name: CccClientRequest::NAME@,
                request: request_of(self@, old(ids)@),
            }),
            final(ids)@ == next_counter(old(ids)@),
    {
        Action::Encode { name: CccClientRequest::NAME.to_string(), request: self.new_request(ids) }
    }

    /// Continues an attempt: says what follows `event`.
    ///
    /// A response body goes to the codec as text. Of a body that is
    /// well-formed UTF-8 this is the text that the bytes encode.
    pub fn step(&self, event: Event) -> (action: Action)
        ensures
            action@ == next_action(self@, event@),
            event@ matches EventView::Responded { status, body } ==> is_success_status(status)
                && valid_utf8(body) ==> action@ == (ActionView::Decode {
                text: decode_utf8(body),
            }),
    {
        match event {
            Event::Encoded { text } => Action::Post { url: self.url(), body: text },
            Event::EncodeFailed => Action::Finish {
                outcome: Err(AuthError::Codec(CodecError::Encoding)),
            },
            Event::Responded { status, body } => {
                if 200 <= status && status < 300 {
                    Action::Decode { text: text_of_body(body.as_slice()) }
                } else {
                    Action::Finish {
                        outcome: Err(AuthError::Transport(TransportError::Status(status))),
                    }
                }
            },
            Event::TransportFailed => Action::Finish {
                outcome: Err(AuthError::Transport(TransportError::Connection)),
            },
            Event::Decoded { name, response } => Action::Finish {
                outcome: check_response(name.as_str(), response),
            },
            Event::DecodeFailed => Action::Finish {
                outcome: Err(AuthError::Codec(CodecError::Decoding)),
            },
        }
    }
}

/// The action that ends an attempt in a rejection.
pub open spec fn rejection() -> ActionView {
    ActionView::Finish { outcome: Err(AuthError::AuthenticationRejected) }
}

/// A response under the response tag that says `true` and brings a key ends
/// the attempt in success, and the caller is handed that very response,
/// key included.
pub proof fn lemma_access_granted(
    auth: AuthenticatorView,
    name: Seq<char>,
    response: CccServerResponseView,
    key: Seq<char>,
)
    requires
        name == CccServerResponse::NAME@,
        response.data.is_authenticated == AUTHENTICATED@,
        response.data.active_key == Some(key),
    ensures
        next_action(auth, EventView::Decoded { name, response }) == (ActionView::Finish {
            outcome: Ok(response),
        }),
{
}

/// A response under any other tag is rejected, whatever it says.
pub proof fn lemma_wrong_tag_rejected(
    auth: AuthenticatorView,
    name: Seq<char>,
    response: CccServerResponseView,
)
    requires
        name != CccServerResponse::NAME@,
    ensures
        next_action(auth, EventView::Decoded { name, response }) == rejection(),
{
}

/// A response without a key is rejected, even where it says `true`.
pub proof fn lemma_missing_key_rejected(
    auth: AuthenticatorView,
    name: Seq<char>,
    response: CccServerResponseView,
)
    requires
        response.data.active_key is None,
    ensures
        next_action(auth, EventView::Decoded { name, response }) == rejection(),
{
}

/// A response that says anything but `true` is rejected: no other text is
/// read as a confirmation.
pub proof fn lemma_unconfirmed_rejected(
    auth: AuthenticatorView,
    name: Seq<char>,
    response: CccServerResponseView,
)
    requires
        response.data.is_authenticated != AUTHENTICATED@,
    ensures
        next_action(auth, EventView::Decoded { name, response }) == rejection(),
{
}

/// A response that says `false` is rejected, key or no key.
pub proof fn lemma_explicit_false_rejected(
    auth: AuthenticatorView,
    name: Seq<char>,
    response: CccServerResponseView,
)
    requires
        response.data.is_authenticated == "false"@,
    ensures
        next_action(auth, EventView::Decoded { name, response }) == rejection(),
{
    reveal_strlit("false");
    reveal_strlit("true");
    assert("false"@.len() != AUTHENTICATED@.len());
}

/// A failure of the transport ends the attempt at once, as a transport
/// error that keeps the status: the body of a response whose status is not
/// a 2xx one is never handed to the codec, and the attempt is not counted as
/// a rejection.
pub proof fn lemma_transport_failure_surfaces(auth: AuthenticatorView, status: u16, body: Seq<u8>)
    ensures
        next_action(auth, EventView::TransportFailed) == (ActionView::Finish {
            outcome: Err(AuthError::Transport(TransportError::Connection)),
        }),
        !is_success_status(status) ==> next_action(auth, EventView::Responded { status, body })
            == (ActionView::Finish {
            outcome: Err(AuthError::Transport(TransportError::Status(status))),
        }),
{
}

/// A body that arrives with a 2xx status goes to the codec, and where the
/// codec cannot read it the attempt ends as a codec error, not as a
/// rejection.
pub proof fn lemma_malformed_body_surfaces(auth: AuthenticatorView, status: u16, body: Seq<u8>)
    requires
        is_success_status(status),
    ensures
        next_action(auth, EventView::Responded { status, body }) == (ActionView::Decode {
            text: lossy_text(body),
        }),
        next_action(auth, EventView::DecodeFailed) == (ActionView::Finish {
            outcome: Err(AuthError::Codec(CodecError::Decoding)),
        }),
{
}

/// What the codec and the transport answer in the course of one attempt,
/// each as far as it gets asked.
pub struct Answers {
    /// The wire text of the request; `None` where the codec cannot write it.
    pub encoded: Option<Seq<char>>,
    /// Status and body of the response; `None` where no response arrives.
    pub responded: Option<(u16, Seq<u8>)>,
    /// Tag and record read from the body; `None` where the codec cannot
    /// read it.
    pub decoded: Option<(Seq<char>, CccServerResponseView)>,
}

/// How an attempt ends when its actions are performed in the order in which
/// [`next_action`] names them and are answered by `answers`.
pub open spec fn attempt_outcome(auth: AuthenticatorView, answers: Answers) -> Result<
    CccServerResponseView,
    AuthError,
> {
    let after_encoding = next_action(
        auth,
        match answers.encoded {
            Some(text) => EventView::Encoded { text },
            None => EventView::EncodeFailed,
        },
    );
    let after_posting = next_action(
        auth,
        match answers.responded {
            Some((status, body)) => EventView::Responded { status, body },
            None => EventView::TransportFailed,
        },
    );
    let after_decoding = next_action(
        auth,
        match answers.decoded {
            Some((name, response)) => EventView::Decoded { name, response },
            None => EventView::DecodeFailed,
        },
    );
    if let ActionView::Finish { outcome } = after_encoding {
        outcome
    } else if let ActionView::Finish { outcome } = after_posting {
        outcome
    } else {
        after_decoding->outcome
    }
}

/// An attempt is over after three answers at most, and ends in the first
/// failure on its way: of the encoding, of the transport, of the status, of
/// the decoding, or of the verdict on the response. Only the last of them is
/// a rejection.
pub proof fn lemma_attempt_outcome(auth: AuthenticatorView, answers: Answers)
    ensures
        attempt_outcome(auth, answers) == match (
            answers.encoded,
            answers.responded,
            answers.decoded,
        ) {
            (None, _, _) => Err(AuthError::Codec(CodecError::Encoding)),
            (Some(_), None, _) => Err(AuthError::Transport(TransportError::Connection)),
            (Some(_), Some((status, _)), decoded) => if !is_success_status(status) {
                Err(AuthError::Transport(TransportError::Status(status)))
            } else {
                match decoded {
                    None => Err(AuthError::Codec(CodecError::Decoding)),
                    Some((name, response)) => verdict(name, response),
                }
            },
        },
{
}

/// An attempt that succeeds hands out a response that carries a key and
/// says `true`: the response that the codec read, under the response tag.
pub proof fn lemma_success_carries_key(
    auth: AuthenticatorView,
    answers: Answers,
    response: CccServerResponseView,
)
    requires
        attempt_outcome(auth, answers) == Ok::<CccServerResponseView, AuthError>(response),
    ensures
        response.data.active_key is Some,
        response.data.is_authenticated == AUTHENTICATED@,
        answers.decoded == Some((CccServerResponse::NAME@, response)),
        answers.responded is Some && is_success_status(answers.responded.unwrap().0),
{
    lemma_attempt_outcome(auth, answers);
}

/// The password field of a request is made of hexadecimal digits alone, and
/// the password does not stand in it, unless it is one of the texts of
/// decimal digits that can stand in their own hex form.
pub proof fn lemma_password_not_in_request(auth: AuthenticatorView, counter: nat)
    ensures
        forall|i: int|
            0 <= i < request_of(auth, counter).data.password.len() ==> {
                let c = #[trigger] request_of(auth, counter).data.password[i];
                '0' <= c <= '9' || 'a' <= c <= 'f'
            },
        !may_stand_in_its_hex(auth.password) ==> !occurs_in(
            auth.password,
            request_of(auth, counter).data.password,
        ),
{
    lemma_hex_alphabet(encode_utf8(auth.password));
    if !may_stand_in_its_hex(auth.password) {
        lemma_text_not_in_its_hex(auth.password);
    }
}

/// The credentials can be read back from a request: its two hex fields
/// decode to the username and the password that the authenticator holds.
pub proof fn lemma_credentials_round_trip(auth: AuthenticatorView, counter: nat)
    ensures
        text_of_hex(request_of(auth, counter).data.username) == Some(auth.username),
        text_of_hex(request_of(auth, counter).data.password) == Some(auth.password),
{
    lemma_hex_round_trip(auth.username);
    lemma_hex_round_trip(auth.password);
}

} // verus!
