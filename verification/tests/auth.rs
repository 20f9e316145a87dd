use snx_auth::auth::{
    check_response, Action, AuthError, CodecError, Event, SnxHttpAuthenticator, TransportError,
    AUTHENTICATED, CLIENT_TYPE, ENDPOINT_OS, REQUEST_TYPE,
};
use snx_auth::model::{
    CccClientRequest, CccServerResponse, RequestData, RequestHeader, ResponseData, ResponseHeader,
};
use snx_auth::request_id::RequestIdGenerator;
use snx_auth::util::decode_from_hex;

fn authenticator() -> SnxHttpAuthenticator {
    SnxHttpAuthenticator::new(
        "vpn.example.com".to_string(),
        ("alice".to_string(), "hunter2".to_string()),
    )
}

fn response(is_authenticated: &str, active_key: Option<&str>) -> CccServerResponse {
    CccServerResponse {
        header: ResponseHeader {
            id: "2".to_string(),
            response_type: "UserPass".to_string(),
            session_id: String::new(),
            return_code: "600".to_string(),
        },
        data: ResponseData {
            is_authenticated: is_authenticated.to_string(),
            active_key: active_key.map(|key| key.to_string()),
        },
    }
}

fn decoded(name: &str, response: CccServerResponse) -> Event {
    Event::Decoded { name: name.to_string(), response }
}

fn rejected() -> Action {
    Action::Finish { outcome: Err(AuthError::AuthenticationRejected) }
}

#[test]
fn protocol_constants() {
    assert_eq!(CccClientRequest::NAME, "CCCclientRequest");
    assert_eq!(CccServerResponse::NAME, "CCCserverResponse");
    assert_eq!(REQUEST_TYPE, "UserPass");
    assert_eq!(CLIENT_TYPE, "TRAC");
    assert_eq!(ENDPOINT_OS, "unix");
    assert_eq!(AUTHENTICATED, "true");
}

#[test]
fn request_carries_the_credentials_in_hex() {
    let mut ids = RequestIdGenerator::new();
    let request = authenticator().new_request(&mut ids);
    assert_eq!(
        request,
        CccClientRequest {
            header: RequestHeader {
                id: "2".to_string(),
                request_type: "UserPass".to_string(),
                session_id: String::new(),
            },
            data: RequestData {
                client_type: "TRAC".to_string(),
                endpoint_os: "unix".to_string(),
                username: "616c696365".to_string(),
                password: "68756e74657232".to_string(),
            },
        }
    );
}

#[test]
fn each_request_takes_a_new_id() {
    let mut ids = RequestIdGenerator::new();
    let auth = authenticator();
    let first = auth.new_request(&mut ids);
    let second = auth.new_request(&mut ids);
    let third = authenticator().new_request(&mut ids);
    assert_eq!(first.header.id, "2");
    assert_eq!(second.header.id, "3");
    assert_eq!(third.header.id, "4");
    assert_eq!(first.data, second.data);
    assert_eq!(ids.next_id(), "5");
}

#[test]
fn request_never_holds_the_password_itself() {
    let mut ids = RequestIdGenerator::new();
    let request = authenticator().new_request(&mut ids);
    assert!(!request.data.password.contains("hunter2"));
    assert!(!request.data.username.contains("alice"));
    assert_eq!(decode_from_hex(&request.data.password), Some("hunter2".to_string()));
    assert_eq!(decode_from_hex(&request.data.username), Some("alice".to_string()));
}

#[test]
fn request_of_a_user_with_other_scripts() {
    let auth = SnxHttpAuthenticator::new(
        "host".to_string(),
        ("j\u{fc}rgen".to_string(), "\u{43f}\u{430}\u{440}\u{43e}\u{43b}\u{44c}".to_string()),
    );
    let mut ids = RequestIdGenerator::new();
    let request = auth.new_request(&mut ids);
    assert_eq!(request.data.username, "6ac3bc7267656e");
    assert_eq!(request.data.password, "d0bfd0b0d180d0bed0bbd18c");
}

#[test]
fn url_names_the_clients_endpoint() {
    assert_eq!(authenticator().url(), "https://vpn.example.com/clients/");
    let bare = SnxHttpAuthenticator::new(String::new(), (String::new(), String::new()));
    assert_eq!(bare.url(), "https:///clients/");
    let with_port =
        SnxHttpAuthenticator::new("10.0.0.1:4433".to_string(), (String::new(), String::new()));
    assert_eq!(with_port.url(), "https://10.0.0.1:4433/clients/");
}

#[test]
fn attempt_starts_with_encoding_a_new_request() {
    let mut ids = RequestIdGenerator::new();
    let auth = authenticator();
    let mut expected_ids = RequestIdGenerator::new();
    let expected = auth.new_request(&mut expected_ids);
    assert_eq!(
        auth.start(&mut ids),
        Action::Encode { name: "CCCclientRequest".to_string(), request: expected }
    );
    assert_eq!(ids.next_id(), "3");
}

#[test]
fn encoded_request_is_posted_to_the_server() {
    let action = authenticator().step(Event::Encoded { text: "(wire text)".to_string() });
    assert_eq!(
        action,
        Action::Post {
            url: "https://vpn.example.com/clients/".to_string(),
            body: "(wire text)".to_string(),
        }
    );
}

#[test]
fn request_that_cannot_be_encoded_ends_the_attempt() {
    assert_eq!(
        authenticator().step(Event::EncodeFailed),
        Action::Finish { outcome: Err(AuthError::Codec(CodecError::Encoding)) }
    );
}

#[test]
fn body_of_a_success_status_is_decoded() {
    for status in [200u16, 201, 204, 299] {
        let action = authenticator().step(Event::Responded { status, body: b"(answer)".to_vec() });
        assert_eq!(action, Action::Decode { text: "(answer)".to_string() });
    }
}

#[test]
fn body_is_read_as_utf8() {
    let body = "(k\u{f6}nig \u{2713})".as_bytes().to_vec();
    assert_eq!(body.len(), 12);
    assert_eq!(
        authenticator().step(Event::Responded { status: 200, body }),
        Action::Decode { text: "(k\u{f6}nig \u{2713})".to_string() }
    );
}

#[test]
fn bytes_that_are_not_utf8_are_replaced() {
    let action = authenticator().step(Event::Responded { status: 200, body: vec![0x28, 0xff, 0x29] });
    assert_eq!(action, Action::Decode { text: "(\u{fffd})".to_string() });
    let action = authenticator().step(Event::Responded { status: 200, body: vec![0xc3] });
    assert_eq!(action, Action::Decode { text: "\u{fffd}".to_string() });
    let action = authenticator().step(Event::Responded { status: 200, body: Vec::new() });
    assert_eq!(action, Action::Decode { text: String::new() });
}

#[test]
fn transport_failure_propagates() {
    let action = authenticator().step(Event::Responded { status: 500, body: b"oops".to_vec() });
    assert_eq!(
        action,
        Action::Finish { outcome: Err(AuthError::Transport(TransportError::Status(500))) }
    );
    assert_eq!(
        authenticator().step(Event::TransportFailed),
        Action::Finish { outcome: Err(AuthError::Transport(TransportError::Connection)) }
    );
}

#[test]
fn every_status_outside_2xx_is_a_transport_error() {
    for status in [0u16, 100, 101, 199, 300, 301, 304, 400, 401, 403, 404, 499, 500, 503, 599, 999, u16::MAX]
    {
        let granted = b"would be fine".to_vec();
        assert_eq!(
            authenticator().step(Event::Responded { status, body: granted }),
            Action::Finish { outcome: Err(AuthError::Transport(TransportError::Status(status))) }
        );
    }
}

#[test]
fn malformed_body_propagates() {
    let auth = authenticator();
    let action = auth.step(Event::Responded { status: 200, body: b"not-a-valid-record".to_vec() });
    assert_eq!(action, Action::Decode { text: "not-a-valid-record".to_string() });
    assert_eq!(
        auth.step(Event::DecodeFailed),
        Action::Finish { outcome: Err(AuthError::Codec(CodecError::Decoding)) }
    );
}

#[test]
fn success_returns_the_response_with_its_key() {
    let granted = response("true", Some("K"));
    let action = authenticator().step(decoded("CCCserverResponse", granted.clone()));
    match action {
        Action::Finish { outcome: Ok(returned) } => {
            assert_eq!(returned.data.active_key.as_deref(), Some("K"));
            assert_eq!(returned, granted);
        },
        other => panic!("not a success: {:?}", other),
    }
    assert_eq!(check_response("CCCserverResponse", granted.clone()), Ok(granted));
}

#[test]
fn success_with_an_empty_key() {
    let granted = response("true", Some(""));
    assert_eq!(check_response("CCCserverResponse", granted.clone()), Ok(granted));
}

#[test]
fn rejection_on_wrong_tag() {
    for name in ["CCCclientRequest", "", "cccserverresponse", "CCCserverResponse ", "CCCserverRespons"] {
        assert_eq!(authenticator().step(decoded(name, response("true", Some("K")))), rejected());
        assert_eq!(
            check_response(name, response("true", Some("K"))),
            Err(AuthError::AuthenticationRejected)
        );
        assert_eq!(
            check_response(name, response("false", None)),
            Err(AuthError::AuthenticationRejected)
        );
    }
}

#[test]
fn rejection_on_missing_key() {
    assert_eq!(
        authenticator().step(decoded("CCCserverResponse", response("true", None))),
        rejected()
    );
    assert_eq!(
        check_response("CCCserverResponse", response("true", None)),
        Err(AuthError::AuthenticationRejected)
    );
}

#[test]
fn rejection_on_explicit_false() {
    assert_eq!(
        authenticator().step(decoded("CCCserverResponse", response("false", Some("K")))),
        rejected()
    );
    assert_eq!(
        authenticator().step(decoded("CCCserverResponse", response("false", None))),
        rejected()
    );
}

#[test]
fn only_the_exact_text_confirms() {
    for said in ["True", "TRUE", "1", "yes", "", " true", "true ", "truee", "tru"] {
        assert_eq!(
            check_response("CCCserverResponse", response(said, Some("K"))),
            Err(AuthError::AuthenticationRejected)
        );
    }
}

#[test]
fn header_of_the_response_does_not_matter() {
    let mut granted = response("true", Some("K"));
    granted.header = ResponseHeader {
        id: "wrong".to_string(),
        response_type: String::new(),
        session_id: "s".to_string(),
        return_code: "-1".to_string(),
    };
    assert_eq!(check_response("CCCserverResponse", granted.clone()), Ok(granted));
}

#[test]
fn messages_describe_the_error() {
    assert_eq!(AuthError::AuthenticationRejected.message(), "Authentication failed!");
    assert_eq!(
        AuthError::Transport(TransportError::Connection).message(),
        "Connection to the server failed"
    );
    assert_eq!(
        AuthError::Transport(TransportError::Status(500)).message(),
        "Server answered with HTTP status 500"
    );
    assert_eq!(
        AuthError::Transport(TransportError::Status(65_535)).message(),
        "Server answered with HTTP status 65535"
    );
    assert_eq!(AuthError::Codec(CodecError::Encoding).message(), "Request could not be encoded");
    assert_eq!(AuthError::Codec(CodecError::Decoding).message(), "Response could not be decoded");
}

#[test]
fn errors_are_told_apart() {
    let all = [
        AuthError::Transport(TransportError::Connection),
        AuthError::Transport(TransportError::Status(500)),
        AuthError::Transport(TransportError::Status(404)),
        AuthError::Codec(CodecError::Encoding),
        AuthError::Codec(CodecError::Decoding),
        AuthError::AuthenticationRejected,
    ];
    for (i, one) in all.iter().enumerate() {
        for (j, other) in all.iter().enumerate() {
            assert_eq!(one == other, i == j);
            assert_eq!(one.message() == other.message(), i == j);
        }
    }
}

fn run(
    auth: &SnxHttpAuthenticator,
    ids: &mut RequestIdGenerator,
    status: u16,
    answer: Option<(&str, CccServerResponse)>,
) -> (Result<CccServerResponse, AuthError>, Vec<String>) {
    let mut trace = Vec::new();
    let mut action = auth.start(ids);
    loop {
        let event = match action {
            Action::Encode { name, request } => {
                trace.push(format!("encode {} {}", name, request.header.id));
                Event::Encoded { text: format!("({} {})", name, request.data.username) }
            },
            Action::Post { url, body } => {
                trace.push(format!("post {} {}", url, body));
                Event::Responded { status, body: b"(body)".to_vec() }
            },
            Action::Decode { text } => {
                trace.push(format!("decode {}", text));
                match answer.clone() {
                    Some((name, response)) => Event::Decoded { name: name.to_string(), response },
                    None => Event::DecodeFailed,
                }
            },
            Action::Finish { outcome } => return (outcome, trace),
        };
        action = auth.step(event);
    }
}

#[test]
fn whole_attempt_that_succeeds() {
    let mut ids = RequestIdGenerator::new();
    let granted = response("true", Some("K"));
    let (outcome, trace) =
        run(&authenticator(), &mut ids, 200, Some(("CCCserverResponse", granted.clone())));
    assert_eq!(outcome, Ok(granted));
    assert_eq!(
        trace,
        vec![
            "encode CCCclientRequest 2".to_string(),
            "post https://vpn.example.com/clients/ (CCCclientRequest 616c696365)".to_string(),
            "decode (body)".to_string(),
        ]
    );
    assert_eq!(ids.next_id(), "3");
}

#[test]
fn whole_attempt_that_is_rejected() {
    let mut ids = RequestIdGenerator::new();
    let (outcome, trace) =
        run(&authenticator(), &mut ids, 200, Some(("CCCserverResponse", response("false", None))));
    assert_eq!(outcome, Err(AuthError::AuthenticationRejected));
    assert_eq!(trace.len(), 3);
}

#[test]
fn whole_attempt_against_a_failing_server() {
    let mut ids = RequestIdGenerator::new();
    let granted = response("true", Some("K"));
    let (outcome, trace) =
        run(&authenticator(), &mut ids, 500, Some(("CCCserverResponse", granted)));
    assert_eq!(outcome, Err(AuthError::Transport(TransportError::Status(500))));
    assert_eq!(trace.len(), 2);
}

#[test]
fn whole_attempt_with_an_unreadable_answer() {
    let mut ids = RequestIdGenerator::new();
    let (outcome, trace) = run(&authenticator(), &mut ids, 200, None);
    assert_eq!(outcome, Err(AuthError::Codec(CodecError::Decoding)));
    assert_eq!(trace.len(), 3);
    let (_, again) = run(&authenticator(), &mut ids, 200, None);
    assert_eq!(again[0], "encode CCCclientRequest 3");
}
