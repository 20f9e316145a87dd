//! The records that travel between client and server.
//!
//! Every record has a view: the same record with each text field taken as a
//! sequence of characters. Contracts speak of the views.

use vstd::prelude::*;

verus! {

/// Header of a client request.
#[derive(Debug, Clone, PartialEq, Eq)]
pub struct RequestHeader {
    /// Correlation id, unique per request for the lifetime of the process.
    pub id: String,
    /// Discriminator of the requested operation.
    pub request_type: String,
    /// Session the request belongs to; empty before authentication.
    pub session_id: String,
}

/// Mathematical value of a [`RequestHeader`].
pub struct RequestHeaderView {
    pub id: Seq<char>,
    pub request_type: Seq<char>,
    pub session_id: Seq<char>,
}

impl View for RequestHeader {
    type V = RequestHeaderView;

    open spec fn view(&self) -> RequestHeaderView {
        RequestHeaderView {
            id: self.id@,
            request_type: self.request_type@,
            session_id: self.session_id@,
        }
    }
}

/// Credential payload of a client request.
///
/// `username` and `password` hold the hex form of the credentials' UTF-8
/// bytes, never the credentials themselves.
#[derive(Debug, Clone, PartialEq, Eq)]
pub struct RequestData {
    /// Name of the client implementation.
    pub client_type: String,
    /// Operating system family of the host.
    pub endpoint_os: String,
    pub username: String,
    pub password: String,
}

/// Mathematical value of a [`RequestData`].
pub struct RequestDataView {
    pub client_type: Seq<char>,
    pub endpoint_os: Seq<char>,
    pub username: Seq<char>,
    pub password: Seq<char>,
}

impl View for RequestData {
    type V = RequestDataView;

    open spec fn view(&self) -> RequestDataView {
        RequestDataView {
            client_type: self.client_type@,
            endpoint_os: self.endpoint_os@,
            username: self.username@,
            password: self.password@,
        }
    }
}

/// A credential-exchange request: header and payload.
#[derive(Debug, Clone, PartialEq, Eq)]
pub struct CccClientRequest {
    pub header: RequestHeader,
    pub data: RequestData,
}

/// Mathematical value of a [`CccClientRequest`].
pub struct CccClientRequestView {
    pub header: RequestHeaderView,
    pub data: RequestDataView,
}

impl View for CccClientRequest {
    type V = CccClientRequestView;

    open spec fn view(&self) -> CccClientRequestView {
        CccClientRequestView { header: self.header@, data: self.data@ }
    }
}

impl CccClientRequest {
    /// Tag that labels the request record on the wire.
    pub const NAME: &'static str = "CCCclientRequest";
}

/// Header of a server response. Nothing in it bears on the outcome of an
/// authentication attempt.
#[derive(Debug, Clone, PartialEq, Eq)]
pub struct ResponseHeader {
    pub id: String,
    pub response_type: String,
    pub session_id: String,
    pub return_code: String,
}

/// Mathematical value of a [`ResponseHeader`].
pub struct ResponseHeaderView {
    pub id: Seq<char>,
    pub response_type: Seq<char>,
    pub session_id: Seq<char>,
    pub return_code: Seq<char>,
}

impl View for ResponseHeader {
    type V = ResponseHeaderView;

    open spec fn view(&self) -> ResponseHeaderView {
        ResponseHeaderView {
            id: self.id@,
            response_type: self.response_type@,
            session_id: self.session_id@,
            return_code: self.return_code@,
        }
    }
}

/// What the server says of the credentials.
#[derive(Debug, Clone, PartialEq, Eq)]
pub struct ResponseData {
    /// The text `true` or `false`, as the server wrote it.
    pub is_authenticated: String,
    /// Session credential, sent only with a successful authentication.
    pub active_key: Option<String>,
}

/// Mathematical value of a [`ResponseData`].
pub struct ResponseDataView {
    pub is_authenticated: Seq<char>,
    pub active_key: Option<Seq<char>>,
}

impl View for ResponseData {
    type V = ResponseDataView;

    open spec fn view(&self) -> ResponseDataView {
        ResponseDataView {
            is_authenticated: self.is_authenticated@,
            active_key: match self.active_key {
                Some(key) => Some(key@),
                None => None,
            },
        }
    }
}

/// A credential-exchange response: header and verdict.
#[derive(Debug, Clone, PartialEq, Eq)]
pub struct CccServerResponse {
    pub header: ResponseHeader,
    pub data: ResponseData,
}

/// Mathematical value of a [`CccServerResponse`].
pub struct CccServerResponseView {
    pub header: ResponseHeaderView,
    pub data: ResponseDataView,
}

impl View for CccServerResponse {
    type V = CccServerResponseView;

    open spec fn view(&self) -> CccServerResponseView {
        CccServerResponseView { header: self.header@, data: self.data@ }
    }
}

impl CccServerResponse {
    /// Tag that labels the response record on the wire.
    pub const NAME: &'static str = "CCCserverResponse";
}

} // verus!
