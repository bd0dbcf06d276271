//! The protocol of the server: what to ask, how to read the answer, and
//! what can go wrong.

use vstd::prelude::*;
use vstd::string::*;
use crate::entity::ID;
use crate::text::{decimal, to_decimal};

verus! {

/// A message of the server.
#[derive(Debug)]
pub struct ServerMessage {
    error_type: String,
    message: String,
}

impl ServerMessage {
    /// A message of the given type.
    pub fn new(error_type: String, message: String) -> (this: Self)
        ensures
            this.text() == "type: "@ + error_type@ + ", message: "@ + message@,
    {
        Self { error_type, message }
    }

    /// The message as it is shown.
    pub closed spec fn text(&self) -> Seq<char> {
        "type: "@ + self.error_type@ + ", message: "@ + self.message@
    }

    /// The message as it is shown.
    pub fn to_string(&self) -> (text: String)
        ensures
            text@ == self.text(),
    {
        let mut text = "type: ".to_owned();
        text.append(self.error_type.as_str());
        text.append(", message: ");
        text.append(self.message.as_str());
        text
    }
}

/// An error reported by the server.
#[derive(Debug)]
pub struct ServerError {
    error_type: String,
    error: String,
}

impl ServerError {
    /// An error of the given type.
    pub fn new(error_type: String, error: String) -> (this: Self)
        ensures
            this.text() == "type: "@ + error_type@ + ", error: "@ + error@,
    {
        Self { error_type, error }
    }

    /// The error as it is shown.
    pub closed spec fn text(&self) -> Seq<char> {
        "type: "@ + self.error_type@ + ", error: "@ + self.error@
    }

    /// The error as it is shown.
    pub fn to_string(&self) -> (text: String)
        ensures
            text@ == self.text(),
    {
        let mut text = "type: ".to_owned();
        text.append(self.error_type.as_str());
        text.append(", error: ");
        text.append(self.error.as_str());
        text
    }
}

/// What can go wrong with a request.
#[derive(Debug)]
pub enum RestClientError {
    /// The answer could not be read; the payload says why.
    Parse(String),
    /// The request could not be made; the payload says why.
    Request(String),
    /// The server answered with a message.
    ServerMessage(ServerMessage),
    /// The server answered with an error.
    ServerError(ServerError),
}

impl RestClientError {
    /// The error as it is shown.
    pub open spec fn text(&self) -> Seq<char> {
        match self {
            RestClientError::Parse(why) => "parsing error: `"@ + why@ + "`"@,
            RestClientError::Request(why) => "request error: `"@ + why@ + "`"@,
            RestClientError::ServerMessage(message) => "server message: `"@ + message.text() + "`"@,
            RestClientError::ServerError(error) => "server error: `"@ + error.text() + "`"@,
        }
    }

    /// The error as it is shown.
    pub fn to_string(&self) -> (text: String)
        ensures
            text@ == self.text(),
    {
        match self {
            RestClientError::Parse(why) => {
                let mut text = "parsing error: `".to_owned();
                text.append(why.as_str());
                text.append("`");
                text
            },
            RestClientError::Request(why) => {
                let mut text = "request error: `".to_owned();
                text.append(why.as_str());
                text.append("`");
                text
            },
            RestClientError::ServerMessage(message) => {
                let mut text = "server message: `".to_owned();
                text.append(message.to_string().as_str());
                text.append("`");
                text
            },
            RestClientError::ServerError(error) => {
                let mut text = "server error: `".to_owned();
                text.append(error.to_string().as_str());
                text.append("`");
                text
            },
        }
    }
}

/// The answer of the server to a change.
#[derive(Debug)]
pub struct ServerOperationStatus {
    status: String,
}

impl View for ServerOperationStatus {
    type V = Seq<char>;

    /// The status.
    closed spec fn view(&self) -> Seq<char> {
        self.status@
    }
}

impl ServerOperationStatus {
    /// An answer with the given status.
    pub fn new(status: String) -> (this: Self)
        ensures
            this@ == status@,
    {
        Self { status }
    }

    /// The status.
    pub fn status(&self) -> (status: &String)
        ensures
            status@ == self@,
    {
        &self.status
    }
}

/// What a client can ask of the server about one kind of entity.
#[derive(Clone, Copy, Debug, PartialEq, Eq, Structural)]
pub enum RestOperation {
    GetOne,
    GetAll,
    Insert,
    Update,
    Remove,
}

/// The method of a request.
#[derive(Clone, Copy, Debug, PartialEq, Eq, Structural)]
pub enum HttpMethod {
    Get,
    Post,
    Put,
    Delete,
}

/// How the body of an answer is to be read.
#[derive(Clone, Copy, Debug, PartialEq, Eq, Structural)]
pub enum BodyKind {
    /// As what the operation asked for.
    Payload,
    /// As an error of the server.
    ServerError,
}

/// The status of an answer that is no error.
pub const STATUS_OK: u16 = 200;

impl RestOperation {
    /// The method of the request for the operation.
    pub fn method(self) -> (method: HttpMethod)
        ensures
            method == match self {
                RestOperation::GetOne => HttpMethod::Get,
                RestOperation::GetAll => HttpMethod::Get,
                RestOperation::Insert => HttpMethod::Post,
                RestOperation::Update => HttpMethod::Put,
                RestOperation::Remove => HttpMethod::Delete,
            },
    {
        match self {
            RestOperation::GetOne => HttpMethod::Get,
            RestOperation::GetAll => HttpMethod::Get,
            RestOperation::Insert => HttpMethod::Post,
            RestOperation::Update => HttpMethod::Put,
            RestOperation::Remove => HttpMethod::Delete,
        }
    }

    /// Whether the request is about one entity, whose key ends the
    /// address.
    pub open spec fn names_entity(self) -> bool {
        self == RestOperation::GetOne || self == RestOperation::Update || self == RestOperation::Remove
    }

    /// Whether the request carries the entity as its body.
    pub fn sends_body(self) -> (sends: bool)
        ensures
            sends == (self == RestOperation::Insert || self == RestOperation::Update),
    {
        match self {
            RestOperation::Insert => true,
            RestOperation::Update => true,
            _ => false,
        }
    }

    /// The address of the request: the path of the collection and, where
    /// the request is about one entity, a slash and the key.
    pub open spec fn address(self, path: Seq<char>, id: ID) -> Seq<char> {
        if self.names_entity() {
            path + "/"@ + decimal(id as nat)
        } else {
            path
        }
    }

    /// The address of the request.
    pub fn url(self, path: &str, id: ID) -> (url: String)
        ensures
            url@ == self.address(path@, id),
    {
        let mut url = path.to_owned();
        match self {
            RestOperation::GetOne | RestOperation::Update | RestOperation::Remove => {
                url.append("/");
                url.append(to_decimal(id).as_str());
            },
            _ => {},
        }
        url
    }

    /// How to read the body of an answer with the given status: an answer
    /// to a request for one entity is an error of the server unless its
    /// status is `STATUS_OK`; every other answer is read as what was asked
    /// for, whatever its status.
    pub fn body_kind(self, status: u16) -> (kind: BodyKind)
        ensures
            kind == if self == RestOperation::GetOne && status != STATUS_OK {
                BodyKind::ServerError
            } else {
                BodyKind::Payload
            },
    {
        match self {
            RestOperation::GetOne => {
                if status == STATUS_OK {
                    BodyKind::Payload
                } else {
                    BodyKind::ServerError
                }
            },
            _ => BodyKind::Payload,
        }
    }
}

/// The address of the server that listens at `host` on `port`.
pub fn server_address(host: &str, port: u16) -> (address: String)
    ensures
        address@ == "http://"@ + host@ + ":"@ + decimal(port as nat),
{
    let mut address = "http://".to_owned();
    address.append(host);
    address.append(":");
    address.append(to_decimal(port as u64).as_str());
    address
}

/// The path of the collection of exercises on `host`.
pub fn exercises_path(host: &str) -> (path: String)
    ensures
        path@ == host@ + "/exercises"@,
{
    let mut path = host.to_owned();
    path.append("/exercises");
    path
}

/// The path of the collection of persons on `host`.
pub fn persons_path(host: &str) -> (path: String)
    ensures
        path@ == host@ + "/persons"@,
{
    let mut path = host.to_owned();
    path.append("/persons");
    path
}

} // verus!
