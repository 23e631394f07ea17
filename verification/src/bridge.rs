//! The messages of the bridge between host and guest: requests,
//! responses and errors, and the builders that put them together.  The
//! values that they carry are of a wire type `V` that is not looked into
//! here, and their wire encoding is not this crate's business.

use std::collections::BTreeMap;
use vstd::prelude::*;
use vstd::laws_cmp::obeys_cmp;
use vstd::string::StringExecFns;
use uuid::Uuid;

verus! {

/// The identifier of a request, of the `uuid` crate.
#[verifier::external_type_specification]
#[verifier::external_body]
pub struct ExUuid(uuid::Uuid);

/// `Uuid::new_v4`: a random identifier, of which nothing is known.  The
/// call takes no input; it ends the program where the machine gives it no
/// random bytes.
#[verifier::external_body]
pub(crate) fn fresh_id() -> (id: Uuid) {
    Uuid::new_v4()
}

/// Indicates the kind of an error.
#[derive(Debug, Clone, Copy, PartialEq, Eq, Hash, Structural)]
pub enum ErrorKind {
    /// The request went to an unknown endpoint.
    UnknownEndpoint,
    /// An internal error.
    InternalError,
    /// Unable to serialize a request or response.
    SerializationError,
    /// Any other error code.
    Other(u32),
}

impl ErrorKind {
    /// The number that stands for the kind.
    pub open spec fn spec_code(&self) -> u32 {
        match self {
            ErrorKind::UnknownEndpoint => 404,
            ErrorKind::InternalError => 500,
            ErrorKind::SerializationError => 999,
            ErrorKind::Other(code) => *code,
        }
    }

    /// The name under which a kind is displayed; only the three named
    /// kinds have one.
    pub open spec fn spec_name(&self) -> Seq<char> {
        match self {
            ErrorKind::UnknownEndpoint => "unknown_endpoint"@,
            ErrorKind::InternalError => "internal_error"@,
            ErrorKind::SerializationError => "serialization_error"@,
            ErrorKind::Other(_) => Seq::empty(),
        }
    }

    /// Returns the number that stands for the kind.
    pub fn code(&self) -> (code: u32)
        ensures
            code == self.spec_code(),
    {
        match self {
            ErrorKind::UnknownEndpoint => 404,
            ErrorKind::InternalError => 500,
            ErrorKind::SerializationError => 999,
            ErrorKind::Other(code) => *code,
        }
    }

    /// Returns the name under which the kind is displayed.  A kind that is
    /// only a number has none.
    pub fn name(&self) -> (name: &'static str)
        requires
            !(self is Other),
        ensures
            name@ == self.spec_name(),
    {
        match self {
            ErrorKind::UnknownEndpoint => "unknown_endpoint",
            ErrorKind::InternalError => "internal_error",
            ErrorKind::SerializationError => "serialization_error",
            ErrorKind::Other(_) => unreached(),
        }
    }
}

/// Represents a protocol error.
///
/// This error is also produced where the failure lies on one side of the
/// bridge, such as a payload that does not serialize.
#[derive(Debug)]
pub struct Error<V> {
    kind: ErrorKind,
    description: String,
    detail: Option<V>,
}

impl<V> Error<V> {
    /// The kind of the error.
    pub closed spec fn spec_kind(&self) -> ErrorKind {
        self.kind
    }

    /// The description of the error.
    pub closed spec fn spec_description(&self) -> Seq<char> {
        self.description@
    }

    /// The detail of the error, where it has one.
    pub closed spec fn spec_detail(&self) -> Option<V> {
        self.detail
    }

    /// The text under which the error is displayed: kind and description,
    /// and the text of a textual detail on a line of its own.
    pub open spec fn spec_describe(&self, detail_text: Option<Seq<char>>) -> Seq<char> {
        let head = self.spec_kind().spec_name() + ": "@ + self.spec_description();
        match detail_text {
            Some(d) => head + "\n"@ + d,
            None => head,
        }
    }

    /// Creates a new error.
    pub fn new(kind: ErrorKind, description: String) -> (e: Error<V>)
        ensures
            e.spec_kind() == kind,
            e.spec_description() == description@,
            e.spec_detail() is None,
    {
        Error { kind, description, detail: None }
    }

    /// Modifies the error to attach a detail.
    pub fn with_detail(self, detail: V) -> (e: Error<V>)
        ensures
            e.spec_kind() == self.spec_kind(),
            e.spec_description() == self.spec_description(),
            e.spec_detail() == Some(detail),
    {
        Error { kind: self.kind, description: self.description, detail: Some(detail) }
    }

    /// Returns the error kind.
    pub fn kind(&self) -> (k: ErrorKind)
        ensures
            k == self.spec_kind(),
    {
        self.kind
    }

    /// Returns the description.
    pub fn description(&self) -> (d: &str)
        ensures
            d@ == self.spec_description(),
    {
        self.description.as_str()
    }

    /// Returns the detail.
    pub fn detail(&self) -> (d: Option<&V>)
        ensures
            d is Some <==> self.spec_detail() is Some,
            d matches Some(v) ==> self.spec_detail() == Some(*v),
    {
        self.detail.as_ref()
    }

    /// Takes the error apart.
    pub fn into_parts(self) -> (parts: (ErrorKind, String, Option<V>))
        ensures
            parts.0 == self.spec_kind(),
            parts.1@ == self.spec_description(),
            parts.2 == self.spec_detail(),
    {
        (self.kind, self.description, self.detail)
    }

    /// Returns the text under which the error is displayed.  `detail_text`
    /// is the text of the detail, where the detail is a text.
    pub fn describe(&self, detail_text: Option<&str>) -> (text: String)
        requires
            !(self.spec_kind() is Other),
        ensures
            text@ == self.spec_describe(
                match detail_text {
                    Some(d) => Some(d@),
                    None => None,
                },
            ),
    {
        let mut text = String::from_str(self.kind.name());
        text.append(": ");
        text.append(self.description.as_str());
        match detail_text {
            Some(d) => {
                text.append("\n");
                text.append(d);
            },
            None => {},
        }
        text
    }
}

/// A command for a guest, with its payload.
#[derive(Debug, Clone, PartialEq, Eq)]
pub struct Message<T> {
    command: String,
    payload: T,
}

impl<T> Message<T> {
    /// The command's name.
    pub closed spec fn spec_command(&self) -> Seq<char> {
        self.command@
    }

    /// The command's payload.
    pub closed spec fn spec_payload(&self) -> T {
        self.payload
    }

    /// Makes the message that asks for `command` with `payload`.
    pub fn new(command: &str, payload: T) -> (m: Message<T>)
        ensures
            m.spec_command() == command@,
            m.spec_payload() == payload,
    {
        Message { command: command.to_owned(), payload }
    }

    /// Returns the command's name.
    pub fn command(&self) -> (c: &str)
        ensures
            c@ == self.spec_command(),
    {
        self.command.as_str()
    }

    /// Returns the command's payload.
    pub fn payload(&self) -> (p: &T)
        ensures
            *p == self.spec_payload(),
    {
        &self.payload
    }
}

/// Represents the request to an endpoint on the bridge.
#[derive(Debug)]
pub struct Request<V> {
    id: Uuid,
    meta: BTreeMap<String, V>,
    fire_and_forget: bool,
    endpoint: String,
    payload: V,
}

/// Helps to create request objects.
pub struct RequestBuilder<V> {
    request: Option<Request<V>>,
}

/// Represents the response from the bridge.
#[derive(Debug)]
pub struct Response<V> {
    request_id: Uuid,
    meta: BTreeMap<String, V>,
    payload: Result<V, Error<V>>,
}

/// Helps to create response objects.
pub struct ResponseBuilder<V> {
    response: Option<Response<V>>,
}

impl<V> Request<V> {
    /// The identifier of the request.
    pub closed spec fn spec_id(&self) -> Uuid {
        self.id
    }

    /// The meta dictionary of the request.
    pub closed spec fn spec_meta(&self) -> Map<String, V> {
        self.meta@
    }

    /// Whether no response is asked for.
    pub closed spec fn spec_fire_and_forget(&self) -> bool {
        self.fire_and_forget
    }

    /// The endpoint that the request goes to.
    pub closed spec fn spec_endpoint(&self) -> Seq<char> {
        self.endpoint@
    }

    /// The payload of the request.
    pub closed spec fn spec_payload(&self) -> V {
        self.payload
    }

    /// Creates a basic request to an endpoint: one with a fresh identifier
    /// and no meta information, to which a response is expected.
    pub fn new(endpoint: String, payload: V) -> (r: Request<V>)
        ensures
            r.spec_endpoint() == endpoint@,
            r.spec_payload() == payload,
            !r.spec_fire_and_forget(),
            r.spec_meta() == Map::<String, V>::empty(),
    {
        Request {
            id: fresh_id(),
            meta: BTreeMap::new(),
            fire_and_forget: false,
            endpoint,
            payload,
        }
    }

    /// Puts a request together from its parts.
    pub fn from_parts(
        id: Uuid,
        meta: BTreeMap<String, V>,
        fire_and_forget: bool,
        endpoint: String,
        payload: V,
    ) -> (r: Request<V>)
        ensures
            r.spec_id() == id,
            r.spec_meta() == meta@,
            r.spec_fire_and_forget() == fire_and_forget,
            r.spec_endpoint() == endpoint@,
            r.spec_payload() == payload,
    {
        Request { id, meta, fire_and_forget, endpoint, payload }
    }

    /// Takes the request apart.
    pub fn into_parts(self) -> (parts: (Uuid, BTreeMap<String, V>, bool, String, V))
        ensures
            parts.0 == self.spec_id(),
            parts.1@ == self.spec_meta(),
            parts.2 == self.spec_fire_and_forget(),
            parts.3@ == self.spec_endpoint(),
            parts.4 == self.spec_payload(),
    {
        (self.id, self.meta, self.fire_and_forget, self.endpoint, self.payload)
    }

    /// Creates a builder to construct more complex requests.  The request
    /// starts out as `new` makes it, with the wire's null as its payload.
    pub fn build(endpoint: String, null: V) -> (b: RequestBuilder<V>)
        ensures
            b.spec_request() matches Some(r) && r.spec_endpoint() == endpoint@
                && !r.spec_fire_and_forget() && r.spec_meta() == Map::<String, V>::empty()
                && r.spec_payload() == null,
    {
        RequestBuilder { request: Some(Request::new(endpoint, null)) }
    }

    /// Returns the ID of the request.
    pub fn id(&self) -> (id: &Uuid)
        ensures
            *id == self.spec_id(),
    {
        &self.id
    }

    /// Returns the meta object of the request.
    pub fn meta(&self) -> (m: &BTreeMap<String, V>)
        ensures
            m@ == self.spec_meta(),
    {
        &self.meta
    }

    /// Returns the endpoint targeted by the request.
    pub fn endpoint(&self) -> (e: &str)
        ensures
            e@ == self.spec_endpoint(),
    {
        self.endpoint.as_str()
    }

    /// Borrows the payload of the request.
    pub fn payload(&self) -> (p: &V)
        ensures
            *p == self.spec_payload(),
    {
        &self.payload
    }

    /// Returns `true` if this is a fire and forget request.
    pub fn fire_and_forget(&self) -> (f: bool)
        ensures
            f == self.spec_fire_and_forget(),
    {
        self.fire_and_forget
    }
}

impl<V> RequestBuilder<V> {
    /// The request under construction; none once it was built.
    pub closed spec fn spec_request(&self) -> Option<Request<V>> {
        self.request
    }

    /// Overrides the default request ID.
    pub fn request_id(&mut self, id: Uuid)
        requires
            old(self).spec_request() is Some,
        ensures
            final(self).spec_request() matches Some(r) && r.spec_id() == id && r.spec_meta()
                == old(self).spec_request().unwrap().spec_meta() && r.spec_fire_and_forget()
                == old(self).spec_request().unwrap().spec_fire_and_forget() && r.spec_endpoint()
                == old(self).spec_request().unwrap().spec_endpoint() && r.spec_payload() == old(
                self,
            ).spec_request().unwrap().spec_payload(),
    {
        match self.request.take() {
            Some(r) => {
                self.request = Some(
                    Request {
                        id,
                        meta: r.meta,
                        fire_and_forget: r.fire_and_forget,
                        endpoint: r.endpoint,
                        payload: r.payload,
                    },
                );
            },
            None => {},
        }
    }

    /// Sets the payload of the request.
    pub fn raw_payload(&mut self, value: V)
        requires
            old(self).spec_request() is Some,
        ensures
            final(self).spec_request() matches Some(r) && r.spec_payload() == value && r.spec_id()
                == old(self).spec_request().unwrap().spec_id() && r.spec_meta() == old(
                self,
            ).spec_request().unwrap().spec_meta() && r.spec_fire_and_forget() == old(
                self,
            ).spec_request().unwrap().spec_fire_and_forget() && r.spec_endpoint() == old(
                self,
            ).spec_request().unwrap().spec_endpoint(),
    {
        match self.request.take() {
            Some(r) => {
                self.request = Some(
                    Request {
                        id: r.id,
                        meta: r.meta,
                        fire_and_forget: r.fire_and_forget,
                        endpoint: r.endpoint,
                        payload: value,
                    },
                );
            },
            None => {},
        }
    }

    /// Can be used to mark the request as fire and forget.
    pub fn fire_and_forget(&mut self, yes: bool)
        requires
            old(self).spec_request() is Some,
        ensures
            final(self).spec_request() matches Some(r) && r.spec_fire_and_forget() == yes
                && r.spec_id() == old(self).spec_request().unwrap().spec_id() && r.spec_meta()
                == old(self).spec_request().unwrap().spec_meta() && r.spec_endpoint() == old(
                self,
            ).spec_request().unwrap().spec_endpoint() && r.spec_payload() == old(
                self,
            ).spec_request().unwrap().spec_payload(),
    {
        match self.request.take() {
            Some(r) => {
                self.request = Some(
                    Request {
                        id: r.id,
                        meta: r.meta,
                        fire_and_forget: yes,
                        endpoint: r.endpoint,
                        payload: r.payload,
                    },
                );
            },
            None => {},
        }
    }

    /// Inserts a key/value pair into the meta dictionary.
    pub fn meta(&mut self, key: String, value: V)
        requires
            old(self).spec_request() is Some,
        ensures
            final(self).spec_request() matches Some(r) && r.spec_id() == old(
                self,
            ).spec_request().unwrap().spec_id() && r.spec_fire_and_forget() == old(
                self,
            ).spec_request().unwrap().spec_fire_and_forget() && r.spec_endpoint() == old(
                self,
            ).spec_request().unwrap().spec_endpoint() && r.spec_payload() == old(
                self,
            ).spec_request().unwrap().spec_payload() && (obeys_cmp::<String>() ==> r.spec_meta()
                == old(self).spec_request().unwrap().spec_meta().insert(key, value)),
    {
        match self.request.take() {
            Some(r) => {
                let mut meta = r.meta;
                meta.insert(key, value);
                self.request = Some(
                    Request {
                        id: r.id,
                        meta,
                        fire_and_forget: r.fire_and_forget,
                        endpoint: r.endpoint,
                        payload: r.payload,
                    },
                );
            },
            None => {},
        }
    }

    /// Creates a request out of the builder, which is then done and takes
    /// no further call.
    pub fn build(&mut self) -> (r: Request<V>)
        requires
            old(self).spec_request() is Some,
        ensures
            Some(r) == old(self).spec_request(),
            final(self).spec_request() is None,
    {
        match self.request.take() {
            Some(r) => r,
            None => unreached(),
        }
    }
}

impl<V> Response<V> {
    /// The identifier of the request that the response belongs to.
    pub closed spec fn spec_request_id(&self) -> Uuid {
        self.request_id
    }

    /// The meta dictionary of the response.
    pub closed spec fn spec_meta(&self) -> Map<String, V> {
        self.meta@
    }

    /// The payload of the response, or the error in its place.
    pub closed spec fn spec_payload(&self) -> Result<V, Error<V>> {
        self.payload
    }

    /// Creates a new response.
    pub fn new(request_id: Uuid, meta: BTreeMap<String, V>, payload: Result<V, Error<V>>) -> (r:
        Response<V>)
        ensures
            r.spec_request_id() == request_id,
            r.spec_meta() == meta@,
            r.spec_payload() == payload,
    {
        Response { request_id, meta, payload }
    }

    /// Takes the response apart.
    pub fn into_parts(self) -> (parts: (Uuid, BTreeMap<String, V>, Result<V, Error<V>>))
        ensures
            parts.0 == self.spec_request_id(),
            parts.1@ == self.spec_meta(),
            parts.2 == self.spec_payload(),
    {
        (self.request_id, self.meta, self.payload)
    }

    /// Create a response builder for more complex responses.  The response
    /// starts out without meta information, with the wire's null as its
    /// payload.
    pub fn builder(request_id: Uuid, null: V) -> (b: ResponseBuilder<V>)
        ensures
            b.spec_response() matches Some(r) && r.spec_request_id() == request_id && r.spec_meta()
                == Map::<String, V>::empty() && r.spec_payload() == Ok::<V, Error<V>>(null),
    {
        ResponseBuilder { response: Some(Response::new(request_id, BTreeMap::new(), Ok(null))) }
    }

    /// Returns the ID of the request.
    pub fn request_id(&self) -> (id: &Uuid)
        ensures
            *id == self.spec_request_id(),
    {
        &self.request_id
    }

    /// Returns the meta dictionary.
    pub fn meta(&self) -> (m: &BTreeMap<String, V>)
        ensures
            m@ == self.spec_meta(),
    {
        &self.meta
    }

    /// Consumes the response and returns the payload.  If the response
    /// carries an error it's returned here.
    pub fn into_payload(self) -> (p: Result<V, Error<V>>)
        ensures
            p == self.spec_payload(),
    {
        self.payload
    }

    /// Peeks at the raw payload.
    pub fn payload_ref(&self) -> (p: Option<&V>)
        ensures
            p is Some <==> self.spec_payload() is Ok,
            p matches Some(v) ==> self.spec_payload() == Ok::<V, Error<V>>(*v),
    {
        match &self.payload {
            Ok(v) => Some(v),
            Err(_) => None,
        }
    }

    /// Peeks at the error.
    pub fn error_ref(&self) -> (e: Option<&Error<V>>)
        ensures
            e is Some <==> self.spec_payload() is Err,
            e matches Some(err) ==> self.spec_payload() == Err::<V, Error<V>>(*err),
    {
        match &self.payload {
            Ok(_) => None,
            Err(e) => Some(e),
        }
    }
}

impl<V> ResponseBuilder<V> {
    /// The response under construction; none once it was built.
    pub closed spec fn spec_response(&self) -> Option<Response<V>> {
        self.response
    }

    /// Sets the payload of the response.
    pub fn raw_payload(&mut self, value: V)
        requires
            old(self).spec_response() is Some,
        ensures
            final(self).spec_response() matches Some(r) && r.spec_payload() == Ok::<V, Error<V>>(
                value,
            ) && r.spec_request_id() == old(self).spec_response().unwrap().spec_request_id()
                && r.spec_meta() == old(self).spec_response().unwrap().spec_meta(),
    {
        match self.response.take() {
            Some(r) => {
                self.response = Some(
                    Response { request_id: r.request_id, meta: r.meta, payload: Ok(value) },
                );
            },
            None => {},
        }
    }

    /// Sets an error response.
    pub fn error(&mut self, value: Error<V>)
        requires
            old(self).spec_response() is Some,
        ensures
            final(self).spec_response() matches Some(r) && r.spec_payload() == Err::<V, Error<V>>(
                value,
            ) && r.spec_request_id() == old(self).spec_response().unwrap().spec_request_id()
                && r.spec_meta() == old(self).spec_response().unwrap().spec_meta(),
    {
        match self.response.take() {
            Some(r) => {
                self.response = Some(
                    Response { request_id: r.request_id, meta: r.meta, payload: Err(value) },
                );
            },
            None => {},
        }
    }

    /// Inserts a key/value pair into the meta dictionary.
    pub fn meta(&mut self, key: String, value: V)
        requires
            old(self).spec_response() is Some,
        ensures
            final(self).spec_response() matches Some(r) && r.spec_request_id() == old(
                self,
            ).spec_response().unwrap().spec_request_id() && r.spec_payload() == old(
                self,
            ).spec_response().unwrap().spec_payload() && (obeys_cmp::<String>() ==> r.spec_meta()
                == old(self).spec_response().unwrap().spec_meta().insert(key, value)),
    {
        match self.response.take() {
            Some(r) => {
                let mut meta = r.meta;
                meta.insert(key, value);
                self.response = Some(
                    Response { request_id: r.request_id, meta, payload: r.payload },
                );
            },
            None => {},
        }
    }

    /// Creates a response out of the builder, which is then done and takes
    /// no further call.
    pub fn build(&mut self) -> (r: Response<V>)
        requires
            old(self).spec_response() is Some,
        ensures
            Some(r) == old(self).spec_response(),
            final(self).spec_response() is None,
    {
        match self.response.take() {
            Some(r) => r,
            None => unreached(),
        }
    }
}

} // verus!
