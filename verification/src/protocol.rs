//! The messages of the reflection protocol, and what one exchange of them
//! may come to.
//!
//! An exchange is one request sent as the whole outbound stream of a fresh
//! call, and the first message of the inbound stream read back. Requests and
//! responses are told apart by their tag; nothing else correlates them.

use crate::error::{outcome_view, ReflectionError, ReflectionErrorView, ResponseKind};
use vstd::prelude::*;

verus! {

/// What a request asks for.
#[derive(Debug, Clone, PartialEq, Eq)]
pub enum RequestMessage {
    /// The names of all the services. The text is not read by servers.
    ListServices(String),
    /// The files that declare the symbol of this fully-qualified name.
    FileContainingSymbol(String),
}

/// One request, as it goes on the wire.
#[derive(Debug, Clone, PartialEq, Eq)]
pub struct Request {
    pub host: String,
    pub message: RequestMessage,
}

/// One response, as far as this client reads responses.
#[derive(Debug, Clone, PartialEq, Eq)]
pub enum Response {
    /// The full names of the services, in the server's order.
    ListServices(Vec<String>),
    /// Encoded file descriptors, in the server's order.
    FileDescriptor(Vec<Vec<u8>>),
    /// A response with any other tag, or with none.
    Other,
}

/// How one exchange ended.
#[derive(Debug, Clone, PartialEq, Eq)]
pub enum Exchange {
    /// The inbound stream gave this message first.
    Answered(Response),
    /// The inbound stream ended before it gave a message.
    Ended,
    /// The call could not be made, or the stream failed; with the
    /// transport's account of it.
    Failed(String),
}

/// What a [`RequestMessage`] stands for.
pub enum RequestMessageView {
    ListServices(Seq<char>),
    FileContainingSymbol(Seq<char>),
}

/// What a [`Request`] stands for.
pub struct RequestView {
    pub host: Seq<char>,
    pub message: RequestMessageView,
}

/// What a [`Response`] stands for.
pub enum ResponseView {
    ListServices(Seq<Seq<char>>),
    FileDescriptor(Seq<Seq<u8>>),
    Other,
}

/// What an [`Exchange`] stands for.
pub enum ExchangeView {
    Answered(ResponseView),
    Ended,
    Failed(Seq<char>),
}

impl View for RequestMessage {
    type V = RequestMessageView;

    open spec fn view(&self) -> RequestMessageView {
        match *self {
            RequestMessage::ListServices(text) => RequestMessageView::ListServices(text@),
            RequestMessage::FileContainingSymbol(symbol) =>
                RequestMessageView::FileContainingSymbol(symbol@),
        }
    }
}

impl View for Request {
    type V = RequestView;

    open spec fn view(&self) -> RequestView {
        RequestView { host: self.host@, message: self.message@ }
    }
}

impl View for Response {
    type V = ResponseView;

    open spec fn view(&self) -> ResponseView {
        match *self {
            Response::ListServices(names) => ResponseView::ListServices(names.deep_view()),
            Response::FileDescriptor(payloads) => ResponseView::FileDescriptor(
                payloads.deep_view(),
            ),
            Response::Other => ResponseView::Other,
        }
    }
}

impl DeepView for Response {
    type V = ResponseView;

    open spec fn deep_view(&self) -> ResponseView {
        self@
    }
}

impl View for Exchange {
    type V = ExchangeView;

    open spec fn view(&self) -> ExchangeView {
        match *self {
            Exchange::Answered(response) => ExchangeView::Answered(response@),
            Exchange::Ended => ExchangeView::Ended,
            Exchange::Failed(text) => ExchangeView::Failed(text@),
        }
    }
}

/// The request for the names of the services: no host, no text.
pub open spec fn list_services_request() -> RequestView {
    RequestView {
        host: Seq::empty(),
        message: RequestMessageView::ListServices(Seq::empty()),
    }
}

/// The request for the files that declare `symbol`: no host.
pub open spec fn symbol_request(symbol: Seq<char>) -> RequestView {
    RequestView { host: Seq::empty(), message: RequestMessageView::FileContainingSymbol(symbol) }
}

/// The response that an exchange gave, or why it gave none.
pub open spec fn answer(exchange: ExchangeView) -> Result<ResponseView, ReflectionErrorView> {
    match exchange {
        ExchangeView::Answered(response) => Ok(response),
        ExchangeView::Ended => Err(ReflectionErrorView::NoResponse),
        ExchangeView::Failed(text) => Err(ReflectionErrorView::Transport(text)),
    }
}

/// The names in a response to a request for the services.
pub open spec fn listed_names(response: ResponseView) -> Result<
    Seq<Seq<char>>,
    ReflectionErrorView,
> {
    match response {
        ResponseView::ListServices(names) => Ok(names),
        _ => Err(
            ReflectionErrorView::UnexpectedResponseVariant { expected: ResponseKind::ListServices },
        ),
    }
}

/// The payloads in a response to a request for the files of a symbol.
pub open spec fn descriptor_payloads(response: ResponseView) -> Result<
    Seq<Seq<u8>>,
    ReflectionErrorView,
> {
    match response {
        ResponseView::FileDescriptor(payloads) => Ok(payloads),
        _ => Err(
            ReflectionErrorView::UnexpectedResponseVariant {
                expected: ResponseKind::FileDescriptor,
            },
        ),
    }
}

impl Request {
    /// The request that opens a discovery.
    pub fn list_services() -> (request: Request)
        ensures
            request@ == list_services_request(),
    {
        Request { host: String::new(), message: RequestMessage::ListServices(String::new()) }
    }

    /// The request for the files that declare `symbol`.
    pub fn file_containing_symbol(symbol: String) -> (request: Request)
        ensures
            request@ == symbol_request(symbol@),
    {
        Request { host: String::new(), message: RequestMessage::FileContainingSymbol(symbol) }
    }
}

/// The response of an exchange: the message that came, `NoResponse` where
/// the stream ended without one, the transport's failure otherwise.
pub fn response_of(exchange: Exchange) -> (got: Result<Response, ReflectionError>)
    ensures
        outcome_view(got) == answer(exchange@),
{
    match exchange {
        Exchange::Answered(response) => Ok(response),
        Exchange::Ended => Err(ReflectionError::NoResponse),
        Exchange::Failed(text) => Err(ReflectionError::Transport(text)),
    }
}

/// The names of the services in a response; any response but a list of
/// services is a violation of the protocol.
pub fn service_names(response: Response) -> (got: Result<Vec<String>, ReflectionError>)
    ensures
        outcome_view(got) == listed_names(response@),
{
    match response {
        Response::ListServices(names) => Ok(names),
        _ => Err(
            ReflectionError::UnexpectedResponseVariant { expected: ResponseKind::ListServices },
        ),
    }
}

/// The encoded descriptors in a response; any response but one that holds
/// file descriptors is a violation of the protocol.
pub fn file_descriptor_payloads(response: Response) -> (got: Result<
    Vec<Vec<u8>>,
    ReflectionError,
>)
    ensures
        outcome_view(got) == descriptor_payloads(response@),
{
    match response {
        Response::FileDescriptor(payloads) => Ok(payloads),
        _ => Err(
            ReflectionError::UnexpectedResponseVariant { expected: ResponseKind::FileDescriptor },
        ),
    }
}

} // verus!
