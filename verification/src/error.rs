//! The errors of a discovery, and what each one carries.

use vstd::prelude::*;

verus! {

/// The two answers that this client asks a server for.
#[derive(Debug, Clone, Copy, PartialEq, Eq)]
pub enum ResponseKind {
    /// The list of the names of the services.
    ListServices,
    /// The encoded file descriptors that define one symbol.
    FileDescriptor,
}

/// A field that a descriptor must hold and does not, with what is known of
/// the entity that lacks it.
#[derive(Debug, Clone, PartialEq, Eq)]
pub enum MissingField {
    /// A method without a name, in the service of the given name.
    MethodName { service: Option<String> },
    /// A method without a request type.
    RequestType { method: String, service: Option<String> },
    /// A method without a response type.
    ResponseType { method: String, service: Option<String> },
    /// A file without a package, that defines the service of the given name.
    Package { service: Option<String> },
    /// A service without a name, in the given package.
    ServiceName { package: String },
}

/// Why a discovery failed. Every failure ends the call that met it.
#[derive(Debug, Clone, PartialEq, Eq)]
pub enum ReflectionError {
    /// The stream could not be opened, or failed before it gave a message.
    /// The text is the transport's own.
    Transport(String),
    /// The inbound stream ended without a message.
    NoResponse,
    /// The server answered with another kind of response than the request
    /// asks for.
    UnexpectedResponseVariant { expected: ResponseKind },
    /// A descriptor payload is not a well-formed encoded file descriptor.
    Decode,
    /// A decoded descriptor lacks a field that the catalog needs.
    MissingField(MissingField),
}

/// What a [`MissingField`] stands for.
pub enum MissingFieldView {
    MethodName { service: Option<Seq<char>> },
    RequestType { method: Seq<char>, service: Option<Seq<char>> },
    ResponseType { method: Seq<char>, service: Option<Seq<char>> },
    Package { service: Option<Seq<char>> },
    ServiceName { package: Seq<char> },
}

/// What a [`ReflectionError`] stands for.
pub enum ReflectionErrorView {
    Transport(Seq<char>),
    NoResponse,
    UnexpectedResponseVariant { expected: ResponseKind },
    Decode,
    MissingField(MissingFieldView),
}

impl View for MissingField {
    type V = MissingFieldView;

    open spec fn view(&self) -> MissingFieldView {
        match *self {
            MissingField::MethodName { service } => MissingFieldView::MethodName {
                service: service.deep_view(),
            },
            MissingField::RequestType { method, service } => MissingFieldView::RequestType {
                method: method@,
                service: service.deep_view(),
            },
            MissingField::ResponseType { method, service } => MissingFieldView::ResponseType {
                method: method@,
                service: service.deep_view(),
            },
            MissingField::Package { service } => MissingFieldView::Package {
                service: service.deep_view(),
            },
            MissingField::ServiceName { package } => MissingFieldView::ServiceName {
                package: package@,
            },
        }
    }
}

impl View for ReflectionError {
    type V = ReflectionErrorView;

    open spec fn view(&self) -> ReflectionErrorView {
        match *self {
            ReflectionError::Transport(text) => ReflectionErrorView::Transport(text@),
            ReflectionError::NoResponse => ReflectionErrorView::NoResponse,
            ReflectionError::UnexpectedResponseVariant { expected } =>
                ReflectionErrorView::UnexpectedResponseVariant { expected },
            ReflectionError::Decode => ReflectionErrorView::Decode,
            ReflectionError::MissingField(missing) => ReflectionErrorView::MissingField(missing@),
        }
    }
}

/// What the outcome of a step that may fail stands for: what its value
/// stands for, or what its error stands for.
pub open spec fn outcome_view<T: DeepView>(outcome: Result<T, ReflectionError>) -> Result<
    T::V,
    ReflectionErrorView,
> {
    match outcome {
        Ok(value) => Ok(value.deep_view()),
        Err(error) => Err(error@),
    }
}

} // verus!
