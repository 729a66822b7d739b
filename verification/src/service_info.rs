//! The catalog model: services and their methods, as callers see them.

use vstd::prelude::*;

verus! {

/// Represents information about an RPC method.
#[derive(Debug, Clone, PartialEq, Eq)]
pub struct MethodInfo {
    /// The name of the RPC method.
    pub name: String,
    /// The fully-qualified name of the request message type.
    pub request: String,
    /// The fully-qualified name of the response message type.
    pub response: String,
}

/// Represents information about a gRPC service, including its package name,
/// service name, and a list of RPC methods.
#[derive(Debug, Clone, PartialEq, Eq)]
pub struct ServiceInfo {
    /// The package name of the gRPC service.
    pub package: String,
    /// The name of the gRPC service.
    pub service: String,
    /// The RPC methods of the service, in the order of the descriptor.
    pub methods: Vec<MethodInfo>,
}

/// What a [`MethodInfo`] stands for: three strings.
pub struct MethodInfoView {
    pub name: Seq<char>,
    pub request: Seq<char>,
    pub response: Seq<char>,
}

/// What a [`ServiceInfo`] stands for: two strings and the methods in order.
pub struct ServiceInfoView {
    pub package: Seq<char>,
    pub service: Seq<char>,
    pub methods: Seq<MethodInfoView>,
}

impl View for MethodInfo {
    type V = MethodInfoView;

    open spec fn view(&self) -> MethodInfoView {
        MethodInfoView { name: self.name@, request: self.request@, response: self.response@ }
    }
}

impl DeepView for MethodInfo {
    type V = MethodInfoView;

    open spec fn deep_view(&self) -> MethodInfoView {
        self@
    }
}

impl View for ServiceInfo {
    type V = ServiceInfoView;

    open spec fn view(&self) -> ServiceInfoView {
        ServiceInfoView {
            package: self.package@,
            service: self.service@,
            methods: self.methods.deep_view(),
        }
    }
}

impl DeepView for ServiceInfo {
    type V = ServiceInfoView;

    open spec fn deep_view(&self) -> ServiceInfoView {
        self@
    }
}

} // verus!
