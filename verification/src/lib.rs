//! Client-side core of the gRPC server reflection protocol: the catalog of
//! services and methods that a server exposes, and the rules that build it
//! from the server's answers.

pub mod catalog;
pub mod collect;
pub mod command;
pub mod descriptor;
pub mod error;
pub mod protocol;
pub mod reflection;
pub mod service_info;
