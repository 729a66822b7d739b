//! File descriptors: the schema of one source file, as far as the catalog
//! reads it, and the decoder that yields them from encoded payloads.

use crate::collect::{collect, lemma_collect_fails, lemma_collect_next};
use crate::error::{outcome_view, ReflectionError, ReflectionErrorView};
use vstd::prelude::*;

verus! {

/// One method of a service definition. Every field is optional on the wire.
#[derive(Debug, Clone, PartialEq, Eq)]
pub struct MethodDescriptor {
    pub name: Option<String>,
    /// The fully-qualified name of the request message type.
    pub input_type: Option<String>,
    /// The fully-qualified name of the response message type.
    pub output_type: Option<String>,
}

/// One service definition, with its methods in the order of the source file.
#[derive(Debug, Clone, PartialEq, Eq)]
pub struct ServiceDescriptor {
    pub name: Option<String>,
    pub methods: Vec<MethodDescriptor>,
}

/// The decoded description of one source file: its package and the services
/// that it defines, in order.
#[derive(Debug, Clone, PartialEq, Eq)]
pub struct FileDescriptor {
    pub package: Option<String>,
    pub services: Vec<ServiceDescriptor>,
}

/// What a [`MethodDescriptor`] stands for.
pub struct MethodDescriptorView {
    pub name: Option<Seq<char>>,
    pub input_type: Option<Seq<char>>,
    pub output_type: Option<Seq<char>>,
}

/// What a [`ServiceDescriptor`] stands for.
pub struct ServiceDescriptorView {
    pub name: Option<Seq<char>>,
    pub methods: Seq<MethodDescriptorView>,
}

/// What a [`FileDescriptor`] stands for.
pub struct FileDescriptorView {
    pub package: Option<Seq<char>>,
    pub services: Seq<ServiceDescriptorView>,
}

impl View for MethodDescriptor {
    type V = MethodDescriptorView;

    open spec fn view(&self) -> MethodDescriptorView {
        MethodDescriptorView {
            name: self.name.deep_view(),
            input_type: self.input_type.deep_view(),
            output_type: self.output_type.deep_view(),
        }
    }
}

impl DeepView for MethodDescriptor {
    type V = MethodDescriptorView;

    open spec fn deep_view(&self) -> MethodDescriptorView {
        self@
    }
}

impl View for ServiceDescriptor {
    type V = ServiceDescriptorView;

    open spec fn view(&self) -> ServiceDescriptorView {
        ServiceDescriptorView { name: self.name.deep_view(), methods: self.methods.deep_view() }
    }
}

impl DeepView for ServiceDescriptor {
    type V = ServiceDescriptorView;

    open spec fn deep_view(&self) -> ServiceDescriptorView {
        self@
    }
}

impl View for FileDescriptor {
    type V = FileDescriptorView;

    open spec fn view(&self) -> FileDescriptorView {
        FileDescriptorView {
            package: self.package.deep_view(),
            services: self.services.deep_view(),
        }
    }
}

impl DeepView for FileDescriptor {
    type V = FileDescriptorView;

    open spec fn deep_view(&self) -> FileDescriptorView {
        self@
    }
}

/// `prost::DecodeError`, the decoder's account of a malformed payload.
/// Nothing is read from it.
#[verifier::external_type_specification]
#[verifier::external_body]
pub struct ExDecodeError(prost::DecodeError);

/// The file descriptor that `payload` encodes in the Protocol Buffers wire
/// format, or `None` where `payload` is not the encoding of one.
pub uninterp spec fn parsed_descriptor(payload: Seq<u8>) -> Option<FileDescriptorView>;

/// Runs `prost::Message::decode` for `prost_types::FileDescriptorProto` on
/// `payload` and copies the package and the services, with their methods,
/// out of the message. The contract claims that the outcome depends on the
/// bytes alone: `parsed_descriptor` of them is the descriptor that comes
/// back, and is `None` exactly when the decoder reports an error.
#[verifier::external_body]
fn parse_descriptor(payload: &[u8]) -> (parsed: Result<FileDescriptor, prost::DecodeError>)
    ensures
        match parsed {
            Ok(descriptor) => parsed_descriptor(payload@) == Some(descriptor@),
            Err(_) => parsed_descriptor(payload@) is None,
        },
{
    let file: prost_types::FileDescriptorProto = prost::Message::decode(payload)?;
    Ok(FileDescriptor {
        package: file.package,
        services: file.service.into_iter().map(|service| ServiceDescriptor {
            name: service.name,
            methods: service.method.into_iter().map(|method| MethodDescriptor {
                name: method.name,
                input_type: method.input_type,
                output_type: method.output_type,
            }).collect(),
        }).collect(),
    })
}

/// What decoding one payload comes to: the descriptor that it encodes, or
/// the error for a payload that encodes none.
pub open spec fn decoded(payload: Seq<u8>) -> Result<FileDescriptorView, ReflectionErrorView> {
    match parsed_descriptor(payload) {
        Some(descriptor) => Ok(descriptor),
        None => Err(ReflectionErrorView::Decode),
    }
}

/// Decodes one encoded file descriptor. Fails with
/// [`ReflectionError::Decode`] exactly on the payloads that are truncated or
/// otherwise not well formed; checks nothing about which fields are present.
pub fn decode(payload: &[u8]) -> (outcome: Result<FileDescriptor, ReflectionError>)
    ensures
        outcome_view(outcome) == decoded(payload@),
{
    match parse_descriptor(payload) {
        Ok(descriptor) => Ok(descriptor),
        Err(_) => Err(ReflectionError::Decode),
    }
}

/// [`decoded`], as a step.
pub open spec fn decode_step() -> spec_fn(Seq<u8>) -> Result<
    FileDescriptorView,
    ReflectionErrorView,
> {
    |payload: Seq<u8>| decoded(payload)
}

/// What decoding payloads in order comes to: a descriptor for each, in the
/// same order, unless one of them is malformed.
pub open spec fn decoded_all(payloads: Seq<Seq<u8>>) -> Result<
    Seq<FileDescriptorView>,
    ReflectionErrorView,
> {
    collect(payloads, decode_step())
}

/// Decodes every payload, in order. Fails with [`ReflectionError::Decode`]
/// if any payload is malformed.
pub fn decode_all(payloads: &Vec<Vec<u8>>) -> (all: Result<Vec<FileDescriptor>, ReflectionError>)
    ensures
        outcome_view(all) == decoded_all(payloads.deep_view()),
{
    let ghost items = payloads.deep_view();
    let mut descriptors: Vec<FileDescriptor> = Vec::new();
    let mut done: usize = 0;
    assert(descriptors.deep_view() =~= Seq::empty());
    while done < payloads.len()
        invariant
            done <= payloads.len(),
            items == payloads.deep_view(),
            collect(items.take(done as int), decode_step()) == Ok::<
                Seq<FileDescriptorView>,
                ReflectionErrorView,
            >(descriptors.deep_view()),
        decreases payloads.len() - done,
    {
        proof {
            lemma_collect_next(items, decode_step(), done as int);
            assert(items[done as int] =~= payloads[done as int]@);
        }
        match decode(payloads[done].as_slice()) {
            Ok(descriptor) => {
                let ghost before = descriptors.deep_view();
                descriptors.push(descriptor);
                assert(descriptors.deep_view() =~= before.push(descriptor@));
            },
            Err(error) => {
                proof {
                    lemma_collect_fails(items, decode_step(), done + 1);
                }
                return Err(error);
            },
        }
        done += 1;
    }
    assert(items.take(done as int) =~= items);
    Ok(descriptors)
}

} // verus!
