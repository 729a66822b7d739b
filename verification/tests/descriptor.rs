use grpc_ease::descriptor::{
    decode, decode_all, FileDescriptor, MethodDescriptor, ServiceDescriptor,
};
use grpc_ease::error::ReflectionError;
use prost::Message;
use prost_types::{
    DescriptorProto, FileDescriptorProto, MethodDescriptorProto, ServiceDescriptorProto,
};

fn text(s: &str) -> Option<String> {
    Some(s.to_string())
}

fn greeter_proto() -> FileDescriptorProto {
    FileDescriptorProto {
        name: text("greeter.proto"),
        package: text("pkg"),
        message_type: vec![
            DescriptorProto { name: text("HelloRequest"), ..Default::default() },
            DescriptorProto { name: text("HelloReply"), ..Default::default() },
        ],
        service: vec![ServiceDescriptorProto {
            name: text("Greeter"),
            method: vec![MethodDescriptorProto {
                name: text("SayHello"),
                input_type: text("pkg.HelloRequest"),
                output_type: text("pkg.HelloReply"),
                ..Default::default()
            }],
            options: None,
        }],
        ..Default::default()
    }
}

fn greeter_descriptor() -> FileDescriptor {
    FileDescriptor {
        package: text("pkg"),
        services: vec![ServiceDescriptor {
            name: text("Greeter"),
            methods: vec![MethodDescriptor {
                name: text("SayHello"),
                input_type: text("pkg.HelloRequest"),
                output_type: text("pkg.HelloReply"),
            }],
        }],
    }
}

#[test]
fn decode_reads_package_services_and_methods() {
    let payload = greeter_proto().encode_to_vec();
    assert_eq!(decode(&payload), Ok(greeter_descriptor()));
}

#[test]
fn decode_then_encode_keeps_the_content() {
    let payload = greeter_proto().encode_to_vec();
    let decoded = decode(&payload).unwrap();
    let again = FileDescriptorProto {
        package: decoded.package.clone(),
        service: decoded
            .services
            .iter()
            .map(|service| ServiceDescriptorProto {
                name: service.name.clone(),
                method: service
                    .methods
                    .iter()
                    .map(|method| MethodDescriptorProto {
                        name: method.name.clone(),
                        input_type: method.input_type.clone(),
                        output_type: method.output_type.clone(),
                        ..Default::default()
                    })
                    .collect(),
                options: None,
            })
            .collect(),
        ..Default::default()
    };
    assert_eq!(decode(&again.encode_to_vec()), Ok(decoded));
}

#[test]
fn decode_keeps_the_order_of_services_and_methods() {
    let method = |name: &str| MethodDescriptorProto { name: text(name), ..Default::default() };
    let proto = FileDescriptorProto {
        package: text("a.b"),
        service: vec![
            ServiceDescriptorProto {
                name: text("Second"),
                method: vec![method("z"), method("a"), method("m")],
                options: None,
            },
            ServiceDescriptorProto { name: text("First"), method: vec![], options: None },
        ],
        ..Default::default()
    };
    let decoded = decode(&proto.encode_to_vec()).unwrap();
    assert_eq!(decoded.package, text("a.b"));
    assert_eq!(decoded.services.len(), 2);
    assert_eq!(decoded.services[0].name, text("Second"));
    assert_eq!(decoded.services[1].name, text("First"));
    let names: Vec<Option<String>> =
        decoded.services[0].methods.iter().map(|m| m.name.clone()).collect();
    assert_eq!(names, vec![text("z"), text("a"), text("m")]);
    assert!(decoded.services[1].methods.is_empty());
}

#[test]
fn decode_keeps_absent_fields_absent() {
    let proto = FileDescriptorProto {
        service: vec![ServiceDescriptorProto {
            name: None,
            method: vec![MethodDescriptorProto {
                name: text("Only"),
                input_type: None,
                output_type: text(""),
                ..Default::default()
            }],
            options: None,
        }],
        ..Default::default()
    };
    let expected = FileDescriptor {
        package: None,
        services: vec![ServiceDescriptor {
            name: None,
            methods: vec![MethodDescriptor {
                name: text("Only"),
                input_type: None,
                output_type: text(""),
            }],
        }],
    };
    assert_eq!(decode(&proto.encode_to_vec()), Ok(expected));
}

#[test]
fn decode_of_no_bytes_is_an_empty_file() {
    assert_eq!(decode(&[]), Ok(FileDescriptor { package: None, services: vec![] }));
}

#[test]
fn decode_rejects_a_truncated_payload() {
    let mut payload = greeter_proto().encode_to_vec();
    payload.truncate(payload.len() - 3);
    assert_eq!(decode(&payload), Err(ReflectionError::Decode));
}

#[test]
fn decode_rejects_an_overlong_length() {
    // field 2 (package), length-delimited, announcing 5 bytes and holding 1
    assert_eq!(decode(&[0x12, 0x05, 0x61]), Err(ReflectionError::Decode));
}

#[test]
fn decode_rejects_an_unknown_wire_type() {
    // field 1 with wire type 7, which does not exist
    assert_eq!(decode(&[0x0f]), Err(ReflectionError::Decode));
}

#[test]
fn decode_rejects_text_that_is_not_utf8() {
    assert_eq!(decode(&[0x12, 0x02, 0xff, 0xfe]), Err(ReflectionError::Decode));
}

#[test]
fn decode_all_keeps_the_order_of_the_payloads() {
    let first = greeter_proto().encode_to_vec();
    let second = FileDescriptorProto { package: text("other"), ..Default::default() }
        .encode_to_vec();
    let decoded = decode_all(&vec![first, second, vec![]]).unwrap();
    assert_eq!(
        decoded,
        vec![
            greeter_descriptor(),
            FileDescriptor { package: text("other"), services: vec![] },
            FileDescriptor { package: None, services: vec![] },
        ]
    );
}

#[test]
fn decode_all_of_no_payloads_is_empty() {
    assert_eq!(decode_all(&vec![]), Ok(vec![]));
}

#[test]
fn decode_all_fails_if_any_payload_is_malformed() {
    let good = greeter_proto().encode_to_vec();
    assert_eq!(
        decode_all(&vec![good.clone(), vec![0x12, 0x05, 0x61], good]),
        Err(ReflectionError::Decode)
    );
}
