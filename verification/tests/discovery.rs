use grpc_ease::error::{MissingField, ReflectionError, ResponseKind};
use grpc_ease::protocol::{
    file_descriptor_payloads, response_of, service_names, Exchange, Request, RequestMessage,
    Response,
};
use grpc_ease::reflection::{
    file_descriptors, file_services, listed_services, Discovery, Progress,
};
use grpc_ease::service_info::{MethodInfo, ServiceInfo};
use prost::Message;
use prost_types::{FileDescriptorProto, MethodDescriptorProto, ServiceDescriptorProto};

fn text(s: &str) -> Option<String> {
    Some(s.to_string())
}

fn file(package: &str, services: Vec<ServiceDescriptorProto>) -> Vec<u8> {
    FileDescriptorProto { package: text(package), service: services, ..Default::default() }
        .encode_to_vec()
}

fn service(name: &str, methods: Vec<MethodDescriptorProto>) -> ServiceDescriptorProto {
    ServiceDescriptorProto { name: text(name), method: methods, options: None }
}

fn method(name: &str, input: Option<&str>, output: Option<&str>) -> MethodDescriptorProto {
    MethodDescriptorProto {
        name: text(name),
        input_type: input.map(|s| s.to_string()),
        output_type: output.map(|s| s.to_string()),
        ..Default::default()
    }
}

fn names(list: &[&str]) -> Exchange {
    Exchange::Answered(Response::ListServices(list.iter().map(|s| s.to_string()).collect()))
}

fn files(payloads: Vec<Vec<u8>>) -> Exchange {
    Exchange::Answered(Response::FileDescriptor(payloads))
}

fn bare(package: &str, name: &str) -> ServiceInfo {
    ServiceInfo { package: package.to_string(), service: name.to_string(), methods: vec![] }
}

fn symbol_request(symbol: &str) -> Request {
    Request {
        host: String::new(),
        message: RequestMessage::FileContainingSymbol(symbol.to_string()),
    }
}

/// Runs a discovery against exchanges that were fixed beforehand, and
/// returns what it came to with the requests that it made.
fn discover(outcomes: Vec<Exchange>) -> (Result<Vec<ServiceInfo>, ReflectionError>, Vec<Request>) {
    let (mut state, mut request) = Discovery::start();
    let mut requests = Vec::new();
    let mut outcomes = outcomes.into_iter();
    loop {
        requests.push(request);
        let outcome = outcomes.next().expect("the discovery asks for no more than was prepared");
        match state.advance(outcome) {
            Progress::Continue(next_state, next_request) => {
                state = next_state;
                request = next_request;
            }
            Progress::Done(catalog) => return (Ok(catalog), requests),
            Progress::Failed(error) => return (Err(error), requests),
        }
    }
}

#[test]
fn the_first_request_lists_the_services() {
    let (_, request) = Discovery::start();
    assert_eq!(
        request,
        Request { host: String::new(), message: RequestMessage::ListServices(String::new()) }
    );
    assert_eq!(Request::list_services(), request);
}

#[test]
fn a_symbol_request_names_the_symbol_and_no_host() {
    assert_eq!(
        Request::file_containing_symbol("pkg.Greeter".to_string()),
        symbol_request("pkg.Greeter")
    );
}

#[test]
fn an_exchange_gives_its_message() {
    assert_eq!(response_of(Exchange::Answered(Response::Other)), Ok(Response::Other));
    assert_eq!(
        response_of(names(&["a"])),
        Ok(Response::ListServices(vec!["a".to_string()]))
    );
}

#[test]
fn an_ended_stream_is_no_response() {
    assert_eq!(response_of(Exchange::Ended), Err(ReflectionError::NoResponse));
}

#[test]
fn a_failed_exchange_is_a_transport_error() {
    assert_eq!(
        response_of(Exchange::Failed("connection reset".to_string())),
        Err(ReflectionError::Transport("connection reset".to_string()))
    );
}

#[test]
fn service_names_wants_a_list_of_services() {
    assert_eq!(
        service_names(Response::ListServices(vec!["b".to_string(), "a".to_string()])),
        Ok(vec!["b".to_string(), "a".to_string()])
    );
    let unexpected =
        ReflectionError::UnexpectedResponseVariant { expected: ResponseKind::ListServices };
    assert_eq!(service_names(Response::FileDescriptor(vec![])), Err(unexpected.clone()));
    assert_eq!(service_names(Response::Other), Err(unexpected));
}

#[test]
fn file_descriptor_payloads_wants_file_descriptors() {
    assert_eq!(
        file_descriptor_payloads(Response::FileDescriptor(vec![vec![1, 2], vec![]])),
        Ok(vec![vec![1, 2], vec![]])
    );
    let unexpected =
        ReflectionError::UnexpectedResponseVariant { expected: ResponseKind::FileDescriptor };
    assert_eq!(file_descriptor_payloads(Response::ListServices(vec![])), Err(unexpected.clone()));
    assert_eq!(file_descriptor_payloads(Response::Other), Err(unexpected));
}

#[test]
fn listed_services_reads_the_names_or_the_failure() {
    assert_eq!(listed_services(names(&["x", "y"])), Ok(vec!["x".to_string(), "y".to_string()]));
    assert_eq!(listed_services(Exchange::Ended), Err(ReflectionError::NoResponse));
    assert_eq!(
        listed_services(Exchange::Failed("down".to_string())),
        Err(ReflectionError::Transport("down".to_string()))
    );
}

#[test]
fn file_descriptors_decodes_in_response_order() {
    let got = file_descriptors(files(vec![file("b", vec![]), file("a", vec![])])).unwrap();
    let packages: Vec<Option<String>> = got.iter().map(|f| f.package.clone()).collect();
    assert_eq!(packages, vec![text("b"), text("a")]);
}

#[test]
fn file_descriptors_fails_on_a_malformed_payload() {
    assert_eq!(
        file_descriptors(files(vec![file("a", vec![]), vec![0x12, 0x05, 0x61]])),
        Err(ReflectionError::Decode)
    );
}

#[test]
fn file_descriptors_wants_the_right_response() {
    assert_eq!(
        file_descriptors(names(&["a"])),
        Err(ReflectionError::UnexpectedResponseVariant { expected: ResponseKind::FileDescriptor })
    );
    assert_eq!(file_descriptors(Exchange::Ended), Err(ReflectionError::NoResponse));
    assert_eq!(
        file_descriptors(Exchange::Failed("reset".to_string())),
        Err(ReflectionError::Transport("reset".to_string()))
    );
}

#[test]
fn decoding_comes_before_validation() {
    // the first file lacks its package, the second payload is malformed
    let nameless = FileDescriptorProto {
        package: None,
        service: vec![service("S", vec![])],
        ..Default::default()
    }
    .encode_to_vec();
    assert_eq!(
        file_services(files(vec![nameless.clone(), vec![0x0f]])),
        Err(ReflectionError::Decode)
    );
    assert_eq!(
        file_services(files(vec![nameless])),
        Err(ReflectionError::MissingField(MissingField::Package { service: text("S") }))
    );
}

#[test]
fn an_empty_list_of_services_is_an_empty_catalog() {
    let (result, requests) = discover(vec![names(&[])]);
    assert_eq!(result, Ok(vec![]));
    assert_eq!(requests, vec![Request::list_services()]);
}

#[test]
fn a_file_descriptor_response_to_the_listing_is_a_mismatch() {
    let (result, requests) = discover(vec![files(vec![file("pkg", vec![])])]);
    assert_eq!(
        result,
        Err(ReflectionError::UnexpectedResponseVariant { expected: ResponseKind::ListServices })
    );
    assert_eq!(requests.len(), 1);
}

#[test]
fn one_greeter_service_is_discovered() {
    let payload = file(
        "pkg",
        vec![service(
            "Greeter",
            vec![method("SayHello", Some("pkg.HelloRequest"), Some("pkg.HelloReply"))],
        )],
    );
    let (result, requests) = discover(vec![names(&["pkg.Greeter"]), files(vec![payload])]);
    assert_eq!(
        result,
        Ok(vec![ServiceInfo {
            package: "pkg".to_string(),
            service: "Greeter".to_string(),
            methods: vec![MethodInfo {
                name: "SayHello".to_string(),
                request: "pkg.HelloRequest".to_string(),
                response: "pkg.HelloReply".to_string(),
            }],
        }])
    );
    assert_eq!(requests, vec![Request::list_services(), symbol_request("pkg.Greeter")]);
}

#[test]
fn a_transport_failure_for_the_second_service_leaves_no_catalog() {
    let (result, requests) = discover(vec![
        names(&["pkg.First", "pkg.Second"]),
        files(vec![file("pkg", vec![service("First", vec![])])]),
        Exchange::Failed("stream reset".to_string()),
    ]);
    assert_eq!(result, Err(ReflectionError::Transport("stream reset".to_string())));
    assert_eq!(
        requests,
        vec![
            Request::list_services(),
            symbol_request("pkg.First"),
            symbol_request("pkg.Second")
        ]
    );
}

#[test]
fn a_failure_stops_the_discovery_before_later_names() {
    let (result, requests) = discover(vec![
        names(&["a.A", "b.B", "c.C"]),
        Exchange::Ended,
        files(vec![file("b", vec![service("B", vec![])])]),
        files(vec![file("c", vec![service("C", vec![])])]),
    ]);
    assert_eq!(result, Err(ReflectionError::NoResponse));
    assert_eq!(requests, vec![Request::list_services(), symbol_request("a.A")]);
}

#[test]
fn the_catalog_follows_the_order_of_the_names() {
    let (result, requests) = discover(vec![
        names(&["z.Last", "a.First"]),
        files(vec![
            file("z", vec![service("Last", vec![]), service("Extra", vec![])]),
            file("dep", vec![]),
        ]),
        files(vec![file("a", vec![service("First", vec![])])]),
    ]);
    assert_eq!(result, Ok(vec![bare("z", "Last"), bare("z", "Extra"), bare("a", "First")]));
    assert_eq!(
        requests,
        vec![Request::list_services(), symbol_request("z.Last"), symbol_request("a.First")]
    );
}

#[test]
fn repeated_names_are_fetched_and_listed_again() {
    let payload = file("p", vec![service("S", vec![])]);
    let (result, requests) = discover(vec![
        names(&["p.S", "p.S"]),
        files(vec![payload.clone()]),
        files(vec![payload]),
    ]);
    assert_eq!(result, Ok(vec![bare("p", "S"), bare("p", "S")]));
    assert_eq!(requests.len(), 3);
    assert_eq!(requests[1], requests[2]);
}

#[test]
fn a_method_without_response_type_fails_the_discovery() {
    let broken = file(
        "pkg",
        vec![service("Broken", vec![method("Call", Some("pkg.In"), None)])],
    );
    let (result, _) = discover(vec![
        names(&["pkg.Fine", "pkg.Broken"]),
        files(vec![file("pkg", vec![service("Fine", vec![])])]),
        files(vec![broken]),
    ]);
    assert_eq!(
        result,
        Err(ReflectionError::MissingField(MissingField::ResponseType {
            method: "Call".to_string(),
            service: text("Broken"),
        }))
    );
}

#[test]
fn a_method_without_request_type_fails_the_discovery() {
    let broken = file("pkg", vec![service("Broken", vec![method("Call", None, Some("pkg.Out"))])]);
    let (result, _) = discover(vec![names(&["pkg.Broken"]), files(vec![broken])]);
    assert_eq!(
        result,
        Err(ReflectionError::MissingField(MissingField::RequestType {
            method: "Call".to_string(),
            service: text("Broken"),
        }))
    );
}

#[test]
fn a_list_of_services_in_the_second_phase_is_a_mismatch() {
    let (result, _) = discover(vec![names(&["a.A"]), names(&["a.A"])]);
    assert_eq!(
        result,
        Err(ReflectionError::UnexpectedResponseVariant { expected: ResponseKind::FileDescriptor })
    );
}

#[test]
fn a_malformed_descriptor_fails_the_discovery() {
    let (result, _) = discover(vec![names(&["a.A"]), files(vec![vec![0x12, 0x05, 0x61]])]);
    assert_eq!(result, Err(ReflectionError::Decode));
}

#[test]
fn a_response_without_descriptors_adds_nothing() {
    let (result, requests) = discover(vec![
        names(&["a.A", "b.B"]),
        files(vec![]),
        files(vec![file("b", vec![service("B", vec![])])]),
    ]);
    assert_eq!(result, Ok(vec![bare("b", "B")]));
    assert_eq!(requests.len(), 3);
}

#[test]
fn a_failed_listing_fails_the_discovery() {
    let (result, _) = discover(vec![Exchange::Failed("unavailable".to_string())]);
    assert_eq!(result, Err(ReflectionError::Transport("unavailable".to_string())));
    let (result, _) = discover(vec![Exchange::Ended]);
    assert_eq!(result, Err(ReflectionError::NoResponse));
    let (result, _) = discover(vec![Exchange::Answered(Response::Other)]);
    assert_eq!(
        result,
        Err(ReflectionError::UnexpectedResponseVariant { expected: ResponseKind::ListServices })
    );
}
