use registry::response::{
    attach_protocol_header, Header, MaybeResponse, Prepared, Request, Response, Status,
    API_VERSION, API_VERSION_HEADER,
};

fn header(name: &str, value: &str) -> Header {
    Header { name: name.to_string(), value: value.to_string() }
}

fn text_response(code: u16, body: &str) -> Response {
    Response {
        status: Status { code },
        headers: vec![header("Content-Type", "text/plain")],
        body: body.as_bytes().to_vec(),
    }
}

fn found(name: &str) -> Prepared {
    Prepared { success: Ok(text_response(200, name)), failure: Ok(text_response(400, name)) }
}

fn missing() -> Prepared {
    Prepared { success: Ok(text_response(200, "")), failure: Ok(text_response(404, "not found")) }
}

fn broken() -> Prepared {
    Prepared { success: Err(Status { code: 500 }), failure: Err(Status { code: 503 }) }
}

fn request() -> Request {
    Request { method: "GET".to_string(), uri: "/v2/".to_string(), headers: vec![] }
}

fn names_and_values(r: &Response) -> Vec<(String, String)> {
    r.headers.iter().map(|h| (h.name.clone(), h.value.clone())).collect()
}

#[test]
fn it_works() {
}

#[test]
fn success_path_carries_protocol_header() {
    let r = MaybeResponse::ok(found("alpine")).respond_to(&request()).unwrap();
    assert_eq!(r.status, Status { code: 200 });
    assert_eq!(r.body, b"alpine".to_vec());
    assert_eq!(
        names_and_values(&r),
        vec![
            ("Content-Type".to_string(), "text/plain".to_string()),
            ("Docker-Distribution-API-Version".to_string(), "registry/2.0".to_string()),
        ]
    );
}

#[test]
fn failure_path_carries_protocol_header() {
    let r = MaybeResponse::err(missing()).respond_to(&request()).unwrap();
    assert_eq!(r.status, Status { code: 404 });
    assert_eq!(r.body, b"not found".to_vec());
    let last = r.headers.last().unwrap();
    assert_eq!(last.name, "Docker-Distribution-API-Version");
    assert_eq!(last.value, "registry/2.0");
}

#[test]
fn both_paths_advertise_the_same_header() {
    let a = MaybeResponse::ok(missing()).respond_to(&request()).unwrap();
    let b = MaybeResponse::err(missing()).respond_to(&request()).unwrap();
    assert_eq!(a.headers.last().unwrap().name, b.headers.last().unwrap().name);
    assert_eq!(a.headers.last().unwrap().value, b.headers.last().unwrap().value);
}

#[test]
fn dispatch_failure_is_a_bare_status() {
    assert_eq!(MaybeResponse::ok(broken()).respond_to(&request()).unwrap_err(), Status { code: 500 });
    assert_eq!(MaybeResponse::err(broken()).respond_to(&request()).unwrap_err(), Status { code: 503 });
}

#[test]
fn constructors_pick_the_variant() {
    assert!(matches!(MaybeResponse::ok(missing()).0, Ok(_)));
    assert!(matches!(MaybeResponse::err(missing()).0, Err(_)));
}

#[test]
fn each_value_goes_to_its_own_method() {
    let a = MaybeResponse::ok(found("alpine")).respond_to(&request()).unwrap();
    let b = MaybeResponse::err(found("alpine")).respond_to(&request()).unwrap();
    assert_eq!(a.status, Status { code: 200 });
    assert_eq!(b.status, Status { code: 400 });
}

#[test]
fn endpoint_protocol_header_is_overridden_on_dispatch() {
    let built = Response {
        status: Status { code: 200 },
        headers: vec![header("Docker-Distribution-API-Version", "registry/1.0"), header("ETag", "x")],
        body: vec![1, 2],
    };
    let prepared = Prepared { success: Ok(built), failure: Err(Status { code: 500 }) };
    let r = MaybeResponse::ok(prepared).respond_to(&request()).unwrap();
    assert_eq!(r.body, vec![1, 2]);
    assert_eq!(
        names_and_values(&r),
        vec![
            ("ETag".to_string(), "x".to_string()),
            ("Docker-Distribution-API-Version".to_string(), "registry/2.0".to_string()),
        ]
    );
}

#[test]
fn earlier_protocol_header_is_replaced_whatever_its_case() {
    let base = Response {
        status: Status { code: 201 },
        headers: vec![
            header("docker-distribution-api-version", "registry/1.0"),
            header("Location", "/v2/alpine/blobs/1"),
            header("DOCKER-DISTRIBUTION-API-VERSION", "old"),
        ],
        body: vec![],
    };
    let r = attach_protocol_header(Ok(base)).unwrap();
    assert_eq!(r.status, Status { code: 201 });
    assert_eq!(
        names_and_values(&r),
        vec![
            ("Location".to_string(), "/v2/alpine/blobs/1".to_string()),
            (API_VERSION_HEADER.to_string(), API_VERSION.to_string()),
        ]
    );
}

#[test]
fn header_with_a_longer_name_is_kept() {
    let base = Response {
        status: Status { code: 200 },
        headers: vec![header("Docker-Distribution-API-Versions", "x")],
        body: vec![],
    };
    let r = attach_protocol_header(Ok(base)).unwrap();
    assert_eq!(r.headers.len(), 2);
    assert_eq!(r.headers[0].name, "Docker-Distribution-API-Versions");
}

#[test]
fn empty_header_set_gets_only_the_protocol_header() {
    let base = Response { status: Status { code: 204 }, headers: vec![], body: vec![] };
    let r = attach_protocol_header(Ok(base)).unwrap();
    assert_eq!(
        names_and_values(&r),
        vec![("Docker-Distribution-API-Version".to_string(), "registry/2.0".to_string())]
    );
}

#[test]
fn bare_status_passes_through() {
    assert_eq!(attach_protocol_header(Err(Status { code: 503 })).unwrap_err(), Status { code: 503 });
}
