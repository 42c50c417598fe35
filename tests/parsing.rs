use http_provider::error::MacroError;
use http_provider::input::{HttpMethod, HttpProviderInput};

fn syntax(err: MacroError) -> (String, usize) {
    match err {
        MacroError::Syntax { message, offset } => (message, offset),
        MacroError::NoEndpointsConfigured { .. } => panic!("not a syntax error"),
    }
}

#[test]
fn parses_full_description() {
    let text = "HttpProvider, {\n  { path: \"/users\", method: GET, res: MyResponse, },\n  { path: \"/users/{id}\", method: get, path_params: PathParams, res: Vec<Option<MyResponse>> },\n  { method: POST, fn_name: create, req: MyRequest, headers: HeaderMap, query_params: (u32, String) },\n}";
    let input = HttpProviderInput::parse(text).ok().unwrap();
    assert_eq!(input.struct_name, "HttpProvider");
    assert_eq!(input.struct_name_offset, 0);
    assert_eq!(input.endpoints.len(), 3);
    let first = &input.endpoints[0];
    assert_eq!(first.method, HttpMethod::GET);
    assert_eq!(first.path.as_deref(), Some("/users"));
    assert_eq!(first.res.as_deref(), Some("MyResponse"));
    let second = &input.endpoints[1];
    assert_eq!(second.method, HttpMethod::GET);
    assert_eq!(second.path_params.as_deref(), Some("PathParams"));
    assert_eq!(second.res.as_deref(), Some("Vec<Option<MyResponse>>"));
    let third = &input.endpoints[2];
    assert_eq!(third.method, HttpMethod::POST);
    assert_eq!(third.path, None);
    assert_eq!(third.fn_name.as_deref(), Some("create"));
    assert_eq!(third.req.as_deref(), Some("MyRequest"));
    assert_eq!(third.headers.as_deref(), Some("HeaderMap"));
    assert_eq!(third.query_params.as_deref(), Some("(u32, String)"));
}

#[test]
fn parses_token_stream_spacing() {
    let text = "Api , { { path : \"/a\" , method : DELETE , res : Vec < u8 > } }";
    let input = HttpProviderInput::parse(text).ok().unwrap();
    assert_eq!(input.struct_name, "Api");
    assert_eq!(input.endpoints[0].method, HttpMethod::DELETE);
    assert_eq!(input.endpoints[0].res.as_deref(), Some("Vec < u8 >"));
}

#[test]
fn later_field_replaces_earlier() {
    let input = HttpProviderInput::parse("A, { { method: GET, method: PUT } }").ok().unwrap();
    assert_eq!(input.endpoints[0].method, HttpMethod::PUT);
}

#[test]
fn empty_list_parses() {
    let input = HttpProviderInput::parse("  Empty, { }").ok().unwrap();
    assert_eq!(input.struct_name_offset, 2);
    assert!(input.endpoints.is_empty());
}

#[test]
fn missing_method_is_refused() {
    let err = HttpProviderInput::parse("A, { { path: \"/a\" } }").err().unwrap();
    assert_eq!(syntax(err), ("missing `method`".to_string(), 18));
}

#[test]
fn unknown_field_is_refused() {
    let err = HttpProviderInput::parse("A, { { method: GET, body: X } }").err().unwrap();
    assert_eq!(syntax(err), ("unexpected field".to_string(), 20));
}

#[test]
fn unsupported_method_is_refused() {
    let err = HttpProviderInput::parse("A, { { method: PATCH } }").err().unwrap();
    assert_eq!(syntax(err), ("Unsupported HTTP method: PATCH".to_string(), 15));
}

#[test]
fn malformed_values_are_refused() {
    let err = HttpProviderInput::parse("A, { { path: users, method: GET } }").err().unwrap();
    assert_eq!(syntax(err), ("expected string literal".to_string(), 13));
    let err = HttpProviderInput::parse("A, { { method: GET, res: , } }").err().unwrap();
    assert_eq!(syntax(err), ("expected type".to_string(), 25));
    let err = HttpProviderInput::parse("A, { { method GET } }").err().unwrap();
    assert_eq!(syntax(err), ("expected `:`".to_string(), 14));
    let err = HttpProviderInput::parse("A { }").err().unwrap();
    assert_eq!(syntax(err), ("expected `,`".to_string(), 2));
    let err = HttpProviderInput::parse("A, { { method: GET } } extra").err().unwrap();
    assert_eq!(syntax(err), ("unexpected token".to_string(), 23));
    let err = HttpProviderInput::parse("A, { { method: GET }").err().unwrap();
    assert_eq!(syntax(err), ("expected `,`".to_string(), 20));
    let err = HttpProviderInput::parse("A, { { method: GET,").err().unwrap();
    assert_eq!(syntax(err), ("unexpected end of input".to_string(), 19));
    let err = HttpProviderInput::parse("A, { [ ] }").err().unwrap();
    assert_eq!(syntax(err), ("expected `{`".to_string(), 5));
    let err = HttpProviderInput::parse("1A, { }").err().unwrap();
    assert_eq!(syntax(err), ("expected identifier".to_string(), 0));
}

#[test]
fn string_escapes_are_kept_as_written() {
    let input = HttpProviderInput::parse("A, { { path: \"/a\\\"b\\\\c\", method: GET } }").ok().unwrap();
    assert_eq!(input.endpoints[0].path.as_deref(), Some("/a\\\"b\\\\c"));
}

#[test]
fn arrow_inside_type() {
    let input = HttpProviderInput::parse("A, { { method: GET, res: fn(u8) -> Vec<u8>, req: Box<dyn Fn() -> u8> } }")
        .ok()
        .unwrap();
    assert_eq!(input.endpoints[0].res.as_deref(), Some("fn(u8) -> Vec<u8>"));
    assert_eq!(input.endpoints[0].req.as_deref(), Some("Box<dyn Fn() -> u8>"));
}

#[test]
fn unicode_identifiers() {
    let input = HttpProviderInput::parse("Ĉliento, { { method: GET, fn_name: ĉiuj_uzantoj } }").ok().unwrap();
    assert_eq!(input.struct_name, "Ĉliento");
    assert_eq!(input.endpoints[0].fn_name.as_deref(), Some("ĉiuj_uzantoj"));
}
