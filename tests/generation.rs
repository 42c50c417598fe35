use http_provider::error::MacroError;
use http_provider::expanders::error::ErrorExpander;
use http_provider::expanders::HttpProviderExpander;
use http_provider::expanders::interface::TraitExpander;
use http_provider::expanders::method::{
    MethodExpander, RequestExpander, ResponseExpander, UrlExpander,
};
use http_provider::input::{EndpointDef, HttpMethod, HttpProviderInput};
use http_provider::{generate, http_provider};

fn endpoint(method: HttpMethod, path: Option<&str>) -> EndpointDef {
    EndpointDef {
        method,
        res: None,
        path: path.map(|p| p.to_string()),
        fn_name: None,
        req: None,
        headers: None,
        query_params: None,
        path_params: None,
    }
}

#[test]
fn empty_endpoint_list_fails() {
    let err = generate("Empty, { }").err().unwrap();
    assert_eq!(err.message(), "at least one endpoint must be defined");
    assert_eq!(err.offset(), 0);
    assert!(matches!(err, MacroError::NoEndpointsConfigured { offset: 0 }));
    let out = http_provider(" Empty, {}");
    assert_eq!(
        out,
        "::core::compile_error! { \"at least one endpoint must be defined\" }"
    );
}

#[test]
fn syntax_failure_becomes_compile_error() {
    let out = http_provider("A, { { path: \"/a\" } }");
    assert_eq!(out, "::core::compile_error! { \"missing `method`\" }");
}

#[test]
fn unit_result_does_not_read_body() {
    let text = ResponseExpander::new(None, "ApiError").expand();
    assert!(text.ends_with("Ok(())\n"));
    assert!(!text.contains("json"));
    assert!(text.contains("request.send().await.map_err(ApiError::from)?;"));
}

#[test]
fn non_success_status_ignores_body() {
    let res = "MyResponse".to_string();
    let text = ResponseExpander::new(Some(&res), "ApiError").expand();
    let check = text.find("if !status.is_success()").unwrap();
    let decode = text.find("response.json::<MyResponse>()").unwrap();
    assert!(check < decode);
    assert!(text.contains(
        "let reason = status.canonical_reason().unwrap_or(\"Unknown\").to_string();\nreturn Err(ApiError::Http { status: status.as_u16(), reason });"
    ));
}

#[test]
fn malformed_body_becomes_deserialization_error() {
    let res = "MyResponse".to_string();
    let text = ResponseExpander::new(Some(&res), "ApiError").expand();
    assert!(text.ends_with(
        "response.json::<MyResponse>().await.map_err(|e| ApiError::Deserialization(e.to_string()))\n"
    ));
}

#[test]
fn path_params_are_substituted() {
    let mut def = endpoint(HttpMethod::GET, Some("/users/{id}"));
    def.path_params = Some("PathParams".to_string());
    let text = UrlExpander::new(&def, "ApiError").expand();
    assert_eq!(
        text,
        "let mut path = \"/users/{id}\".to_string();\npath = path.replace(\"{id}\", &path_params.id.to_string());\nlet url = self.url.join(&path).map_err(|e| ApiError::UrlConstruction(e.to_string()))?;\n"
    );
}

#[test]
fn url_without_params_and_without_path() {
    let def = endpoint(HttpMethod::GET, Some("/users"));
    assert_eq!(
        UrlExpander::new(&def, "E").expand(),
        "let url = self.url.join(\"/users\").map_err(|e| E::UrlConstruction(e.to_string()))?;\n"
    );
    let def = endpoint(HttpMethod::GET, None);
    assert_eq!(UrlExpander::new(&def, "E").expand(), "let url = self.url.clone();\n");
}

#[test]
fn request_attachments_in_order() {
    let mut def = endpoint(HttpMethod::POST, Some("/users"));
    def.headers = Some("HeaderMap".to_string());
    def.query_params = Some("Q".to_string());
    def.req = Some("B".to_string());
    assert_eq!(
        RequestExpander::new(&def).expand(),
        "let mut request = self.client.post(url).timeout(self.timeout);\nrequest = request.json(body);\nrequest = request.query(query_params);\nrequest = request.headers(headers);\n"
    );
    let def = endpoint(HttpMethod::DELETE, None);
    assert_eq!(
        RequestExpander::new(&def).expand(),
        "let mut request = self.client.delete(url).timeout(self.timeout);\n"
    );
}

#[test]
fn error_type_messages() {
    let text = ErrorExpander::new("ApiError").expand();
    assert!(text.starts_with("#[derive(Debug)]\npub enum ApiError {\n"));
    assert!(text.contains("f.write_str(\"Failed to construct URL: \")"));
    assert!(text.contains("f.write_str(\"Request failed: \")"));
    assert!(text.contains("f.write_str(\"HTTP \")"));
    assert!(text.contains("f.write_str(\"Failed to deserialize: \")"));
    assert!(text.contains("impl From<reqwest::Error> for ApiError {"));
    assert!(text.contains("Self::Request(err) => Some(err),\n_ => None,"));
}

#[test]
fn trait_declares_each_operation() {
    let input = HttpProviderInput::parse(
        "SimpleProvider, { { path: \"/items\", method: GET, res: MyResponse }, { path: \"/items/{id}\", method: GET, path_params: PathParams, res: MyResponse } }",
    )
    .ok()
    .unwrap();
    let text = TraitExpander::new(&input.endpoints, "SimpleProviderTrait", "SimpleProviderError")
        .expand();
    assert_eq!(
        text,
        "pub trait SimpleProviderTrait {\nasync fn get_items(&self) -> Result<MyResponse, SimpleProviderError>;\nasync fn get_items_by_id(&self, path_params: &PathParams) -> Result<MyResponse, SimpleProviderError>;\n}\n"
    );
}

#[test]
fn method_body_in_sequence() {
    let mut def = endpoint(HttpMethod::PUT, Some("/update"));
    def.req = Some("MyRequest".to_string());
    let text = MethodExpander::new(&def, "E").expand();
    assert!(text.starts_with(
        "async fn put_update(&self, body: &MyRequest) -> Result<(), E> {\nlet url = self.url.join(\"/update\")"
    ));
    let url = text.find("let url").unwrap();
    let request = text.find("let mut request").unwrap();
    let response = text.find("let response").unwrap();
    assert!(url < request && request < response);
    assert!(text.ends_with("Ok(())\n}\n"));
}

#[test]
fn whole_client_is_generated() {
    let out = generate("NoResponseProvider, { { path: \"/delete\", method: DELETE }, { path: \"/update\", method: PUT, req: MyRequest } }")
        .ok()
        .unwrap();
    assert!(out.starts_with("#[derive(Debug)]\npub enum NoResponseProviderError {"));
    assert!(out.contains("pub trait NoResponseProviderTrait {"));
    assert!(out.contains("pub struct NoResponseProvider {\nurl: reqwest::Url,"));
    assert!(out.contains("timeout.unwrap_or(5000)"));
    assert!(out.contains("impl NoResponseProviderTrait for NoResponseProvider {\nasync fn delete_delete(&self) -> Result<(), NoResponseProviderError> {"));
    assert!(out.contains("async fn put_update(&self, body: &MyRequest) -> Result<(), NoResponseProviderError>"));
    assert!(out.ends_with("Ok(())\n}\n}\n"));
}

#[test]
fn validate_refuses_empty_list() {
    let input = HttpProviderInput::parse("Empty, { }").ok().unwrap();
    let err = HttpProviderExpander::new(input).validate().err().unwrap();
    assert!(matches!(err, MacroError::NoEndpointsConfigured { offset: 0 }));
    let input = HttpProviderInput::parse("One, { { method: GET } }").ok().unwrap();
    assert!(HttpProviderExpander::new(input).validate().is_ok());
}
