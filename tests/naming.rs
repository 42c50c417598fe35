use http_provider::expanders::method::{FnNameExpander, ParamsExpander};
use http_provider::input::{EndpointDef, HttpMethod};
use http_provider::template::{placeholder_names_of, without_placeholders};

fn endpoint(method: HttpMethod, path: Option<&str>) -> EndpointDef {
    EndpointDef {
        method,
        res: None,
        path: path.map(|p| p.to_string()),
        fn_name: None,
        req: None,
        headers: None,
        query_params: None,
        path_params: None,
    }
}

fn name_of(def: &EndpointDef) -> String {
    FnNameExpander::new(def).expand()
}

#[test]
fn plain_path_name() {
    let def = endpoint(HttpMethod::GET, Some("/users"));
    assert_eq!(name_of(&def), "get_users");
}

#[test]
fn single_path_param_name() {
    let mut def = endpoint(HttpMethod::GET, Some("/users/{id}"));
    def.path_params = Some("PathParams".to_string());
    assert_eq!(name_of(&def), "get_users_by_id");
}

#[test]
fn two_path_params_name() {
    let mut def = endpoint(HttpMethod::GET, Some("/users/{user_id}/posts/{post_id}"));
    def.path_params = Some("PathParams".to_string());
    assert_eq!(name_of(&def), "get_users_posts_by_user_id_and_post_id");
}

#[test]
fn only_param_in_path_name() {
    let mut def = endpoint(HttpMethod::DELETE, Some("/{id}"));
    def.path_params = Some("PathParams".to_string());
    assert_eq!(name_of(&def), "delete_by_id");
}

#[test]
fn placeholders_without_path_params_stay_in_name() {
    let def = endpoint(HttpMethod::GET, Some("/users/{id}"));
    assert_eq!(name_of(&def), "get_users_id");
}

#[test]
fn no_path_name_is_method_word() {
    assert_eq!(name_of(&endpoint(HttpMethod::GET, None)), "get");
    assert_eq!(name_of(&endpoint(HttpMethod::POST, None)), "post");
    assert_eq!(name_of(&endpoint(HttpMethod::PUT, None)), "put");
    assert_eq!(name_of(&endpoint(HttpMethod::DELETE, None)), "delete");
}

#[test]
fn explicit_name_wins() {
    let mut def = endpoint(HttpMethod::POST, Some("/users/{id}"));
    def.path_params = Some("PathParams".to_string());
    def.fn_name = Some("FetchOne".to_string());
    assert_eq!(name_of(&def), "FetchOne");
}

#[test]
fn name_is_deterministic() {
    let mut def = endpoint(HttpMethod::GET, Some("/users/{user_id}/posts"));
    def.path_params = Some("P".to_string());
    let first = name_of(&def);
    let second = name_of(&def);
    assert_eq!(first, second);
    assert_eq!(first, "get_users_posts_by_user_id");
}

#[test]
fn names_are_snake_cased() {
    let def = endpoint(HttpMethod::GET, Some("/Users/ListAll"));
    assert_eq!(name_of(&def), "get_users_list_all");
}

#[test]
fn names_of_common_operations() {
    assert_eq!(name_of(&endpoint(HttpMethod::DELETE, Some("/delete"))), "delete_delete");
    assert_eq!(name_of(&endpoint(HttpMethod::PUT, Some("/update"))), "put_update");
    assert_eq!(name_of(&endpoint(HttpMethod::GET, Some("/items"))), "get_items");
}

#[test]
fn method_words() {
    assert_eq!(HttpMethod::GET.as_str(), "get");
    assert_eq!(HttpMethod::POST.as_str(), "post");
    assert_eq!(HttpMethod::PUT.as_str(), "put");
    assert_eq!(HttpMethod::DELETE.as_str(), "delete");
}

#[test]
fn placeholder_names_in_order() {
    let names = placeholder_names_of("/a/{x}/b/{y_2}/{}/{a-b}");
    assert_eq!(names, vec!["x".to_string(), "y_2".to_string()]);
}

#[test]
fn placeholders_removed() {
    assert_eq!(without_placeholders("/users/{id}/posts/{}"), "/users//posts/{}");
}

#[test]
fn params_in_fixed_order() {
    let mut def = endpoint(HttpMethod::POST, Some("/x/{id}"));
    def.headers = Some("HeaderMap".to_string());
    def.query_params = Some("Query".to_string());
    def.req = Some("Body".to_string());
    def.path_params = Some("Path".to_string());
    let params = ParamsExpander::new(&def).expand();
    assert_eq!(
        params,
        vec![
            "path_params: &Path".to_string(),
            "body: &Body".to_string(),
            "query_params: &Query".to_string(),
            "headers: HeaderMap".to_string(),
        ]
    );
}

#[test]
fn params_omitted_when_absent() {
    let def = endpoint(HttpMethod::GET, Some("/x"));
    assert!(ParamsExpander::new(&def).expand().is_empty());
}

#[test]
fn side_by_side_placeholders_leave_no_empty_segment() {
    let mut def = endpoint(HttpMethod::GET, Some("/users/{a}/{b}/posts"));
    def.path_params = Some("P".to_string());
    let path: Vec<char> = "users/{a}/{b}/posts".chars().collect();
    assert_eq!(
        FnNameExpander::new(&def).expand_fn_name_with_path(&path),
        "users_posts_by_a_and_b"
    );
    assert_eq!(name_of(&def), "get_users_posts_by_a_and_b");
}

#[test]
fn slash_runs_collapse_to_one() {
    let mut def = endpoint(HttpMethod::GET, Some("/a///b/{id}"));
    def.path_params = Some("P".to_string());
    let path: Vec<char> = "a///b/{id}".chars().collect();
    assert_eq!(FnNameExpander::new(&def).expand_fn_name_with_path(&path), "a_b_by_id");
}
