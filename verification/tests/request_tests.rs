use patchlite::{plan, Auth, HttpMethod, HttpRequest, Tab};

fn base_request(method: HttpMethod) -> HttpRequest {
    HttpRequest::new(Some(method), String::from("http://localhost/api"))
}

#[test]
fn auth_int_round_trip() {
    for a in [Auth::NoAuth, Auth::Basic, Auth::Bearer] {
        assert_eq!(Auth::from_int(a.to_int().unwrap()), a);
    }
    assert_eq!(Auth::from_int(0), Auth::NoAuth);
    assert_eq!(Auth::from_int(1), Auth::Basic);
    assert_eq!(Auth::from_int(2), Auth::Bearer);
    assert_eq!(Auth::from_int(99), Auth::NoAuth);
    assert_eq!(Auth::default(), Auth::NoAuth);
}

#[test]
fn tab_int_round_trip() {
    for t in [Tab::Closed, Tab::Auth, Tab::Headers, Tab::Body] {
        assert_eq!(Tab::from_int(t.to_int().unwrap()), t);
    }
    assert_eq!(Tab::from_int(3), Tab::Body);
    assert_eq!(Tab::from_int(200), Tab::Closed);
    assert_eq!(Tab::default(), Tab::Closed);
}

#[test]
fn http_method_names() {
    assert_eq!(HttpMethod::GET.to_string(), "GET");
    assert_eq!(HttpMethod::POST.to_string(), "POST");
    assert_eq!(HttpMethod::PUT.to_string(), "PUT");
    assert_eq!(HttpMethod::PATCH.to_string(), "PATCH");
    assert_eq!(HttpMethod::DELETE.to_string(), "DELETE");
    assert_eq!(HttpMethod::default(), HttpMethod::GET);
}

#[test]
fn new_request_is_blank_but_for_method_and_url() {
    let r = base_request(HttpMethod::GET);
    assert_eq!(r.method, Some(HttpMethod::GET));
    assert_eq!(r.url, "http://localhost/api");
    assert!(r.body.is_none());
    assert_eq!(r.auth, Auth::NoAuth);
    assert!(r.token.is_empty() && r.username.is_empty() && r.password.is_empty());
    assert!(r.headers.is_empty());
}

#[test]
fn set_headers_replaces_the_list() {
    let mut r = HttpRequest::default();
    let rows = vec![
        (String::from("X-One"), String::from("1")),
        (String::from("X-Two"), String::from("2")),
    ];
    r.set_headers(&rows);
    assert_eq!(r.headers, rows);
}

#[test]
fn set_default_headers_installs_two_entries() {
    let mut r = HttpRequest::default();
    r.set_default_headers();
    assert_eq!(r.headers.len(), 2);
    assert_eq!(r.headers[0], (String::from("Content-Type"), String::from("application/json")));
    assert_eq!(r.headers[1], (String::from("User-Agent"), String::from("PatchLite/0.1")));
}

#[test]
fn plan_without_method_is_none() {
    assert!(plan(&HttpRequest::default()).is_none());
}

#[test]
fn plan_get_never_attaches_a_body() {
    let mut r = base_request(HttpMethod::GET);
    r.body = Some(String::from("{\"a\":1}"));
    let p = plan(&r).unwrap();
    assert_eq!(p.method, HttpMethod::GET);
    assert!(p.body.is_none());
    assert!(!p.json_content_type);
}

#[test]
fn plan_post_attaches_valid_json_body() {
    let mut r = base_request(HttpMethod::POST);
    r.body = Some(String::from("{\"a\":1}"));
    let p = plan(&r).unwrap();
    assert_eq!(p.body.as_deref(), Some("{\"a\":1}"));
    assert!(p.json_content_type);
}

#[test]
fn plan_post_drops_invalid_json_body() {
    let mut r = base_request(HttpMethod::POST);
    r.body = Some(String::from("{not json"));
    let p = plan(&r).unwrap();
    assert!(p.body.is_none());
    assert!(p.json_content_type);
}

#[test]
fn plan_post_drops_whitespace_body() {
    let mut r = base_request(HttpMethod::POST);
    r.body = Some(String::from("   \t\n"));
    assert!(plan(&r).unwrap().body.is_none());
}

#[test]
fn plan_put_attaches_any_nonempty_body() {
    let mut r = base_request(HttpMethod::PUT);
    r.body = Some(String::from("not json at all"));
    assert_eq!(plan(&r).unwrap().body.as_deref(), Some("not json at all"));
    r.body = Some(String::new());
    assert!(plan(&r).unwrap().body.is_none());
    r.body = None;
    assert!(plan(&r).unwrap().body.is_none());
}

#[test]
fn plan_delete_attaches_any_nonempty_body() {
    let mut r = base_request(HttpMethod::DELETE);
    r.body = Some(String::from("x"));
    assert_eq!(plan(&r).unwrap().body.as_deref(), Some("x"));
}

#[test]
fn plan_copies_credentials_and_headers() {
    let mut r = base_request(HttpMethod::POST);
    r.auth = Auth::Basic;
    r.username = String::from("user");
    r.password = String::from("pass");
    r.token = String::from("tok");
    r.headers = vec![(String::from("X-H"), String::from("v"))];
    let p = plan(&r).unwrap();
    assert_eq!(p.auth, Auth::Basic);
    assert_eq!(p.username, "user");
    assert_eq!(p.password, "pass");
    assert_eq!(p.token, "tok");
    assert_eq!(p.headers, r.headers);
    assert_eq!(p.url, r.url);
}

#[test]
fn plan_patch_basic_uses_builtin_credentials() {
    let mut r = base_request(HttpMethod::PATCH);
    r.auth = Auth::Basic;
    r.username = String::from("user");
    r.password = String::from("pw");
    let p = plan(&r).unwrap();
    assert_eq!(p.username, "admin");
    assert_eq!(p.password, "good password");
}

#[test]
fn plan_patch_bearer_keeps_composed_credentials() {
    let mut r = base_request(HttpMethod::PATCH);
    r.auth = Auth::Bearer;
    r.username = String::from("user");
    r.token = String::from("tok");
    let p = plan(&r).unwrap();
    assert_eq!(p.username, "user");
    assert_eq!(p.token, "tok");
}
