use http_serv::http_structs::HttpMethod;
use http_serv::router::match_pattern;
use http_serv::server::{default_response, dispatch_plan, pool_size, resolve_thread_count, RouteTable};

fn pairs(ps: &[(&str, &str)]) -> Vec<(String, String)> {
    ps.iter().map(|(k, v)| (k.to_string(), v.to_string())).collect()
}

#[test]
fn catchall_binds_rest_of_path() {
    let params = match_pattern("/files/:rest*", "/files/a/b/c").unwrap();
    assert_eq!(params, pairs(&[(":rest*", "a/b/c")]));
}

#[test]
fn catchall_accepts_empty_remainder() {
    let params = match_pattern("/files/:rest*", "/files").unwrap();
    assert_eq!(params, pairs(&[(":rest*", "")]));
}

#[test]
fn param_binds_one_segment() {
    let params = match_pattern("/:id", "/42").unwrap();
    assert_eq!(params, pairs(&[(":id", "42")]));
    let params = match_pattern("/user/:id/posts", "/user/7/posts").unwrap();
    assert_eq!(params, pairs(&[(":id", "7")]));
}

#[test]
fn literal_segments_must_all_match() {
    assert!(match_pattern("/a/b", "/a/b").is_some());
    assert!(match_pattern("/a/b", "/a/c").is_none());
    assert!(match_pattern("/a", "/a/b").is_none());
    assert!(match_pattern("/a/b", "/a").is_none());
    assert!(match_pattern("/a/:x", "/a").is_none());
}

#[test]
fn empty_segments_are_normalized_away() {
    assert!(match_pattern("/a/b/", "//a//b").is_some());
    let params = match_pattern("/:id/", "//42").unwrap();
    assert_eq!(params, pairs(&[(":id", "42")]));
}

#[test]
fn method_mismatch_does_not_execute() {
    let mut routes = RouteTable::new();
    routes.post("/:id".to_string());
    let plan = dispatch_plan(&routes, &HttpMethod::GET, "/42");
    assert!(plan.matched.is_empty());
    let plan = dispatch_plan(&routes, &HttpMethod::POST, "/42");
    assert_eq!(plan.matched, vec![(0, pairs(&[(":id", "42")]))]);
}

#[test]
fn method_match_alone_does_not_execute() {
    let mut routes = RouteTable::new();
    routes.get("/known/path".to_string());
    let plan = dispatch_plan(&routes, &HttpMethod::GET, "/other/path");
    assert!(plan.matched.is_empty());
}

#[test]
fn unmatched_request_gets_default_501() {
    let mut routes = RouteTable::new();
    routes.get("/known".to_string());
    let plan = dispatch_plan(&routes, &HttpMethod::GET, "/other");
    assert!(plan.matched.is_empty());
    let resp = default_response();
    assert_eq!(resp.status.code(), 501);
    assert!(resp.data.is_none());
    assert_eq!(resp.to_headers().join("\r\n"), "HTTP/1.1 501 Not Implemented\r\n\r\n");
}

#[test]
fn all_matching_entries_execute_in_registration_order() {
    let mut routes = RouteTable::new();
    routes.get("/x/:a".to_string());
    routes.get("/nope".to_string());
    routes.get("/:b/y".to_string());
    routes.post("/x/y".to_string());
    let plan = dispatch_plan(&routes, &HttpMethod::GET, "/x/y");
    assert_eq!(
        plan.matched,
        vec![(0, pairs(&[(":a", "y")])), (2, pairs(&[(":b", "x")]))]
    );
}

#[test]
fn dispatch_splits_query_and_binds_params() {
    let mut routes = RouteTable::new();
    routes.get("/files/:rest*".to_string());
    let plan = dispatch_plan(&routes, &HttpMethod::GET, "/files/a/b?k=v&k2=v2");
    assert_eq!(plan.route_path, "/files/a/b");
    assert_eq!(plan.query_params, Some(pairs(&[("k", "v"), ("k2", "v2")])));
    assert_eq!(plan.matched, vec![(0, pairs(&[(":rest*", "a/b")]))]);
}

#[test]
fn dispatch_without_query_leaves_params_unset() {
    let routes = RouteTable::new();
    let plan = dispatch_plan(&routes, &HttpMethod::GET, "/plain/path");
    assert_eq!(plan.route_path, "/plain/path");
    assert!(plan.query_params.is_none());
}

#[test]
fn route_registration_keeps_order() {
    let mut routes = RouteTable::new();
    routes.get("/a".to_string());
    routes.post("/b".to_string());
    routes.put("/c".to_string());
    routes.delete("/d".to_string());
    assert_eq!(
        routes.entries,
        vec![
            (HttpMethod::GET, "/a".to_string()),
            (HttpMethod::POST, "/b".to_string()),
            (HttpMethod::PUT, "/c".to_string()),
            (HttpMethod::DELETE, "/d".to_string()),
        ]
    );
}

#[test]
fn thread_count_resolution() {
    assert_eq!(resolve_thread_count(Some(10)), 10);
    assert_eq!(resolve_thread_count(Some(1)), 1);
    assert!(resolve_thread_count(None) >= 3);
}

#[test]
fn pool_size_is_three_per_cpu_saturating() {
    assert_eq!(pool_size(1), 3);
    assert_eq!(pool_size(4), 12);
    assert_eq!(pool_size((u32::MAX / 3) as usize), u32::MAX);
    assert_eq!(pool_size((u32::MAX / 3 + 1) as usize), u32::MAX);
    assert_eq!(pool_size(u32::MAX as usize), u32::MAX);
    assert_eq!(pool_size(usize::MAX), u32::MAX);
}
