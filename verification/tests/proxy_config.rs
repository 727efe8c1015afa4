use abs_party::config::Config;
use abs_party::proxy::{
    bearer_token_of, matches_any, path_matches_prefix_suffix, plan_proxy, proxy_path_allowed,
    relay_status, trim_trailing_slashes_of, ProxyRefusal,
};
use abs_party::text::{contains_text, ends_with_text, same_text, starts_with_text};

#[test]
fn proxy_allows_listed_reads() {
    for path in [
        "api/me",
        "api/libraries",
        "api/libraries/lib1/items",
        "api/libraries/lib1/search",
        "api/items/abc/cover",
        "api/me/progress/abc",
    ] {
        assert!(proxy_path_allowed("GET", path), "{path}");
    }
}

#[test]
fn proxy_allows_listed_writes() {
    for path in [
        "api/me/item/abc/bookmark",
        "api/items/abc/play",
        "api/session/s1/sync",
        "api/session/s1/close",
    ] {
        assert!(proxy_path_allowed("POST", path), "{path}");
    }
}

#[test]
fn proxy_refuses_everything_else() {
    assert!(!proxy_path_allowed("GET", "api/users"));
    assert!(!proxy_path_allowed("GET", "api/me/item/abc/bookmark"));
    assert!(!proxy_path_allowed("POST", "api/me"));
    assert!(!proxy_path_allowed("DELETE", "api/items/abc"));
    assert!(!proxy_path_allowed("PUT", "api/items/abc/play"));
    assert!(!proxy_path_allowed("GET", "api/items/../users"));
    assert!(!proxy_path_allowed("POST", "api/session/../x/sync"));
    assert!(!proxy_path_allowed("get", "api/me"));
}

#[test]
fn matches_any_and_prefix_suffix() {
    assert!(matches_any("b", &["a", "b"]));
    assert!(!matches_any("c", &["a", "b"]));
    assert!(!matches_any("a", &[]));
    assert!(path_matches_prefix_suffix("api/libraries/x/items", "api/libraries/", "/items"));
    assert!(!path_matches_prefix_suffix("api/libraries/x/search", "api/libraries/", "/items"));
    assert!(!path_matches_prefix_suffix("api/x/items", "api/libraries/", "/items"));
}

#[test]
fn text_helpers() {
    assert!(same_text("héllo", "héllo"));
    assert!(!same_text("hello", "hell"));
    assert!(starts_with_text("héllo", "hé"));
    assert!(!starts_with_text("he", "hello"));
    assert!(ends_with_text("héllo", "llo"));
    assert!(contains_text("a..b", ".."));
    assert!(!contains_text("a.b.c", ".."));
    assert!(contains_text("abc", ""));
}

#[test]
fn proxy_plan_builds_the_url() {
    let plan = plan_proxy("GET", "api/libraries", Some("limit=10"), Some("Bearer tok123"), "https://abs.example//")
        .ok()
        .unwrap();
    assert_eq!(plan.token, "tok123");
    assert_eq!(plan.url, "https://abs.example/api/libraries?limit=10");
    let plan = plan_proxy("POST", "api/items/i1/play", Some(""), Some("Bearer t"), "http://h").ok().unwrap();
    assert_eq!(plan.url, "http://h/api/items/i1/play");
    let plan = plan_proxy("GET", "api/me", None, Some("Bearer t"), "http://h").ok().unwrap();
    assert_eq!(plan.url, "http://h/api/me");
}

#[test]
fn proxy_plan_refusals() {
    let r = plan_proxy("DELETE", "api/me", None, Some("Bearer t"), "http://h");
    assert!(matches!(r, Err(ProxyRefusal::Forbidden)));
    let refusal = r.err().unwrap();
    assert_eq!(refusal.status_code(), 403);
    assert_eq!(refusal.message(), "Not a permitted ABS endpoint");
    let r = plan_proxy("GET", "api/me", None, None, "http://h");
    assert!(matches!(r, Err(ProxyRefusal::Unauthorized)));
    let r = plan_proxy("GET", "api/me", None, Some("Basic abc"), "http://h");
    let refusal = r.err().unwrap();
    assert_eq!(refusal.status_code(), 401);
    assert_eq!(refusal.message(), "Missing Bearer token");
}

#[test]
fn bearer_and_trim_helpers() {
    assert_eq!(bearer_token_of(Some("Bearer ")), Some(String::new()));
    assert_eq!(bearer_token_of(Some("bearer x")), None);
    assert_eq!(trim_trailing_slashes_of("a///"), "a");
    assert_eq!(trim_trailing_slashes_of("///"), "");
    assert_eq!(trim_trailing_slashes_of("a/b"), "a/b");
}

#[test]
fn config_for_test_values() {
    let c = Config::for_test();
    assert_eq!(c.abs_base_url, "http://abs.test");
    assert_eq!(c.bind, "127.0.0.1:0");
    assert_eq!(c.static_dir, "./static");
    assert!(c.bypass_auth);
    assert!(c.cors_origin.is_none());
}

#[test]
fn config_defaults_and_overrides() {
    let c = Config::from_settings(None, None, None, None, None, None);
    assert_eq!(c.abs_base_url, "http://localhost:13378");
    assert_eq!(c.bind, "0.0.0.0:3456");
    assert_eq!(c.static_dir, "./static");
    assert!(!c.bypass_auth);
    assert!(c.cors_origin.is_none());
    let c = Config::from_settings(
        Some("https://my.abs.example".into()),
        None,
        Some("8080".into()),
        Some("/srv/static".into()),
        Some("true".into()),
        Some("http://localhost:5173".into()),
    );
    assert_eq!(c.abs_base_url, "https://my.abs.example");
    assert_eq!(c.bind, "0.0.0.0:8080");
    assert_eq!(c.static_dir, "/srv/static");
    assert!(c.bypass_auth);
    assert_eq!(c.cors_origin.as_deref(), Some("http://localhost:5173"));
    let c = Config::from_settings(None, Some("127.0.0.1:9".into()), Some("8080".into()), None, Some("yes".into()), None);
    assert_eq!(c.bind, "127.0.0.1:9");
    assert!(!c.bypass_auth);
    assert!(Config::from_settings(None, None, None, None, Some("1".into()), None).bypass_auth);
}

#[test]
fn relayed_status_falls_back_to_bad_gateway() {
    assert_eq!(relay_status(200), 200);
    assert_eq!(relay_status(100), 100);
    assert_eq!(relay_status(999), 999);
    assert_eq!(relay_status(99), 502);
    assert_eq!(relay_status(1000), 502);
    assert_eq!(relay_status(0), 502);
}
