use clickdown::api::auth::{stored_token, token_dir_for, AuthManager, AuthToken};
use clickdown::api::endpoints::{ApiEndpoints, BASE_URL};
use clickdown::config::ConfigManager;
use clickdown::models::document::DocumentFilters;
use clickdown::paths::join_path;
use clickdown::query::{url_encode, QueryParams};

#[test]
fn endpoint_urls() {
    assert_eq!(BASE_URL, "https://api.clickup.com/api/v2");
    assert_eq!(ApiEndpoints::teams(), "https://api.clickup.com/api/v2/team");
    assert_eq!(ApiEndpoints::spaces("9"), "https://api.clickup.com/api/v2/team/9/space");
    assert_eq!(ApiEndpoints::folders("s"), "https://api.clickup.com/api/v2/space/s/folder");
    assert_eq!(ApiEndpoints::lists_in_folder("f"), "https://api.clickup.com/api/v2/folder/f/list");
    assert_eq!(ApiEndpoints::lists_in_space("s"), "https://api.clickup.com/api/v2/space/s/list");
    assert_eq!(
        ApiEndpoints::tasks_in_list("l", "?page=0"),
        "https://api.clickup.com/api/v2/list/l/task?page=0"
    );
    assert_eq!(ApiEndpoints::task("t"), "https://api.clickup.com/api/v2/task/t");
    assert_eq!(ApiEndpoints::user(), "https://api.clickup.com/api/v2/user");
    assert_eq!(ApiEndpoints::task_comments("t"), "https://api.clickup.com/api/v2/task/t/comment");
    assert_eq!(ApiEndpoints::comment_replies("c"), "https://api.clickup.com/api/v2/comment/c/reply");
    assert_eq!(ApiEndpoints::comment("c"), "https://api.clickup.com/api/v2/comment/c");
    assert_eq!(ApiEndpoints::list_members("l"), "https://api.clickup.com/api/v2/list/l/member");
}

#[test]
fn query_params_build_in_order() {
    let mut q = QueryParams::new();
    assert_eq!(q.to_query_string(), "");
    q.add("a", "1".to_string());
    q.add_opt_bool("b", Some(true));
    q.add_opt_bool("skip", None);
    q.add_opt_u32("c", Some(7));
    q.add_opt_i64("d", Some(-3));
    q.add_all_str("e", &vec!["x".to_string(), "y".to_string()]);
    q.add_opt_encoded("f", Some("a b&c"));
    assert_eq!(q.to_query_string(), "?a=1&b=true&c=7&d=-3&e[]=x&e[]=y&f=a%20b%26c");
}

#[test]
fn percent_encoding() {
    assert_eq!(url_encode("AZaz09-._~"), "AZaz09-._~");
    assert_eq!(url_encode("é /"), "%C3%A9%20%2F");
    assert_eq!(url_encode(""), "");
}

#[test]
fn document_filters_query() {
    let f = DocumentFilters {
        query: Some("road map".to_string()),
        space_id: None,
        folder_id: Some("F1".to_string()),
    };
    assert_eq!(f.to_query_string(), "?query=road%20map&folder_id=F1");
    assert_eq!(DocumentFilters::default().to_query_string(), "");
}

#[test]
fn paths() {
    assert_eq!(join_path("/home/u/.config", "clickdown"), "/home/u/.config/clickdown");
    assert_eq!(join_path("/tmp/", "x"), "/tmp/x");
    assert_eq!(join_path("", "token"), "token");
    let m = AuthManager::with_config_dir("/c/clickdown".to_string());
    assert_eq!(m.token_path(), "/c/clickdown/token");
    assert_eq!(m.config_dir(), "/c/clickdown");
    let expected = match dirs::config_dir() {
        Some(d) => join_path(&join_path(&d.to_string_lossy(), "clickdown"), "token"),
        None => "token".to_string(),
    };
    assert_eq!(AuthManager::default().token_path(), expected);
    assert_eq!(token_dir_for(Some("/home/u/.config".to_string())), "/home/u/.config/clickdown");
    assert_eq!(token_dir_for(None), "");
    assert_eq!(ConfigManager::cache_dir_in("/cache"), "/cache/clickdown");
    assert_eq!(ConfigManager::database_path_in("/cache/clickdown"), "/cache/clickdown/cache.db");
}

#[test]
fn stored_tokens_are_trimmed() {
    assert_eq!(stored_token("  pk_123\n"), "pk_123");
    let t = AuthToken { token: stored_token("abc") };
    assert_eq!(t.token, "abc");
}
