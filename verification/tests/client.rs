use card_linker::api::get_leash_api;
use card_linker::client::{
    next_page, set_param, url_fits, LeashAuthenticator, LeashClient, Method, Params,
    MAX_URL_BYTES, PAGE_SIZE,
};

fn pairs(items: &[(&str, &str)]) -> Params {
    items
        .iter()
        .map(|(k, v)| (k.to_string(), v.to_string()))
        .collect()
}

fn kiosk_client() -> LeashClient {
    LeashClient::new(
        LeashAuthenticator::ApiKey("k-1".to_string()),
        "https://leash.example.net".to_string(),
    )
}

#[test]
fn authentication_header_by_kind() {
    let token = LeashAuthenticator::Token("abc".to_string());
    assert_eq!(token.get_authentication_header(), "Bearer abc");
    let key = LeashAuthenticator::ApiKey("xyz".to_string());
    assert_eq!(key.get_authentication_header(), "API-Key xyz");
    let empty = LeashAuthenticator::ApiKey(String::new());
    assert_eq!(empty.get_authentication_header(), "API-Key ");
}

#[test]
fn client_keeps_what_it_was_made_with() {
    let client = kiosk_client();
    assert_eq!(client.get_base_url(), "https://leash.example.net");
    assert_eq!(
        client.authenticator,
        LeashAuthenticator::ApiKey("k-1".to_string())
    );
}

#[test]
fn leash_api_uses_the_api_key() {
    let client = get_leash_api("secret".to_string(), "http://localhost:8000".to_string());
    assert_eq!(
        client.authenticator,
        LeashAuthenticator::ApiKey("secret".to_string())
    );
    assert_eq!(client.get_base_url(), "http://localhost:8000");
}

#[test]
fn get_request_has_address_and_header() {
    let request = kiosk_client()
        .get("api/users/7", Some(pairs(&[("a", "1"), ("b", "two words")])))
        .unwrap();
    assert_eq!(request.method, Method::Get);
    assert_eq!(
        request.url,
        "https://leash.example.net/api/users/7?a=1&b=two+words"
    );
    assert_eq!(request.authorization, "API-Key k-1");
    assert_eq!(request.json_body, None);
}

#[test]
fn request_without_parameters() {
    let request = kiosk_client().delete("api/users/7", None).unwrap();
    assert_eq!(request.method, Method::Delete);
    assert_eq!(request.url, "https://leash.example.net/api/users/7?");
    assert_eq!(request.json_body, None);
}

#[test]
fn requests_with_a_body() {
    let client = kiosk_client();
    let post = client.post("api/x", None, "{\"a\":1}").unwrap();
    assert_eq!(post.method, Method::Post);
    assert_eq!(post.json_body.as_deref(), Some("{\"a\":1}"));
    let put = client.put("api/x", None, "{}").unwrap();
    assert_eq!(put.method, Method::Put);
    assert_eq!(put.json_body.as_deref(), Some("{}"));
    let patch = client.patch("api/x", None, "").unwrap();
    assert_eq!(patch.method, Method::Patch);
    assert_eq!(patch.json_body.as_deref(), Some(""));
    assert_eq!(patch.authorization, "API-Key k-1");
}

#[test]
fn relative_base_address_gives_no_request() {
    let client = LeashClient::new(
        LeashAuthenticator::Token("t".to_string()),
        "not a url".to_string(),
    );
    assert!(client.get("api/x", None).is_none());
    assert!(client.patch("api/x", None, "{}").is_none());
    assert!(client.list("api/x", 10, 0, None).is_none());
}

#[test]
fn set_param_replaces_and_appends() {
    let before = pairs(&[("limit", "5"), ("q", "x"), ("limit", "6"), ("r", "y")]);
    let after = set_param(&before, "limit", "100".to_string());
    assert_eq!(after, pairs(&[("q", "x"), ("r", "y"), ("limit", "100")]));
    let added = set_param(&Vec::new(), "offset", "0".to_string());
    assert_eq!(added, pairs(&[("offset", "0")]));
}

#[test]
fn list_sets_limit_and_offset() {
    let request = kiosk_client()
        .list(
            "api/users",
            25,
            50,
            Some(pairs(&[("offset", "9"), ("q", "ann")])),
        )
        .unwrap();
    assert_eq!(request.method, Method::Get);
    assert_eq!(
        request.url,
        "https://leash.example.net/api/users?q=ann&limit=25&offset=50"
    );
}

#[test]
fn list_all_asks_for_pages_of_one_hundred() {
    assert_eq!(PAGE_SIZE, 100);
    let first = kiosk_client().list_all("api/users", 0).unwrap();
    assert_eq!(
        first.url,
        "https://leash.example.net/api/users?limit=100&offset=0"
    );
    let third = kiosk_client().list_all("api/users", 200).unwrap();
    assert_eq!(
        third.url,
        "https://leash.example.net/api/users?limit=100&offset=200"
    );
}

#[test]
fn paging_stops_at_the_total() {
    assert_eq!(next_page(0, 100, 250), Some(100));
    assert_eq!(next_page(100, 100, 250), Some(200));
    assert_eq!(next_page(200, 100, 250), None);
    assert_eq!(next_page(0, 100, 100), None);
    assert_eq!(next_page(0, 100, 101), Some(100));
    assert_eq!(next_page(0, 100, 0), None);
    assert_eq!(next_page(u32::MAX - 50, 100, u32::MAX), None);
    assert_eq!(next_page(u32::MAX - 100, 100, u32::MAX), None);
    assert_eq!(next_page(u32::MAX - 101, 100, u32::MAX), Some(u32::MAX - 1));
}

#[test]
fn full_listing_visits_every_page_once() {
    let total = 1234u32;
    let mut offsets = vec![0u32];
    let mut offset = 0u32;
    while let Some(next) = next_page(offset, PAGE_SIZE, total) {
        assert!(next > offset);
        offsets.push(next);
        offset = next;
    }
    assert_eq!(offsets.len(), 13);
    assert_eq!(offsets.last(), Some(&1200));
}

#[test]
fn address_and_parameters_have_a_limit() {
    assert_eq!(MAX_URL_BYTES, 16 * 1024 * 1024);
    assert!(url_fits("", &Vec::new()));
    assert!(url_fits(&"a".repeat(MAX_URL_BYTES), &Vec::new()));
    assert!(!url_fits(&"a".repeat(MAX_URL_BYTES + 1), &Vec::new()));
    // a pair counts with its name, its value and two bytes more
    let pair = pairs(&[("name", "value")]);
    assert!(url_fits(&"a".repeat(MAX_URL_BYTES - 11), &pair));
    assert!(!url_fits(&"a".repeat(MAX_URL_BYTES - 10), &pair));
    // bytes count, not characters
    assert!(url_fits(&"\u{e9}".repeat(MAX_URL_BYTES / 2), &Vec::new()));
    assert!(!url_fits(&"\u{e9}".repeat(MAX_URL_BYTES / 2 + 1), &Vec::new()));
    let long_value = vec![("k".to_string(), "v".repeat(MAX_URL_BYTES))];
    assert!(!url_fits("https://leash.example.net", &long_value));
}

#[test]
fn too_long_an_address_gives_no_request() {
    let client = kiosk_client();
    let path = "p".repeat(MAX_URL_BYTES);
    assert!(client.get(&path, None).is_none());
    assert!(client.patch(&path, None, "{}").is_none());
    let fitting = "p".repeat(1000);
    let request = client.get(&fitting, None).unwrap();
    assert_eq!(request.url.len(), "https://leash.example.net/".len() + 1000 + 1);
    let long_value = vec![("k".to_string(), "v".repeat(MAX_URL_BYTES))];
    assert!(client.get("api/x", Some(long_value)).is_none());
}

#[test]
fn set_parameter_occurs_once() {
    let before = pairs(&[("a", "1"), ("limit", "5"), ("b", "2"), ("limit", "6")]);
    let after = set_param(&before, "limit", "7".to_string());
    assert_eq!(after.iter().filter(|p| p.0 == "limit").count(), 1);
    assert_eq!(after.last().unwrap().0, "limit");
    // names that were distinct stay distinct
    let distinct = pairs(&[("a", "1"), ("b", "2"), ("c", "3")]);
    let set = set_param(&distinct, "b", "9".to_string());
    assert_eq!(set, pairs(&[("a", "1"), ("c", "3"), ("b", "9")]));
    let mut names: Vec<&str> = set.iter().map(|p| p.0.as_str()).collect();
    names.sort();
    names.dedup();
    assert_eq!(names.len(), set.len());
}
