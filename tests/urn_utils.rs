use wheel_rs::urn_utils::{method_for_name, Method, Urn};

#[test]
fn test_urn_new() {
    let urn = Urn::new("GET:example.com".to_string());
    assert!(matches!(urn.method, Method::Get));
    assert_eq!(urn.url, "example.com");
}

#[test]
fn test_urn_with_complex_url() {
    let urn = Urn::new("POST:api.example.com/v1/users".to_string());
    assert!(matches!(urn.method, Method::Post));
    assert_eq!(urn.url, "api.example.com/v1/users");
}

#[test]
fn test_http_prefix_urls() {
    let urn = Urn::new("http:example.com".to_string());
    assert!(matches!(urn.method, Method::Get));
    assert_eq!(urn.url, "http:example.com");

    let urn = Urn::new("https:example.com".to_string());
    assert!(matches!(urn.method, Method::Get));
    assert_eq!(urn.url, "https:example.com");
}

#[test]
fn urn_with_empty_url_is_rejected() {
    assert_eq!(Urn::try_new("PUT:".to_string()), None);
    assert_eq!(Urn::try_new("PUT:   ".to_string()), None);
}

#[test]
fn urn_method_is_trimmed_and_case_insensitive() {
    let urn = Urn::try_new(" delete : items/7 ".to_string()).unwrap();
    assert_eq!(urn.method, Method::Delete);
    assert_eq!(urn.url, "items/7");
}

#[test]
fn urn_unknown_method_or_missing_colon_is_rejected() {
    assert_eq!(Urn::try_new("FETCH:example.com".to_string()), None);
    assert_eq!(Urn::try_new("example.com".to_string()), None);
}

#[test]
fn method_names() {
    assert_eq!(Method::Get.to_string(), "GET");
    assert_eq!(Method::Post.to_string(), "POST");
    assert_eq!(Method::Put.to_string(), "PUT");
    assert_eq!(Method::Delete.to_string(), "DELETE");
}

#[test]
fn method_names_read_back() {
    assert_eq!(method_for_name("PUT"), Some(Method::Put));
    assert_eq!(method_for_name("put"), None);
    assert_eq!(method_for_name("PATCH"), None);
}
