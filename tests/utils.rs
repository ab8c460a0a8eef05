use wheel_rs::dns_utils::split_host_port;
use wheel_rs::error::Error;
use wheel_rs::file_utils::{get_file_ext, is_cross_device_error, sha256_hex, IoErrorInfo};
use wheel_rs::str_utils::{split_camel_case, CamelFormat, StrError};
use wheel_rs::time_utils::get_current_timestamp;

#[test]
fn file_extensions() {
    assert_eq!(get_file_ext("example.TXT"), "txt");
    assert_eq!(get_file_ext("document.pdf"), "pdf");
    assert_eq!(get_file_ext("archive.tar.GZ"), "gz");
    assert_eq!(get_file_ext("file_without_extension"), "");
    assert_eq!(get_file_ext("trailing."), "");
}

#[test]
fn cross_device_errors() {
    assert!(is_cross_device_error(&IoErrorInfo { raw_os_error: Some(18) }));
    assert!(!is_cross_device_error(&IoErrorInfo { raw_os_error: Some(2) }));
    assert!(!is_cross_device_error(&IoErrorInfo { raw_os_error: None }));
}

#[test]
fn sha256_hex_digests() {
    assert_eq!(
        sha256_hex(b""),
        "e3b0c44298fc1c149afbf4c8996fb92427ae41e4649b934ca495991b7852b855"
    );
    assert_eq!(
        sha256_hex(b"abc"),
        "ba7816bf8f01cfea414140de5dae2223b00361a396177a9cb410ff61f20015ad"
    );
}

#[test]
fn timestamp_is_after_2020() {
    assert!(get_current_timestamp() > 1_577_836_800_000);
}

#[test]
fn camel_case_words() {
    assert_eq!(
        split_camel_case("HelloWorld", CamelFormat::Upper).unwrap(),
        vec!["Hello", "World"]
    );
    assert_eq!(
        split_camel_case("helloWorld2Go", CamelFormat::Lower).unwrap(),
        vec!["hello", "World2", "Go"]
    );
    assert_eq!(split_camel_case("A", CamelFormat::Upper).unwrap(), vec!["A"]);
    assert_eq!(
        split_camel_case("getHTTPResponse", CamelFormat::Lower).unwrap(),
        vec!["get", "HTTP", "Response"]
    );
    assert_eq!(
        split_camel_case("HTTPServer", CamelFormat::Upper).unwrap(),
        vec!["HTTP", "Server"]
    );
    assert_eq!(
        split_camel_case("XMLHttpRequest", CamelFormat::Upper).unwrap(),
        vec!["XML", "Http", "Request"]
    );
    assert_eq!(split_camel_case("ABC", CamelFormat::Upper).unwrap(), vec!["ABC"]);
}

#[test]
fn camel_case_errors() {
    assert_eq!(split_camel_case("", CamelFormat::Upper), Err(StrError::Empty));
    assert_eq!(
        split_camel_case("hello", CamelFormat::Upper),
        Err(StrError::InvalidFormat("First character must be uppercase".to_string()))
    );
    assert_eq!(
        split_camel_case("Hello", CamelFormat::Lower),
        Err(StrError::InvalidFormat("First character must be lowercase".to_string()))
    );
    assert_eq!(
        split_camel_case("Hello_World", CamelFormat::Upper),
        Err(StrError::InvalidFormat("Invalid character '_' at position 5".to_string()))
    );
}

#[test]
fn host_port_splitting() {
    assert_eq!(
        split_host_port("192.168.1.1:8080"),
        Ok(("192.168.1.1".to_string(), 8080))
    );
    assert_eq!(split_host_port("example.com:80"), Ok(("example.com".to_string(), 80)));
    assert_eq!(split_host_port("[::1]:8080"), Ok(("::1".to_string(), 8080)));
    assert_eq!(split_host_port("example.com"), Ok(("example.com".to_string(), 0)));
    assert_eq!(
        split_host_port("example.com:99999"),
        Err("Invalid port in address: example.com:99999".to_string())
    );
    assert_eq!(
        split_host_port("[::1]:x"),
        Err("Invalid port in address: [::1]:x".to_string())
    );
}

#[test]
fn runtime_error_values() {
    let e = Error::RuntimeError("boom".to_string());
    assert_eq!(e.clone(), Error::RuntimeError("boom".to_string()));
    assert_ne!(e, Error::RuntimeXError("boom".to_string(), "cause".to_string()));
}
