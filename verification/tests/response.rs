use image_server::response::{Header, ImageResponse};

fn header(name: &str, value: &str) -> Header {
    Header { name: name.to_string(), value: value.to_string() }
}

#[test]
fn header_finds_the_first_of_that_name() {
    let response = ImageResponse {
        status: 200,
        headers: vec![header("x-a", "1"), header("x-b", "2"), header("x-a", "3")],
        body: Vec::new(),
    };
    assert_eq!(response.header("x-a"), Some("1".to_string()));
    assert_eq!(response.header("x-b"), Some("2".to_string()));
}

#[test]
fn header_that_was_not_set_is_none() {
    let response = ImageResponse { status: 200, headers: vec![header("x-a", "1")], body: vec![1] };
    assert_eq!(response.header("content-length"), None);
    let bare = ImageResponse { status: 200, headers: Vec::new(), body: Vec::new() };
    assert_eq!(bare.header("x-a"), None);
}

#[test]
fn declared_length_is_the_explicit_header_where_set() {
    let response = ImageResponse {
        status: 200,
        headers: vec![header("x-a", "1"), header("content-length", "512")],
        body: Vec::new(),
    };
    assert_eq!(response.declared_content_length(), "512");
}

#[test]
fn declared_length_is_the_body_length_otherwise() {
    let response = ImageResponse { status: 200, headers: Vec::new(), body: vec![0; 37] };
    assert_eq!(response.declared_content_length(), "37");
    let empty = ImageResponse { status: 200, headers: vec![header("x-a", "9")], body: Vec::new() };
    assert_eq!(empty.declared_content_length(), "0");
}
