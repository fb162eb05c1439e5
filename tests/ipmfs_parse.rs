use opendal_errors::error::{ErrorKind, StorageError};
use opendal_errors::http_util::ErrorResponse;
use opendal_errors::ipmfs::{parse_error, IpfsError};
use opendal_errors::ops::Operation;

fn response(status: u16, body: &[u8]) -> ErrorResponse {
    ErrorResponse::new(status, body.to_vec()).expect("valid status")
}

fn ipfs_error(message: &str) -> IpfsError {
    IpfsError {
        message: message.to_string(),
        code: 0,
        ty: "error".to_string(),
    }
}

fn parse(status: u16, body: &[u8], decoded: Result<IpfsError, String>) -> StorageError {
    parse_error(Operation::Read, "dir/file", response(status, body), decoded)
}

#[test]
fn unavailable_statuses_are_interrupted() {
    for status in [502u16, 503, 504] {
        let e = parse(status, b"", Err("EOF while parsing a value".to_string()));
        assert_eq!(e.kind(), ErrorKind::Interrupted);
        let e = parse(status, b"{}", Ok(ipfs_error("file does not exist")));
        assert_eq!(e.kind(), ErrorKind::Interrupted);
    }
}

#[test]
fn interrupted_message_holds_the_response() {
    let e = parse(503, b"busy", Err("expected value".to_string()));
    assert_eq!(
        e.to_string(),
        "object error: (op: read, path: dir/file, source: status code: 503, body: busy)"
    );
}

#[test]
fn missing_file_is_not_found() {
    let body = br#"{"Message": "file does not exist", "Code": 0, "Type": "error"}"#;
    let e = parse(500, body, Ok(ipfs_error("file does not exist")));
    assert_eq!(e.kind(), ErrorKind::NotFound);
    assert_eq!(
        e.to_string(),
        format!(
            "object error: (op: read, path: dir/file, source: status code: 500, body: {})",
            String::from_utf8_lossy(body)
        )
    );
}

#[test]
fn other_message_is_other() {
    let body = br#"{"Message": "disk quota exceeded", "Code": 0, "Type": "error"}"#;
    let e = parse(500, body, Ok(ipfs_error("disk quota exceeded")));
    assert_eq!(e.kind(), ErrorKind::Other);
}

#[test]
fn message_match_is_exact() {
    let e = parse(500, b"{}", Ok(ipfs_error("File does not exist")));
    assert_eq!(e.kind(), ErrorKind::Other);
    let e = parse(500, b"{}", Ok(ipfs_error("file does not exist ")));
    assert_eq!(e.kind(), ErrorKind::Other);
    let e = parse(500, b"{}", Ok(ipfs_error("")));
    assert_eq!(e.kind(), ErrorKind::Other);
}

#[test]
fn undecodable_body_is_other() {
    let e = parse(500, b"not json", Err("expected ident at line 1 column 2".to_string()));
    assert_eq!(e.kind(), ErrorKind::Other);
    let text = e.to_string();
    assert!(text.contains("deserialize error content"));
    assert_eq!(
        text,
        "object error: (op: read, path: dir/file, source: deserialize error content: \
         expected ident at line 1 column 2)"
    );
    assert_eq!(
        e.source().to_string(),
        "deserialize error content: expected ident at line 1 column 2"
    );
}

#[test]
fn other_statuses_are_other() {
    for status in [100u16, 200, 301, 400, 404, 501, 505, 999] {
        let e = parse(status, b"", Ok(ipfs_error("file does not exist")));
        assert_eq!(e.kind(), ErrorKind::Other);
        let e = parse(status, b"", Err("bad".to_string()));
        assert_eq!(e.kind(), ErrorKind::Other);
        assert!(!e.to_string().contains("deserialize"));
    }
}

#[test]
fn parsing_twice_gives_the_same_error() {
    let cases: Vec<(u16, &[u8], Result<IpfsError, String>)> = vec![
        (500, b"{}", Ok(ipfs_error("file does not exist"))),
        (500, b"x", Err("expected value".to_string())),
        (502, b"", Err("EOF".to_string())),
        (404, b"nope", Ok(ipfs_error("other"))),
    ];
    for (status, body, decoded) in cases {
        let first = parse(status, body, decoded.clone());
        let second = parse(status, body, decoded);
        assert_eq!(first.kind(), second.kind());
        assert_eq!(first.to_string(), second.to_string());
    }
}
