use gopher_friend::{
    BASE_URL, Error, Fetcher, Reply, STATUS_OK, Save, file_name_for, handle_reply, handle_saved,
};

fn png_bytes() -> Vec<u8> {
    vec![0x89, 0x50, 0x4E, 0x47, 0x0D, 0x0A, 0x1A, 0x0A]
}

#[test]
fn url_is_base_slash_name_png() {
    let fetcher = Fetcher::remote();
    assert_eq!(
        fetcher.url_for("standard"),
        "https://github.com/scraly/gophers/raw/main/standard.png"
    );
    assert_eq!(fetcher.base_url, BASE_URL);
}

#[test]
fn url_uses_configured_base() {
    let fetcher = Fetcher::new("http://127.0.0.1:8080/g".to_string());
    assert_eq!(fetcher.url_for("dr-who"), "http://127.0.0.1:8080/g/dr-who.png");
}

#[test]
fn url_keeps_name_unchanged() {
    let fetcher = Fetcher::new("http://h".to_string());
    assert_eq!(fetcher.url_for(""), "http://h/.png");
    assert_eq!(fetcher.url_for("a/../b"), "http://h/a/../b.png");
}

#[test]
fn file_name_appends_png() {
    assert_eq!(file_name_for("standard"), "standard.png");
    assert_eq!(file_name_for(""), ".png");
    assert_eq!(file_name_for("../up"), "../up.png");
}

#[test]
fn standard_reply_is_saved_verbatim() {
    let reply = Reply { status_code: 200, body: png_bytes() };
    let save = handle_reply("standard", Ok(reply)).unwrap();
    assert_eq!(save.file_name, "standard.png");
    assert_eq!(save.bytes, png_bytes());
    let msg = handle_saved(&save, Ok(())).unwrap();
    assert_eq!(msg, "Perfect! Just saved in standard.png");
    assert!(msg.contains("standard.png"));
}

#[test]
fn empty_body_is_saved_as_empty_file() {
    let save = handle_reply("blank", Ok(Reply { status_code: STATUS_OK, body: Vec::new() })).unwrap();
    assert_eq!(save, Save { file_name: "blank.png".to_string(), bytes: Vec::new() });
}

#[test]
fn unknown_gopher_is_not_found() {
    let reply = Reply { status_code: 404, body: b"Not Found".to_vec() };
    let err = handle_reply("unknown-gopher", Ok(reply)).unwrap_err();
    assert_eq!(err, Error::GopherNotFound("Gopher unknown-gopher does not exist".to_string()));
    assert!(err.message().contains("unknown-gopher"));
}

#[test]
fn every_other_status_is_not_found() {
    for status in [0, 199, 201, 204, 301, 302, 400, 500, 503, -1, i32::MAX] {
        let reply = Reply { status_code: status, body: png_bytes() };
        match handle_reply("standard", Ok(reply)) {
            Err(Error::GopherNotFound(m)) => assert_eq!(m, "Gopher standard does not exist"),
            other => panic!("status {} gave {:?}", status, other),
        }
    }
}

#[test]
fn transport_failure_is_response_error() {
    let err = handle_reply("standard", Err("Connection refused".to_string())).unwrap_err();
    assert_eq!(err, Error::Response("Connection refused".to_string()));
    assert_eq!(err.message(), "Connection refused");
}

#[test]
fn write_failure_is_io_error() {
    let save = handle_reply("standard", Ok(Reply { status_code: 200, body: png_bytes() })).unwrap();
    let err = handle_saved(&save, Err("Permission denied".to_string())).unwrap_err();
    assert_eq!(err, Error::IO("Permission denied".to_string()));
    assert_eq!(err.message(), "Permission denied");
}

#[test]
fn same_reply_twice_asks_for_the_same_write() {
    let first = handle_reply("standard", Ok(Reply { status_code: 200, body: png_bytes() })).unwrap();
    let second = handle_reply("standard", Ok(Reply { status_code: 200, body: png_bytes() })).unwrap();
    assert_eq!(first, second);
    assert_eq!(second.bytes, png_bytes());
    assert_eq!(
        handle_saved(&first, Ok(())).unwrap(),
        handle_saved(&second, Ok(())).unwrap()
    );
}

#[test]
fn message_returns_text_of_each_kind() {
    assert_eq!(Error::GopherNotFound("a".to_string()).message(), "a");
    assert_eq!(Error::Response("b".to_string()).message(), "b");
    assert_eq!(Error::IO("c".to_string()).message(), "c");
}
