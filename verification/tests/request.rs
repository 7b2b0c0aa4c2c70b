use static_server::parse_request;
use static_server::request::try_parse_request;
use static_server::text::is_whitespace;

fn parts(method: &str, path: &str) -> (String, String) {
    (String::from(method), String::from(path))
}

#[test]
fn request_line_with_version() {
    let line = String::from("GET /local/etc/hosts HTTP/1.1\r\n");
    assert_eq!(parse_request(line), parts("GET", "/local/etc/hosts"));
}

#[test]
fn request_line_without_version() {
    assert_eq!(parse_request(String::from("GET /x\r\n")), parts("GET", "/x"));
    assert_eq!(parse_request(String::from("GET /x\n")), parts("GET", "/x"));
    assert_eq!(parse_request(String::from("GET /x")), parts("GET", "/x"));
}

#[test]
fn method_is_taken_as_sent() {
    assert_eq!(parse_request(String::from("POST /x HTTP/1.1\r\n")), parts("POST", "/x"));
    assert_eq!(parse_request(String::from("get /x\r\n")), parts("get", "/x"));
    assert_eq!(parse_request(String::from(" /x\r\n")), parts("", "/x"));
    assert_eq!(parse_request(String::from("\tGET /x\r\n")), parts("\tGET", "/x"));
}

#[test]
fn path_is_the_second_token_trimmed() {
    assert_eq!(parse_request(String::from("GET \t/x\t\r\n")), parts("GET", "/x"));
    assert_eq!(parse_request(String::from("GET /a\tb\r\n")), parts("GET", "/a\tb"));
    assert_eq!(parse_request(String::from("GET \u{a0}/x\u{3000}\n")), parts("GET", "/x"));
}

#[test]
fn second_token_may_be_empty() {
    assert_eq!(parse_request(String::from("GET  /x HTTP/1.1\r\n")), parts("GET", ""));
    assert_eq!(parse_request(String::from("GET ")), parts("GET", ""));
    assert_eq!(parse_request(String::from("GET \r\n")), parts("GET", ""));
    assert_eq!(parse_request(String::from(" ")), parts("", ""));
}

#[test]
fn non_ascii_request_line() {
    let line = String::from("GET /caf\u{e9}/\u{65e5}\u{672c}.jpg HTTP/1.1\r\n");
    assert_eq!(parse_request(line), parts("GET", "/caf\u{e9}/\u{65e5}\u{672c}.jpg"));
}

#[test]
fn line_without_a_space_names_no_path() {
    assert_eq!(try_parse_request(""), None);
    assert_eq!(try_parse_request("GET"), None);
    assert_eq!(try_parse_request("GET\r\n"), None);
    assert_eq!(try_parse_request("GET\t/x\r\n"), None);
    assert_eq!(try_parse_request("GET /x\r\n"), Some(parts("GET", "/x")));
}

#[test]
fn parsing_agrees_with_split_and_trim() {
    for line in [
        "GET /local/etc/hosts HTTP/1.1\r\n",
        "GET /x\r\n",
        "GET  /x\r\n",
        " GET /x\r\n",
        "GET \t /x \t\r\n",
        "HEAD \u{2003}/y\u{2028} HTTP/1.0",
        "a b c d e",
        " ",
        "  ",
        "\r\n \r\n",
        "GET \u{85}\u{1680}/z\u{202f}\u{205f}\r\n",
    ] {
        let mut tokens = line.split(' ');
        let method = tokens.next().unwrap().to_string();
        let path = tokens.next().unwrap().trim().to_string();
        assert_eq!(parse_request(String::from(line)), (method, path));
    }
}

#[test]
fn whitespace_is_the_unicode_property() {
    for c in ['\t', '\n', '\u{b}', '\u{c}', '\r', ' ', '\u{85}', '\u{a0}', '\u{3000}'] {
        assert!(is_whitespace(c));
    }
    for c in ['/', 'a', '0', '.', '\u{0}', '\u{8}', '\u{e}', '\u{200b}', '\u{feff}', '\u{180e}'] {
        assert!(!is_whitespace(c));
    }
    for code in 0..=0x10FFFFu32 {
        if let Some(c) = char::from_u32(code) {
            assert_eq!(is_whitespace(c), c.is_whitespace());
        }
    }
}
