use spotify_mini_player::redirect_uri::{
    handle_connection, listen_address, push_decimal, redirect_uri_web_server, respond_with_error,
    respond_with_success, separates, CONFIRMATION_PAGE, REDIRECT_ORIGIN,
};

fn success() -> String {
    format!(
        "HTTP/1.1 200 OK\r\ncontent-length: {}\r\n\r\n{}",
        CONFIRMATION_PAGE.len(),
        CONFIRMATION_PAGE
    )
}

fn buffer(request: &[u8]) -> Vec<u8> {
    let mut buffer = vec![0u8; 1000];
    buffer[..request.len()].copy_from_slice(request);
    buffer
}

#[test]
fn success_response_announces_the_page() {
    assert_eq!(respond_with_success(), success());
    assert!(respond_with_success().starts_with("HTTP/1.1 200 OK\r\n"));
    assert!(respond_with_success().ends_with("</html>"));
}

#[test]
fn error_response_carries_the_message() {
    assert_eq!(
        respond_with_error("Malformed request"),
        "HTTP/1.1 400 Bad Request\r\n\r\n400 - Bad Request - Malformed request"
    );
    assert_eq!(respond_with_error(""), "HTTP/1.1 400 Bad Request\r\n\r\n400 - Bad Request - ");
}

#[test]
fn origin_is_localhost() {
    assert_eq!(REDIRECT_ORIGIN, "http://localhost");
}

#[test]
fn well_formed_request_is_captured() {
    let request = b"GET /callback?code=abc&state=xyz HTTP/1.1\r\nHost: localhost:8585\r\n\r\n";
    let handled = handle_connection(&buffer(request));
    assert_eq!(handled.url, Some("http://localhost/callback?code=abc&state=xyz".to_string()));
    assert_eq!(handled.response, success());
}

#[test]
fn request_without_padding_is_captured() {
    let handled = handle_connection(b"GET /?code=1 HTTP/1.1\r\n\r\n");
    assert_eq!(handled.url, Some("http://localhost/?code=1".to_string()));
    let handled = handle_connection(b"GET /only");
    assert_eq!(handled.url, Some("http://localhost/only".to_string()));
}

#[test]
fn leading_separators_are_skipped() {
    let handled = handle_connection(b" \r\n\tGET\t \n/x?y=z\rHTTP/1.1");
    assert_eq!(handled.url, Some("http://localhost/x?y=z".to_string()));
}

#[test]
fn unicode_separators_split_words() {
    let handled = handle_connection("GET\u{00A0}/a\u{3000}rest".as_bytes());
    assert_eq!(handled.url, Some("http://localhost/a".to_string()));
    let handled = handle_connection("GET\u{2003}/b\u{0085}rest".as_bytes());
    assert_eq!(handled.url, Some("http://localhost/b".to_string()));
}

#[test]
fn target_may_hold_any_other_character() {
    let handled = handle_connection("GET /caf\u{00E9}?q=\u{1F3B5}\u{200B} HTTP/1.1".as_bytes());
    assert_eq!(handled.url, Some("http://localhost/caf\u{00E9}?q=\u{1F3B5}\u{200B}".to_string()));
}

#[test]
fn request_with_one_word_is_malformed() {
    for request in [&b"GET"[..], b"GET \r\n", b"", b"   \r\n\t ", b"\0\0\0\0"] {
        let handled = handle_connection(request);
        assert_eq!(handled.url, None);
        assert_eq!(
            handled.response,
            "HTTP/1.1 400 Bad Request\r\n\r\n400 - Bad Request - Malformed request"
        );
    }
}

#[test]
fn empty_buffer_is_malformed() {
    let handled = handle_connection(&buffer(b""));
    assert_eq!(handled.url, None);
    assert_eq!(handled.response, respond_with_error("Malformed request"));
}

#[test]
fn padding_belongs_to_the_last_word() {
    let handled = handle_connection(&buffer(b"GET /end"));
    let url = handled.url.unwrap();
    assert!(url.starts_with("http://localhost/end\0"));
    assert_eq!(url.len(), "http://localhost".len() + 1000 - 4);
}

#[test]
fn invalid_utf8_is_refused() {
    let handled = handle_connection(&[0x47, 0x45, 0x54, 0x20, 0xFF, 0xFE, 0x20, 0x48]);
    assert_eq!(handled.url, None);
    let expected = format!(
        "HTTP/1.1 400 Bad Request\r\n\r\n400 - Bad Request - Invalid UTF-8 sequence: {}",
        String::from_utf8(vec![0x47, 0x45, 0x54, 0x20, 0xFF, 0xFE, 0x20, 0x48]).unwrap_err()
    );
    assert_eq!(handled.response, expected);
    assert!(handled.response.contains("Invalid UTF-8 sequence: invalid utf-8"));
}

#[test]
fn request_cut_inside_a_character_is_refused() {
    let handled = handle_connection(&"GET /caf\u{00E9}".as_bytes()[..9]);
    assert_eq!(handled.url, None);
    assert!(handled.response.starts_with("HTTP/1.1 400 Bad Request\r\n\r\n"));
}

#[test]
fn what_follows_the_target_does_not_matter() {
    let short = handle_connection(b"GET /cb?code=Q HTTP/1.1\r\n");
    let long = handle_connection(b"GET /cb?code=Q HTTP/1.1\r\nCookie: a very long header that goes on");
    let cut = handle_connection(b"GET /cb?code=Q HT");
    assert_eq!(short.url, Some("http://localhost/cb?code=Q".to_string()));
    assert_eq!(long.url, short.url);
    assert_eq!(cut.url, short.url);
}

#[test]
fn capture_survives_a_malformed_first_connection() {
    let requests = vec![vec![0xC3u8, 0x28, 0xA0, 0xA1], b"GET /callback?code=42 HTTP/1.1\r\n\r\n".to_vec()];
    let capture = redirect_uri_web_server(&requests);
    assert_eq!(capture.url, Some("http://localhost/callback?code=42".to_string()));
    assert_eq!(capture.responses.len(), 2);
    assert!(capture.responses[0].starts_with("HTTP/1.1 400 Bad Request\r\n\r\n400 - Bad Request - Invalid UTF-8 sequence: "));
    assert_eq!(capture.responses[1], success());
}

#[test]
fn capture_stops_at_the_first_redirect() {
    let requests = vec![
        b"PING".to_vec(),
        b"GET /first HTTP/1.1".to_vec(),
        b"GET /second HTTP/1.1".to_vec(),
        vec![0xFF],
    ];
    let capture = redirect_uri_web_server(&requests);
    assert_eq!(capture.url, Some("http://localhost/first".to_string()));
    assert_eq!(
        capture.responses,
        vec![respond_with_error("Malformed request"), respond_with_success()]
    );
}

#[test]
fn capture_without_redirect_answers_every_request() {
    let requests = vec![b"PING".to_vec(), vec![0x80], Vec::new()];
    let capture = redirect_uri_web_server(&requests);
    assert_eq!(capture.url, None);
    assert_eq!(capture.responses.len(), 3);
    assert_eq!(capture.responses[0], respond_with_error("Malformed request"));
    assert!(capture.responses[1].contains("Invalid UTF-8 sequence"));
    assert_eq!(capture.responses[2], respond_with_error("Malformed request"));
    let capture = redirect_uri_web_server(&Vec::new());
    assert_eq!(capture.url, None);
    assert!(capture.responses.is_empty());
}

#[test]
fn separators_are_the_white_space_characters() {
    let mut code = 0u32;
    while code <= 0x10FFFF {
        if let Some(c) = char::from_u32(code) {
            assert_eq!(separates(c), c.is_whitespace(), "U+{:04X}", code);
        }
        code += 1;
    }
}

#[test]
fn numbers_are_written_in_decimal() {
    for n in [0usize, 1, 9, 10, 11, 99, 100, 101, 1000, 8585, 65535, 1234567890, usize::MAX] {
        let mut text = String::from("n=");
        push_decimal(&mut text, n);
        assert_eq!(text, format!("n={}", n));
    }
}

#[test]
fn capture_listens_on_the_loopback_address() {
    assert_eq!(listen_address(8585), "127.0.0.1:8585");
    assert_eq!(listen_address(0), "127.0.0.1:0");
    assert_eq!(listen_address(u16::MAX), "127.0.0.1:65535");
}

#[test]
fn target_is_the_second_word() {
    let alphabet = ['a', '/', ' ', '\n', '\u{00A0}', '\u{2028}', '\0', '\u{00E9}'];
    let mut texts = vec![String::new()];
    for _ in 0..5 {
        let mut longer = Vec::new();
        for text in &texts {
            for c in alphabet {
                let mut next = text.clone();
                next.push(c);
                longer.push(next);
            }
        }
        for text in &texts {
            let expected = text.split_whitespace().nth(1).map(|word| format!("http://localhost{}", word));
            assert_eq!(handle_connection(text.as_bytes()).url, expected, "{:?}", text);
        }
        texts = longer;
    }
    for text in &texts {
        let expected = text.split_whitespace().nth(1).map(|word| format!("http://localhost{}", word));
        assert_eq!(handle_connection(text.as_bytes()).url, expected, "{:?}", text);
    }
}

#[test]
fn what_was_received_of_a_cut_target_is_captured() {
    let whole = "GET /callback?code=abcdef&state=xyz HTTP/1.1\r\n";
    let whole_url = handle_connection(whole.as_bytes()).url.unwrap();
    for cut in 5..whole.len() {
        let url = handle_connection(&whole.as_bytes()[..cut]).url.unwrap();
        assert!(whole_url.starts_with(&url), "{}", cut);
        if cut > "GET /callback?code=abcdef&state=xyz".len() {
            assert_eq!(url, whole_url);
        }
    }
}
