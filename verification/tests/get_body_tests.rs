use photometer::get_body::{request_text, BODY_LIMIT};

fn err_text(r: Result<String, photometer::types::CommonError>) -> String {
    match r {
        Err(e) => e.0,
        Ok(s) => panic!("expected an error, got {:?}", s),
    }
}

#[test]
fn get_without_query_is_refused() {
    assert_eq!(err_text(request_text(true, None, None)), "no query part found");
}

#[test]
fn get_query_is_percent_decoded() {
    let q = b"{%22page%22:1,%22a+b%22:%22x%20y%22}";
    assert_eq!(request_text(true, Some(q), None).ok().unwrap(), "{\"page\":1,\"a+b\":\"x y\"}");
    // a lone or broken escape stays as it is
    assert_eq!(request_text(true, Some(b"50%25%2%zz"), None).ok().unwrap(), "50%%2%zz");
    // decoded bytes that are no UTF-8 become U+FFFD
    assert_eq!(request_text(true, Some(b"a%FFb"), None).ok().unwrap(), "a\u{fffd}b");
}

#[test]
fn body_read_failure_and_limit() {
    assert_eq!(err_text(request_text(false, None, None)), "error while reading request body");
    let big = vec![b' '; BODY_LIMIT];
    assert_eq!(err_text(request_text(false, None, Some(&big))), "request body too BIG!");
    let almost = vec![b' '; BODY_LIMIT - 1];
    assert_eq!(request_text(false, None, Some(&almost)).ok().unwrap().len(), BODY_LIMIT - 1);
    assert_eq!(BODY_LIMIT, 2 * 1024 * 1024);
}

#[test]
fn body_is_read_as_utf8_or_empty() {
    let body = "{\"name\":\"Grüße\"}".as_bytes().to_vec();
    assert_eq!(request_text(false, Some(b"ignored"), Some(&body)).ok().unwrap(), "{\"name\":\"Grüße\"}");
    let bad = vec![b'{', 0xff, b'}'];
    assert_eq!(request_text(false, None, Some(&bad)).ok().unwrap(), "");
}
