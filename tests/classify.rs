use unsplash_api::endpoint::{classify, fold, parse_data, parse_err, Errors};
use unsplash_api::error::{Cause, ErrorKind};

fn numbers(b: Vec<u8>) -> Result<Vec<u32>, serde_json::Error> {
    serde_json::from_slice::<Vec<u32>>(&b)
}

#[test]
fn forbidden_with_error_list() {
    let r = classify(403, br#"["Not authorized"]"#.to_vec(), numbers);
    match r {
        Err(e) => {
            assert!(e.kind() == ErrorKind::Forbidden);
            match e.cause() {
                Cause::Server(Errors(list)) => assert_eq!(list, &vec!["Not authorized".to_string()]),
                _ => panic!("expected the server's messages"),
            }
        }
        Ok(_) => panic!("expected an error"),
    }
}

#[test]
fn success_with_undecodable_body() {
    let r = classify(200, b"{not json".to_vec(), numbers);
    match r {
        Err(e) => {
            assert!(e.kind() == ErrorKind::MalformedResponse);
            assert!(matches!(e.cause(), Cause::Json(_)));
        }
        Ok(_) => panic!("expected an error"),
    }
}

#[test]
fn success_decodes_with_the_callers_decoder() {
    match classify(200, b"[1,2,3]".to_vec(), numbers) {
        Ok(v) => assert_eq!(v, vec![1, 2, 3]),
        Err(_) => panic!("expected a value"),
    }
    match classify(299, b"[]".to_vec(), numbers) {
        Ok(v) => assert!(v.is_empty()),
        Err(_) => panic!("expected a value"),
    }
}

#[test]
fn success_body_never_read_as_error_list() {
    // a body that is a valid error list but not the success schema
    let r = classify(201, br#"["oops"]"#.to_vec(), numbers);
    match r {
        Err(e) => {
            assert!(e.kind() == ErrorKind::MalformedResponse);
            assert!(matches!(e.cause(), Cause::Json(_)));
        }
        Ok(_) => panic!("expected an error"),
    }
}

#[test]
fn non_success_never_uses_the_decoder() {
    let r = classify(404, b"[7]".to_vec(), |_b: Vec<u8>| -> Result<Vec<u32>, serde_json::Error> {
        panic!("decoder called")
    });
    match r {
        Err(e) => {
            assert!(e.kind() == ErrorKind::MalformedResponse);
            assert!(matches!(e.cause(), Cause::Json(_)));
        }
        Ok(_) => panic!("expected an error"),
    }
}

#[test]
fn other_failure_with_error_list() {
    let r = classify(500, br#"["a","b"]"#.to_vec(), numbers);
    match r {
        Err(e) => {
            assert!(e.kind() == ErrorKind::MalformedResponse);
            match e.cause() {
                Cause::Server(errors) => assert_eq!(errors.message(), "a\nb"),
                _ => panic!("expected the server's messages"),
            }
        }
        Ok(_) => panic!("expected an error"),
    }
}

#[test]
fn forbidden_with_undecodable_body() {
    let e = parse_err(403, b"<html>");
    assert!(e.kind() == ErrorKind::Forbidden);
    assert!(matches!(e.cause(), Cause::Json(_)));
}

#[test]
fn status_below_success_range() {
    let e = parse_err(199, br#"[]"#);
    assert!(e.kind() == ErrorKind::MalformedResponse);
    match classify(300, br#"["moved"]"#.to_vec(), numbers) {
        Err(e) => assert!(matches!(e.cause(), Cause::Server(_))),
        Ok(_) => panic!("expected an error"),
    }
}

#[test]
fn parse_data_maps_decode_failure() {
    let bad = serde_json::from_slice::<u8>(b"x");
    match parse_data(bad) {
        Err(e) => assert!(e.kind() == ErrorKind::MalformedResponse),
        Ok(_) => panic!("expected an error"),
    }
    match parse_data(serde_json::from_slice::<u8>(b"5")) {
        Ok(v) => assert_eq!(v, 5),
        Err(_) => panic!("expected a value"),
    }
}

#[test]
fn fold_appends_chunks_in_order() {
    let v = fold(Vec::new(), b"ab");
    let v = fold(v, b"");
    let v = fold(v, b"cd");
    assert_eq!(v, b"abcd".to_vec());
}

#[test]
fn errors_message_joins_lines() {
    assert_eq!(Errors(vec!["x".to_string()]).message(), "x");
    assert_eq!(Errors(Vec::new()).message(), "");
}

#[test]
fn error_messages() {
    assert_eq!(ErrorKind::Request.message(), "Failed to send request.");
    assert_eq!(ErrorKind::Forbidden.message(), "Not authorized to access endpoint.");
    let e = parse_err(400, b"[]");
    assert_eq!(e.message(), "Failed to parse response from Unsplash.");
}
