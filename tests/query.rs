use unsplash_api::endpoint::query::{bool_str, decimal, join};
use unsplash_api::endpoint::{encode, ToQuery};

fn pairs(v: &[(&str, &str)]) -> Vec<(String, String)> {
    v.iter().map(|(k, v)| (k.to_string(), v.to_string())).collect()
}

#[test]
fn encode_no_fields_is_empty() {
    assert_eq!(encode(&Vec::new()), "");
    assert_eq!(().to_query(), "");
}

#[test]
fn encode_starts_with_separator_and_keeps_order() {
    assert_eq!(encode(&pairs(&[("b", "2"), ("a", "1")])), "?b=2&a=1");
    assert_eq!(encode(&pairs(&[("query", "cats")])), "?query=cats");
}

#[test]
fn encode_escapes_values() {
    assert_eq!(encode(&pairs(&[("q", "a b&c=d")])), "?q=a+b%26c%3Dd");
    assert_eq!(encode(&pairs(&[("q", "é")])), "?q=%C3%A9");
    assert_eq!(encode(&pairs(&[("q", "")])), "?q=");
}

#[test]
fn encode_round_trips_through_splitting() {
    let fields = pairs(&[("username", "jo"), ("w", "300"), ("query", "x.y_z-*")]);
    let q = encode(&fields);
    assert!(q.starts_with('?'));
    let back: Vec<(String, String)> = q[1..]
        .split('&')
        .map(|p| {
            let (k, v) = p.split_at(p.find('=').unwrap());
            (k.to_string(), v[1..].to_string())
        })
        .collect();
    assert_eq!(back, fields);
}

#[test]
fn decimal_writes_digits() {
    assert_eq!(decimal(0), "0");
    assert_eq!(decimal(7), "7");
    assert_eq!(decimal(1234567890), "1234567890");
    assert_eq!(decimal(usize::MAX), usize::MAX.to_string());
}

#[test]
fn bool_text_is_true_or_false() {
    assert_eq!(bool_str(true), "true");
    assert_eq!(bool_str(false), "false");
}

#[test]
fn join_puts_separator_between_parts() {
    let parts = vec!["1".to_string(), "22".to_string(), "333".to_string()];
    assert_eq!(join(&parts, ","), "1,22,333");
    assert_eq!(join(&Vec::new(), ","), "");
    assert_eq!(join(&vec!["only".to_string()], ","), "only");
}

#[test]
fn encoded_values_hold_no_separators() {
    let q = encode(&pairs(&[("q", "a?b&c=d/e")]));
    assert_eq!(q, "?q=a%3Fb%26c%3Dd%2Fe");
    assert!(!q[1..].contains('?'));
    assert_eq!(q[1..].matches('&').count(), 0);
    assert_eq!(q[1..].matches('=').count(), 1);
}

fn form_decode(s: &str) -> String {
    let b = s.as_bytes();
    let mut out = Vec::new();
    let mut i = 0;
    while i < b.len() {
        match b[i] {
            b'+' => {
                out.push(b' ');
                i += 1;
            }
            b'%' => {
                out.push(u8::from_str_radix(&s[i + 1..i + 3], 16).unwrap());
                i += 3;
            }
            c => {
                out.push(c);
                i += 1;
            }
        }
    }
    String::from_utf8(out).unwrap()
}

#[test]
fn encode_round_trips_through_percent_decoding() {
    let fields = pairs(&[("query", "red car & blue=sky?"), ("username", "zoë_ü*"), ("w", "12")]);
    let q = encode(&fields);
    let back: Vec<(String, String)> = q[1..]
        .split('&')
        .map(|p| {
            let (k, v) = p.split_at(p.find('=').unwrap());
            (k.to_string(), form_decode(&v[1..]))
        })
        .collect();
    assert_eq!(back, fields);
}
