use std::collections::BTreeMap;
use vstd::prelude::*;
use vstd::utf8::{
    decode_utf8, encode_utf8, encode_utf8_decode_utf8, is_ascii_chars, is_ascii_chars_encode_utf8,
};

verus! {

/// The text of a list of (key, value) pairs.
pub open spec fn pairs_view(v: Seq<(String, String)>) -> Seq<(Seq<char>, Seq<char>)> {
    v.map_values(|p: (String, String)| (p.0@, p.1@))
}

/// A byte that form encoding writes as it is: an ASCII letter or digit, or
/// one of `*-._`.
pub open spec fn is_unreserved_byte(b: u8) -> bool {
    (48 <= b && b <= 57) || (65 <= b && b <= 90) || (97 <= b && b <= 122) || b == 42 || b == 45
        || b == 46 || b == 95
}

/// The uppercase hexadecimal digit of `d < 16`.
pub open spec fn hex_digit(d: u8) -> char {
    if d < 10 {
        digit_char(d as nat)
    } else if d == 10 {
        'A'
    } else if d == 11 {
        'B'
    } else if d == 12 {
        'C'
    } else if d == 13 {
        'D'
    } else if d == 14 {
        'E'
    } else {
        'F'
    }
}

/// How form encoding writes one byte: an unreserved byte as its character, a
/// space as `+`, any other byte as `%` and two uppercase hexadecimal digits.
pub open spec fn form_byte(b: u8) -> Seq<char> {
    if is_unreserved_byte(b) {
        seq![b as char]
    } else if b == 32 {
        seq!['+']
    } else {
        seq!['%', hex_digit(b / 16), hex_digit(b % 16)]
    }
}

/// How form encoding writes a sequence of bytes, each in turn.
pub open spec fn form_bytes(bs: Seq<u8>) -> Seq<char>
    decreases bs.len(),
{
    if bs.len() == 0 {
        Seq::empty()
    } else {
        form_byte(bs[0]) + form_bytes(bs.drop_first())
    }
}

/// The form-urlencoded text of a string: its UTF-8 bytes, each written by
/// [`form_byte`].
pub open spec fn form_encoded(value: Seq<char>) -> Seq<char> {
    form_bytes(encode_utf8(value))
}

/// A character that form encoding leaves as it is.
pub open spec fn is_unreserved(c: char) -> bool {
    ('0' <= c && c <= '9') || ('A' <= c && c <= 'Z') || ('a' <= c && c <= 'z') || c == '*' || c
        == '-' || c == '.' || c == '_'
}

/// A character that may stand in a form-encoded value.
pub open spec fn is_form_char(c: char) -> bool {
    is_unreserved(c) || c == '+' || c == '%'
}

/// Every character of `s` is left as it is by form encoding.
pub open spec fn all_unreserved(s: Seq<char>) -> bool {
    forall|i: int| 0 <= i < s.len() ==> is_unreserved(#[trigger] s[i])
}

/// A key that holds neither of the separators `&` and `=`.
pub open spec fn is_plain_key(k: Seq<char>) -> bool {
    forall|i: int| 0 <= i < k.len() ==> #[trigger] k[i] != '&' && k[i] != '='
}

/// One encoded parameter, `key=value`.
pub open spec fn param_text(key: Seq<char>, value: Seq<char>) -> Seq<char> {
    key + seq!['='] + form_encoded(value)
}

/// The encoded parameters, joined by `&`, in order.
pub open spec fn params_text(fields: Seq<(Seq<char>, Seq<char>)>) -> Seq<char>
    decreases fields.len(),
{
    if fields.len() == 0 {
        Seq::empty()
    } else if fields.len() == 1 {
        param_text(fields[0].0, fields[0].1)
    } else {
        params_text(fields.drop_last()) + seq!['&'] + param_text(fields.last().0, fields.last().1)
    }
}

/// The query string of a list of present fields: empty when there is none,
/// else `?` followed by the encoded parameters.
pub open spec fn encoded_query(fields: Seq<(Seq<char>, Seq<char>)>) -> Seq<char> {
    if fields.len() == 0 {
        Seq::empty()
    } else {
        seq!['?'] + params_text(fields)
    }
}

/// Every character of `s` may stand in a form-encoded value.
pub open spec fn all_form_chars(s: Seq<char>) -> bool {
    forall|i: int| 0 <= i < s.len() ==> is_form_char(#[trigger] s[i])
}

/// What form encoding does to each value of `fields`: a value of unreserved
/// characters is sent as it is, and every encoded value holds only form
/// characters, so never a raw `&`, `=` or `?`.
pub open spec fn values_escaped(fields: Seq<(Seq<char>, Seq<char>)>) -> bool {
    forall|j: int|
        0 <= j < fields.len() ==> {
            &&& (all_unreserved(#[trigger] fields[j].1) ==> form_encoded(fields[j].1) == fields[j].1)
            &&& all_form_chars(form_encoded(fields[j].1))
        }
}

/// The fields with each value replaced by its form encoding.
pub open spec fn encoded_fields(fields: Seq<(Seq<char>, Seq<char>)>) -> Seq<(Seq<char>, Seq<char>)> {
    fields.map_values(|p: (Seq<char>, Seq<char>)| (p.0, form_encoded(p.1)))
}

/// Splits text at each `&`.
pub open spec fn split_amp(s: Seq<char>) -> Seq<Seq<char>>
    decreases s.len(),
{
    if s.len() == 0 {
        seq![Seq::empty()]
    } else if s.last() == '&' {
        split_amp(s.drop_last()).push(Seq::empty())
    } else {
        let r = split_amp(s.drop_last());
        r.update(r.len() - 1, r.last().push(s.last()))
    }
}

/// Splits one parameter at its first `=` into key and value.
pub open spec fn split_eq(p: Seq<char>) -> (Seq<char>, Seq<char>)
    decreases p.len(),
{
    if p.len() == 0 {
        (Seq::empty(), Seq::empty())
    } else if p[0] == '=' {
        (Seq::empty(), p.skip(1))
    } else {
        let r = split_eq(p.skip(1));
        (seq![p[0]] + r.0, r.1)
    }
}

/// Reads a query string back into its (key, value) pairs.
pub open spec fn decode_query(s: Seq<char>) -> Seq<(Seq<char>, Seq<char>)> {
    if s.len() == 0 {
        Seq::empty()
    } else {
        split_amp(s.skip(1)).map_values(|p: Seq<char>| split_eq(p))
    }
}

proof fn lemma_split_amp_plain(s: Seq<char>)
    requires
        forall|i: int| 0 <= i < s.len() ==> s[i] != '&',
    ensures
        split_amp(s) == seq![s],
    decreases s.len(),
{
    if s.len() > 0 {
        lemma_split_amp_plain(s.drop_last());
        assert(s.drop_last().push(s.last()) =~= s);
        assert(split_amp(s) =~= seq![s]);
    } else {
        assert(s =~= Seq::<char>::empty());
    }
}

proof fn lemma_split_amp_append(a: Seq<char>, b: Seq<char>)
    requires
        forall|i: int| 0 <= i < b.len() ==> b[i] != '&',
    ensures
        split_amp(a + seq!['&'] + b) == split_amp(a).push(b),
    decreases b.len(),
{
    let s = a + seq!['&'] + b;
    if b.len() == 0 {
        assert(s.drop_last() =~= a);
        assert(b =~= Seq::<char>::empty());
    } else {
        lemma_split_amp_append(a, b.drop_last());
        assert(s.drop_last() =~= a + seq!['&'] + b.drop_last());
        assert(b.drop_last().push(b.last()) =~= b);
        assert(split_amp(s) =~= split_amp(a).push(b));
    }
}

proof fn lemma_split_eq_key(k: Seq<char>, v: Seq<char>)
    requires
        is_plain_key(k),
    ensures
        split_eq(k + seq!['='] + v) == (k, v),
    decreases k.len(),
{
    let p = k + seq!['='] + v;
    if k.len() == 0 {
        assert(p.skip(1) =~= v);
    } else {
        lemma_split_eq_key(k.skip(1), v);
        assert(p.skip(1) =~= k.skip(1) + seq!['='] + v);
        assert(seq![k[0]] + k.skip(1) =~= k);
    }
}

proof fn lemma_form_bytes_chars(bs: Seq<u8>)
    ensures
        all_form_chars(form_bytes(bs)),
    decreases bs.len(),
{
    if bs.len() > 0 {
        let b = bs[0];
        lemma_form_bytes_chars(bs.drop_first());
        let head = form_byte(b);
        assert(all_form_chars(head)) by {
            if is_unreserved_byte(b) {
                assert(head[0] == b as char);
            } else if b != 32 {
                assert(b / 16 < 16 && b % 16 < 16);
            }
        }
        let s = form_bytes(bs);
        assert(s =~= head + form_bytes(bs.drop_first()));
        assert forall|i: int| 0 <= i < s.len() implies is_form_char(#[trigger] s[i]) by {
            if i < head.len() {
                assert(s[i] == head[i]);
            } else {
                assert(s[i] == form_bytes(bs.drop_first())[i - head.len()]);
            }
        }
    }
}

/// Form encoding writes only form characters: never a raw `&`, `=` or `?`.
pub proof fn lemma_form_encoded_chars(value: Seq<char>)
    ensures
        all_form_chars(form_encoded(value)),
{
    lemma_form_bytes_chars(encode_utf8(value));
}

proof fn lemma_form_bytes_unreserved(bs: Seq<u8>)
    requires
        forall|i: int| 0 <= i < bs.len() ==> is_unreserved_byte(#[trigger] bs[i]),
    ensures
        form_bytes(bs) == bs.map_values(|b: u8| b as char),
    decreases bs.len(),
{
    if bs.len() > 0 {
        lemma_form_bytes_unreserved(bs.drop_first());
        assert(form_bytes(bs) =~= bs.map_values(|b: u8| b as char));
    } else {
        assert(form_bytes(bs) =~= bs.map_values(|b: u8| b as char));
    }
}

/// Form encoding leaves a value of unreserved characters as it is.
pub proof fn lemma_unreserved_unchanged(value: Seq<char>)
    requires
        all_unreserved(value),
    ensures
        form_encoded(value) == value,
{
    assert(is_ascii_chars(value));
    is_ascii_chars_encode_utf8(value);
    let bs = encode_utf8(value);
    assert forall|i: int| 0 <= i < bs.len() implies is_unreserved_byte(#[trigger] bs[i]) by {
        assert(is_unreserved(value[i]));
        assert(value[i] as u8 == bs[i]);
    }
    lemma_form_bytes_unreserved(bs);
    assert forall|i: int| 0 <= i < value.len() implies #[trigger] value[i] == (bs[i] as char) by {
        assert(is_unreserved(value[i]));
        assert(value[i] as u8 == bs[i]);
    }
    assert(form_encoded(value) =~= value);
}

/// The value of an uppercase hexadecimal digit.
pub open spec fn hex_value(c: char) -> u8 {
    if c == '0' {
        0
    } else
    if c == '1' {
        1
    } else
    if c == '2' {
        2
    } else
    if c == '3' {
        3
    } else
    if c == '4' {
        4
    } else
    if c == '5' {
        5
    } else
    if c == '6' {
        6
    } else
    if c == '7' {
        7
    } else
    if c == '8' {
        8
    } else
    if c == '9' {
        9
    } else
    if c == 'A' {
        10
    } else
    if c == 'B' {
        11
    } else
    if c == 'C' {
        12
    } else
    if c == 'D' {
        13
    } else
    if c == 'E' {
        14
    } else
    if c == 'F' {
        15
    } else {
        0
    }
}

/// Reads form-encoded text back into bytes: `+` is a space, `%` and two
/// hexadecimal digits are the byte they write, any other character is its
/// own byte.
pub open spec fn form_decode_bytes(s: Seq<char>) -> Seq<u8>
    decreases s.len(),
{
    if s.len() == 0 {
        Seq::empty()
    } else if s[0] == '+' {
        seq![32u8] + form_decode_bytes(s.drop_first())
    } else if s[0] == '%' && s.len() >= 3 {
        seq![(hex_value(s[1]) * 16 + hex_value(s[2])) as u8] + form_decode_bytes(s.skip(3))
    } else {
        seq![s[0] as u8] + form_decode_bytes(s.drop_first())
    }
}

/// The string that form-encoded text stands for: its bytes read back as UTF-8.
pub open spec fn form_decoded(s: Seq<char>) -> Seq<char> {
    decode_utf8(form_decode_bytes(s))
}

proof fn lemma_form_bytes_round_trip(bs: Seq<u8>)
    ensures
        form_decode_bytes(form_bytes(bs)) == bs,
    decreases bs.len(),
{
    if bs.len() > 0 {
        let b = bs[0];
        let rest = form_bytes(bs.drop_first());
        lemma_form_bytes_round_trip(bs.drop_first());
        let s = form_bytes(bs);
        assert(s == form_byte(b) + rest);
        if is_unreserved_byte(b) {
            assert(s[0] == b as char);
            assert(s.drop_first() =~= rest);
            assert((b as char) as u8 == b);
        } else if b == 32 {
            assert(s.drop_first() =~= rest);
        } else {
            assert(s.skip(3) =~= rest);
            assert(s[1] == hex_digit(b / 16) && s[2] == hex_digit(b % 16));
            assert(hex_value(hex_digit(b / 16)) == b / 16);
            assert(hex_value(hex_digit(b % 16)) == b % 16);
            assert((b / 16) * 16 + b % 16 == b);
        }
        assert(form_decode_bytes(s) =~= bs);
    }
}

/// Decoding the form encoding of a string gives the string back.
pub proof fn lemma_form_round_trip(value: Seq<char>)
    ensures
        form_decoded(form_encoded(value)) == value,
{
    lemma_form_bytes_round_trip(encode_utf8(value));
    encode_utf8_decode_utf8(value);
}

/// The fields with each value read back from its form encoding.
pub open spec fn decoded_fields(fields: Seq<(Seq<char>, Seq<char>)>) -> Seq<(Seq<char>, Seq<char>)> {
    fields.map_values(|p: (Seq<char>, Seq<char>)| (p.0, form_decoded(p.1)))
}

/// Reading back the values of the encoded fields gives the fields.
pub proof fn lemma_fields_round_trip(fields: Seq<(Seq<char>, Seq<char>)>)
    ensures
        decoded_fields(encoded_fields(fields)) == fields,
{
    assert forall|j: int| 0 <= j < fields.len() implies #[trigger] decoded_fields(
        encoded_fields(fields),
    )[j] == fields[j] by {
        lemma_form_round_trip(fields[j].1);
    }
    assert(decoded_fields(encoded_fields(fields)) =~= fields);
}

/// Every value is escaped as [`values_escaped`] says.
pub proof fn lemma_values_escaped(fields: Seq<(Seq<char>, Seq<char>)>)
    ensures
        values_escaped(fields),
{
    assert forall|j: int| 0 <= j < fields.len() implies {
        &&& (all_unreserved(#[trigger] fields[j].1) ==> form_encoded(fields[j].1) == fields[j].1)
        &&& all_form_chars(form_encoded(fields[j].1))
    } by {
        lemma_form_encoded_chars(fields[j].1);
        if all_unreserved(fields[j].1) {
            lemma_unreserved_unchanged(fields[j].1);
        }
    }
}

/// Relies on serde_url_params::to_string: a map of one entry is written as
/// `key=value`, the key as it is and the value's UTF-8 bytes through
/// url::form_urlencoded::byte_serialize, which writes each byte as
/// [`form_byte`] does.
#[verifier::external_body]
fn url_param(key: &str, value: &str) -> (r: String)
    ensures
        r@ == key@ + seq!['='] + form_encoded(value@),
{
    let mut map = BTreeMap::new();
    map.insert(key, value);
    serde_url_params::to_string(&map).unwrap()
}


/// The decimal digits of `n`, most significant first.
pub open spec fn decimal_text(n: nat) -> Seq<char>
    decreases n,
{
    if n < 10 {
        seq![digit_char(n)]
    } else {
        decimal_text(n / 10).push(digit_char(n % 10))
    }
}

/// The digit character of `d < 10`.
pub open spec fn digit_char(d: nat) -> char {
    if d == 0 {
        '0'
    } else if d == 1 {
        '1'
    } else if d == 2 {
        '2'
    } else if d == 3 {
        '3'
    } else if d == 4 {
        '4'
    } else if d == 5 {
        '5'
    } else if d == 6 {
        '6'
    } else if d == 7 {
        '7'
    } else if d == 8 {
        '8'
    } else {
        '9'
    }
}

/// The text of a boolean.
pub open spec fn bool_text(b: bool) -> Seq<char> {
    if b {
        seq!['t', 'r', 'u', 'e']
    } else {
        seq!['f', 'a', 'l', 's', 'e']
    }
}

/// The parts joined with `sep` between each two.
pub open spec fn join_text(parts: Seq<Seq<char>>, sep: Seq<char>) -> Seq<char>
    decreases parts.len(),
{
    if parts.len() == 0 {
        Seq::empty()
    } else if parts.len() == 1 {
        parts[0]
    } else {
        join_text(parts.drop_last(), sep) + sep + parts.last()
    }
}

/// The decimal text of a number is made of digits, which form encoding
/// leaves as they are.
pub proof fn lemma_decimal_unreserved(n: nat)
    ensures
        all_unreserved(decimal_text(n)),
    decreases n,
{
    if n >= 10 {
        lemma_decimal_unreserved(n / 10);
        let s = decimal_text(n);
        assert forall|i: int| 0 <= i < s.len() implies is_unreserved(#[trigger] s[i]) by {
            if i < s.len() - 1 {
                assert(s[i] == decimal_text(n / 10)[i]);
            }
        }
    }
}

/// `true` and `false` are made of letters, which form encoding leaves as
/// they are.
pub proof fn lemma_bool_unreserved(b: bool)
    ensures
        all_unreserved(bool_text(b)),
{
}

fn digit_str(d: usize) -> (r: &'static str)
    requires
        d < 10,
    ensures
        r@ == seq![digit_char(d as nat)],
{
    proof {
        reveal_strlit("0");
        reveal_strlit("1");
        reveal_strlit("2");
        reveal_strlit("3");
        reveal_strlit("4");
        reveal_strlit("5");
        reveal_strlit("6");
        reveal_strlit("7");
        reveal_strlit("8");
        reveal_strlit("9");
    }
    match d {
        0 => "0",
        1 => "1",
        2 => "2",
        3 => "3",
        4 => "4",
        5 => "5",
        6 => "6",
        7 => "7",
        8 => "8",
        _ => "9",
    }
}

/// Writes `n` in decimal.
pub fn decimal(n: usize) -> (r: String)
    ensures
        r@ == decimal_text(n as nat),
        all_unreserved(r@),
    decreases n,
{
    proof {
        lemma_decimal_unreserved(n as nat);
    }
    if n < 10 {
        String::from_str(digit_str(n))
    } else {
        let mut s = decimal(n / 10);
        s.append(digit_str(n % 10));
        s
    }
}

/// Writes a boolean as `true` or `false`.
pub fn bool_str(b: bool) -> (r: String)
    ensures
        r@ == bool_text(b),
        all_unreserved(r@),
{
    proof {
        reveal_strlit("true");
        reveal_strlit("false");
    }
    if b {
        String::from_str("true")
    } else {
        String::from_str("false")
    }
}

/// Joins the parts with `sep` between each two.
pub fn join(parts: &Vec<String>, sep: &str) -> (r: String)
    ensures
        r@ == join_text(parts@.map_values(|p: String| p@), sep@),
{
    let ghost pv = parts@.map_values(|p: String| p@);
    let mut out = String::new();
    let mut i: usize = 0;
    while i < parts.len()
        invariant
            i <= parts@.len(),
            pv == parts@.map_values(|p: String| p@),
            out@ == join_text(pv.take(i as int), sep@),
        decreases parts.len() - i,
    {
        if i > 0 {
            out.append(sep);
        }
        out.append(parts[i].as_str());
        proof {
            let t = pv.take(i as int + 1);
            assert(t.drop_last() =~= pv.take(i as int));
            if i == 0 {
                assert(out@ =~= join_text(t, sep@));
            }
        }
        i += 1;
    }
    proof {
        assert(pv.take(parts@.len() as int) =~= pv);
    }
    out
}

/// Encodes the present fields of a configuration as a query string: empty
/// when there is none, else `?` followed by one `key=value` pair per field,
/// joined by `&`, in order. Splitting the result at `&` and each part at its
/// first `=` gives back the keys and the encoded values, and decoding those
/// values gives back the fields. A value of unreserved characters is sent as
/// it is, and no encoded value holds a raw `&`, `=` or `?`.
pub fn encode(fields: &Vec<(String, String)>) -> (r: String)
    ensures
        r@ == encoded_query(pairs_view(fields@)),
        values_escaped(pairs_view(fields@)),
        fields@.len() == 0 ==> r@.len() == 0,
        fields@.len() > 0 ==> r@.len() > 0 && r@[0] == '?',
        plain_keys(pairs_view(fields@)) ==> decode_query(r@) == encoded_fields(pairs_view(fields@)),
        plain_keys(pairs_view(fields@)) ==> decoded_fields(decode_query(r@)) == pairs_view(fields@),
        plain_keys(pairs_view(fields@)) && (forall|j: int|
            0 <= j < fields@.len() ==> all_unreserved(#[trigger] fields@[j].1@)) ==> decode_query(r@)
            == pairs_view(fields@),
{
    let ghost pv = pairs_view(fields@);
    let ghost plain = forall|j: int| 0 <= j < pv.len() ==> is_plain_key(#[trigger] pv[j].0);
    let mut out = String::new();
    let mut i: usize = 0;
    while i < fields.len()
        invariant
            i <= fields@.len(),
            pv == pairs_view(fields@),
            plain == forall|j: int| 0 <= j < pv.len() ==> is_plain_key(#[trigger] pv[j].0),
            i == 0 ==> out@.len() == 0,
            i > 0 ==> out@ == seq!['?'] + params_text(pv.take(i as int)),
            values_escaped(pv.take(i as int)),
            plain && i > 0 ==> split_amp(out@.skip(1)) == pv.take(i as int).map_values(
                |p: (Seq<char>, Seq<char>)| param_text(p.0, p.1),
            ),
        decreases fields.len() - i,
    {
        let param = url_param(fields[i].0.as_str(), fields[i].1.as_str());
        let ghost old_out = out@;
        proof {
            reveal_strlit("?");
            reveal_strlit("&");
        }
        if i == 0 {
            out.append("?");
        } else {
            out.append("&");
        }
        out.append(param.as_str());
        proof {
            let k = pv[i as int].0;
            let v = pv[i as int].1;
            assert(k == fields@[i as int].0@ && v == fields@[i as int].1@);
            let t = pv.take(i as int + 1);
            assert(t.drop_last() =~= pv.take(i as int));
            assert(t.last() == pv[i as int]);
            if all_unreserved(v) {
                lemma_unreserved_unchanged(v);
            }
            lemma_form_encoded_chars(v);
            assert forall|j: int| 0 <= j < t.len() implies {
                &&& (all_unreserved(#[trigger] t[j].1) ==> form_encoded(t[j].1) == t[j].1)
                &&& all_form_chars(form_encoded(t[j].1))
            } by {
                if j < i {
                    assert(t[j] == pv.take(i as int)[j]);
                }
            }
            let f = |p: (Seq<char>, Seq<char>)| param_text(p.0, p.1);
            assert(out@ =~= seq!['?'] + params_text(t));
            if plain {
                assert(is_plain_key(k));
                assert forall|m: int| 0 <= m < param@.len() implies param@[m] != '&' by {
                    if m < k.len() {
                        assert(param@[m] == k[m]);
                    } else if m == k.len() {
                        assert(param@[m] == '=');
                    } else {
                        assert(param@[m] == form_encoded(v)[m - k.len() - 1]);
                        assert(is_form_char(form_encoded(v)[m - k.len() - 1]));
                    }
                }
                assert(t.map_values(f) =~= pv.take(i as int).map_values(f).push(param@));
                if i == 0 {
                    assert(out@.skip(1) =~= param@);
                    lemma_split_amp_plain(param@);
                } else {
                    assert(out@.skip(1) =~= old_out.skip(1) + seq!['&'] + param@);
                    lemma_split_amp_append(old_out.skip(1), param@);
                }
            }
        }
        i += 1;
    }
    proof {
        lemma_fields_round_trip(pv);
        assert(pv.take(fields@.len() as int) =~= pv);
        if plain && pv.len() > 0 {
            let f = |p: (Seq<char>, Seq<char>)| param_text(p.0, p.1);
            let d = decode_query(out@);
            assert(d == pv.map_values(f).map_values(|p: Seq<char>| split_eq(p)));
            assert forall|j: int| 0 <= j < pv.len() implies #[trigger] d[j] == (
                pv[j].0,
                form_encoded(pv[j].1),
            ) by {
                lemma_split_eq_key(pv[j].0, form_encoded(pv[j].1));
            }
            assert(d =~= encoded_fields(pv));
            if forall|j: int| 0 <= j < fields@.len() ==> all_unreserved(#[trigger] fields@[j].1@) {
                assert forall|j: int| 0 <= j < pv.len() implies #[trigger] d[j] == pv[j] by {
                    assert(pv[j] == (fields@[j].0@, fields@[j].1@));
                    assert(all_unreserved(pv[j].1));
                    assert(pv.take(fields@.len() as int)[j] == pv[j]);
                }
                assert(d =~= pv);
            }
        }
        if plain && pv.len() == 0 {
            assert(decode_query(out@) =~= encoded_fields(pv));
            assert(decode_query(out@) =~= pv);
        }
        if pv.len() > 0 {
            assert(out@[0] == '?');
        }
    }
    out
}

/// The field `key` where its value is present, else nothing.
pub open spec fn opt_field(key: Seq<char>, value: Option<Seq<char>>) -> Seq<(Seq<char>, Seq<char>)> {
    match value {
        Some(v) => seq![(key, v)],
        None => Seq::empty(),
    }
}

/// The text of an optional string.
pub open spec fn opt_text(s: Option<String>) -> Option<Seq<char>> {
    match s {
        Some(x) => Some(x@),
        None => None,
    }
}

/// The text of an optional number.
pub open spec fn opt_decimal(n: Option<usize>) -> Option<Seq<char>> {
    match n {
        Some(x) => Some(decimal_text(x as nat)),
        None => None,
    }
}

/// The text of an optional boolean.
pub open spec fn opt_bool(b: Option<bool>) -> Option<Seq<char>> {
    match b {
        Some(x) => Some(bool_text(x)),
        None => None,
    }
}

/// Every key of `fields` holds neither `&` nor `=`.
pub open spec fn plain_keys(fields: Seq<(Seq<char>, Seq<char>)>) -> bool {
    forall|j: int| 0 <= j < fields.len() ==> is_plain_key(#[trigger] fields[j].0)
}

/// Appends the field `key` to `fields` where its value is present.
pub fn push_field(fields: &mut Vec<(String, String)>, key: &str, value: Option<String>)
    ensures
        plain_keys(pairs_view(old(fields)@)) && is_plain_key(key@) ==> plain_keys(
            pairs_view(final(fields)@),
        ),
        pairs_view(final(fields)@) == pairs_view(old(fields)@) + opt_field(key@, opt_text(value)),
{
    match value {
        Some(v) => {
            fields.push((String::from_str(key), v));
        },
        None => {},
    }
    proof {
        assert(pairs_view(fields@) =~= pairs_view(old(fields)@) + opt_field(key@, opt_text(value)));
    }
}

/// The text of an optional number.
pub fn decimal_opt(n: Option<usize>) -> (r: Option<String>)
    ensures
        opt_text(r) == opt_decimal(n),
{
    match n {
        Some(x) => Some(decimal(x)),
        None => None,
    }
}

/// The text of an optional boolean.
pub fn bool_opt(b: Option<bool>) -> (r: Option<String>)
    ensures
        opt_text(r) == opt_bool(b),
{
    match b {
        Some(x) => Some(bool_str(x)),
        None => None,
    }
}

/// A value that can be written as a query string.
pub trait ToQuery {
    /// The fields that are present, in declaration order, each as its key and
    /// the text of its value.
    spec fn query_fields_spec(&self) -> Seq<(Seq<char>, Seq<char>)>;

    /// The fields that are present, in declaration order, each as its key and
    /// the text of its value.
    fn query_fields(&self) -> (r: Vec<(String, String)>)
        ensures
            pairs_view(r@) == self.query_fields_spec(),
            plain_keys(pairs_view(r@)),
    ;

    /// The query string: empty when no field is present, else `?` followed by
    /// one encoded `key=value` pair per present field, in declaration order.
    /// Splitting it at `&` and each part at its first `=` gives back the
    /// present fields, each value in its encoded form, and decoding the values
    /// gives back the fields themselves. A value of unreserved
    /// characters is sent as it is, and no encoded value holds a raw `&`, `=`
    /// or `?`.
    fn to_query(&self) -> (r: String)
        ensures
            r@ == encoded_query(self.query_fields_spec()),
            values_escaped(self.query_fields_spec()),
            decode_query(r@) == encoded_fields(self.query_fields_spec()),
            decoded_fields(decode_query(r@)) == self.query_fields_spec(),
    ;
}

impl ToQuery for () {
    open spec fn query_fields_spec(&self) -> Seq<(Seq<char>, Seq<char>)> {
        Seq::empty()
    }

    fn query_fields(&self) -> (r: Vec<(String, String)>) {
        Vec::new()
    }

    fn to_query(&self) -> (r: String) {
        encode(&self.query_fields())
    }
}

} // verus!
