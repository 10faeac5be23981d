use std::collections::HashMap;

use switchyard_py::{
    header_map_from_pairs, header_map_from_python, request_headers, ExceptionKind, PyFailure,
};

fn build(pairs: &[(&str, &str)]) -> Result<http::HeaderMap, PyFailure> {
    let owned: Vec<(String, String)> =
        pairs.iter().map(|(n, v)| (n.to_string(), v.to_string())).collect();
    let refs: Vec<(&String, &String)> = owned.iter().map(|(n, v)| (n, v)).collect();
    header_map_from_pairs(&refs)
}

fn values(map: &http::HeaderMap, name: &str) -> Vec<Vec<u8>> {
    map.get_all(name).iter().map(|v| v.as_bytes().to_vec()).collect()
}

fn value_error(outcome: Result<http::HeaderMap, PyFailure>) -> String {
    let failure = outcome.unwrap_err();
    assert_eq!(failure.kind, ExceptionKind::ValueError);
    failure.message
}

fn many(count: usize) -> HashMap<String, String> {
    (0..count).map(|i| (format!("x-{i}"), "v".to_string())).collect()
}

#[test]
fn no_pairs_give_an_empty_map() {
    assert_eq!(build(&[]).unwrap().len(), 0);
}

#[test]
fn names_are_stored_in_lower_case() {
    let map = build(&[("X-Session-ID", "abc")]).unwrap();
    let name = map.keys().next().unwrap();
    assert_eq!(name.as_str(), "x-session-id");
    assert_eq!(values(&map, "X-SESSION-id"), vec![b"abc".to_vec()]);
}

#[test]
fn values_of_one_name_stay_in_order() {
    let map = build(&[("a", "1"), ("B", "2"), ("A", "3"), ("a", "1")]).unwrap();
    assert_eq!(map.keys_len(), 2);
    assert_eq!(values(&map, "a"), vec![b"1".to_vec(), b"3".to_vec(), b"1".to_vec()]);
    assert_eq!(values(&map, "b"), vec![b"2".to_vec()]);
}

#[test]
fn letter_case_of_names_makes_no_difference() {
    let lower = build(&[("accept", "x"), ("x-b", "y")]).unwrap();
    let upper = build(&[("ACCEPT", "x"), ("X-B", "y")]).unwrap();
    assert_eq!(lower, upper);
}

#[test]
fn every_token_byte_is_taken_in_a_name_and_no_other_character() {
    let token = "!#$%&'*+-.0123456789ABCXYZ^_`abcxyz|~";
    assert!(build(&[(token, "v")]).is_ok());
    for c in ["\"", "(", ")", ",", "/", ":", ";", "<", "=", ">", "?", "@", "[", "\\", "]", "{", "}"] {
        assert_eq!(value_error(build(&[(c, "v")])), "invalid HTTP header name");
    }
    for c in [" ", "\t", "\0", "\u{7f}", "\u{e9}", ""] {
        assert_eq!(value_error(build(&[(c, "v")])), "invalid HTTP header name");
    }
}

#[test]
fn a_name_has_a_longest_length() {
    let longest = "a".repeat(65535);
    assert!(build(&[(&longest, "v")]).is_ok());
    let longer = "a".repeat(65536);
    assert_eq!(value_error(build(&[(&longer, "v")])), "invalid HTTP header name");
}

#[test]
fn a_value_takes_tabs_spaces_and_text_beyond_ascii() {
    let map = build(&[("a", "\t b\u{e9}~"), ("b", "")]).unwrap();
    assert_eq!(values(&map, "a"), vec![vec![9, 32, 98, 0xc3, 0xa9, 126]]);
    assert_eq!(values(&map, "b"), vec![Vec::<u8>::new()]);
}

#[test]
fn a_value_takes_no_control_character() {
    for v in ["\n", "a\r", "\0", "\u{1f}", "\u{7f}"] {
        assert_eq!(value_error(build(&[("a", v)])), "failed to parse header value");
    }
}

#[test]
fn the_first_bad_pair_is_reported() {
    assert_eq!(value_error(build(&[("ok", "v"), ("a", "\n"), ("", "v")])), "failed to parse header value");
    assert_eq!(value_error(build(&[("ok", "v"), ("", "v"), ("a", "\n")])), "invalid HTTP header name");
    assert_eq!(value_error(build(&[("", "\n")])), "invalid HTTP header name");
}

#[test]
fn a_python_map_gives_every_entry() {
    let headers: HashMap<String, String> =
        [("X-A", "1"), ("x-b", "2")].iter().map(|(n, v)| (n.to_string(), v.to_string())).collect();
    let map = header_map_from_python(&headers).unwrap();
    assert_eq!(map.len(), 2);
    assert_eq!(map["x-a"], "1");
    assert_eq!(map["x-b"], "2");
}

#[test]
fn names_equal_but_for_case_keep_both_values() {
    let headers: HashMap<String, String> =
        [("X-A", "1"), ("x-a", "2")].iter().map(|(n, v)| (n.to_string(), v.to_string())).collect();
    let map = header_map_from_python(&headers).unwrap();
    let mut got = values(&map, "x-a");
    got.sort();
    assert_eq!(got, vec![b"1".to_vec(), b"2".to_vec()]);
}

#[test]
fn one_bad_entry_of_a_python_map_is_refused() {
    let mut headers = many(20);
    headers.insert("bad name".to_string(), "v".to_string());
    assert_eq!(value_error(header_map_from_python(&headers)), "invalid HTTP header name");
}

#[test]
fn few_headers_are_always_taken() {
    assert_eq!(header_map_from_python(&many(6554)).unwrap().len(), 6554);
}

#[test]
fn headers_are_taken_until_the_map_is_full() {
    assert_eq!(header_map_from_python(&many(20000)).unwrap().len(), 20000);
    assert_eq!(header_map_from_python(&many(24576)).unwrap().len(), 24576);
}

#[test]
fn one_bad_entry_among_many_is_reported_as_such() {
    let mut headers = many(20000);
    headers.insert("x-bad".to_string(), "\n".to_string());
    assert_eq!(value_error(header_map_from_python(&headers)), "failed to parse header value");
}

#[test]
fn too_many_headers_are_refused() {
    assert_eq!(value_error(header_map_from_python(&many(24577))), "max size reached");
}

#[test]
fn a_full_map_takes_no_further_value_of_a_known_name() {
    let names: Vec<String> = (0..24576).map(|i| format!("x-{i}")).collect();
    let value = "v".to_string();
    let mut pairs: Vec<(&String, &String)> = names.iter().map(|n| (n, &value)).collect();
    pairs.push((&names[0], &value));
    assert_eq!(value_error(header_map_from_pairs(&pairs)), "max size reached");
}

#[test]
fn a_run_without_headers_has_no_header_map() {
    assert!(request_headers(&None).unwrap().is_none());
    assert_eq!(request_headers(&Some(HashMap::new())).unwrap().unwrap().len(), 0);
    assert_eq!(request_headers(&Some(many(3))).unwrap().unwrap().len(), 3);
    let bad: HashMap<String, String> = [("a".to_string(), "\n".to_string())].into_iter().collect();
    let failure = request_headers(&Some(bad)).unwrap_err();
    assert_eq!(failure.message, "failed to parse header value");
}

#[test]
fn the_same_pairs_always_come_to_the_same() {
    let good = [("a", "1"), ("A", "2"), ("b", "3")];
    assert_eq!(build(&good).unwrap(), build(&good).unwrap());
    let bad = [("a", "1"), ("b", "\n"), ("", "2")];
    assert_eq!(value_error(build(&bad)), value_error(build(&bad)));
}
