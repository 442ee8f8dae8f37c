use request_services::command::parse_task_id;
use request_services::text::{parse_i64, split_by};
use request_services::utils::{
    hashmap_to_string, i64_list_text, int_param, split_string, string_to_hashmap,
    string_to_pairs, subscribe_answer, usize_list_text,
};
use std::collections::HashMap;

fn pair(k: &str, v: &str) -> (String, String) {
    (k.to_string(), v.to_string())
}

#[test]
fn task_ids_read_as_u32() {
    assert_eq!(parse_task_id("123"), Some(123));
    assert_eq!(parse_task_id("+7"), Some(7));
    assert_eq!(parse_task_id("4294967295"), Some(u32::MAX));
    assert_eq!(parse_task_id("4294967296"), None);
    assert_eq!(parse_task_id(""), None);
    assert_eq!(parse_task_id("+"), None);
    assert_eq!(parse_task_id("-1"), None);
    assert_eq!(parse_task_id("12a"), None);
    assert_eq!(parse_task_id(" 1"), None);
    // agrees with std on a sample
    for s in ["0", "00012", "99999999999", "1+1", "+0"] {
        assert_eq!(parse_task_id(s), s.parse::<u32>().ok());
    }
}

#[test]
fn signed_numbers_read_as_i64() {
    for s in [
        "0", "-0", "+5", "-5", "9223372036854775807", "9223372036854775808",
        "-9223372036854775808", "-9223372036854775809", "", "-", "+", "1 2", "abc",
    ] {
        assert_eq!(parse_i64(s), s.parse::<i64>().ok(), "{}", s);
    }
}

#[test]
fn split_by_separator() {
    assert_eq!(split_by("a\r\nb\r\n\r\nc", "\r\n"), vec!["a", "b", "", "c"]);
    assert_eq!(split_by("", ", "), vec![""]);
    assert_eq!(split_by("x, y", ", "), vec!["x", "y"]);
    for (s, sep) in [("a,,b", ","), ("abab", "ab"), ("a\r\r\nb", "\r\n")] {
        let expected: Vec<String> = s.split(sep).map(|x| x.to_string()).collect();
        assert_eq!(split_by(s, sep), expected);
    }
}

#[test]
fn pairs_written_as_lines() {
    assert_eq!(hashmap_to_string(&vec![]), "");
    assert_eq!(hashmap_to_string(&vec![pair("k", "v")]), "k\tv");
    assert_eq!(
        hashmap_to_string(&vec![pair("etag", "\"x\""), pair("len", "10")]),
        "etag\t\"x\"\r\nlen\t10"
    );
}

#[test]
fn lines_read_as_pairs() {
    assert_eq!(string_to_pairs(""), vec![]);
    assert_eq!(string_to_pairs("a\tb\r\nc\td e"), vec![pair("a", "b"), pair("c", "d e")]);
    assert_eq!(string_to_pairs("\t"), vec![pair("", "")]);
}

#[test]
fn lines_read_as_a_map() {
    assert!(string_to_hashmap("").is_empty());
    let m = string_to_hashmap("a\tb\r\nc\td e\r\na\tlater");
    let mut expected = HashMap::new();
    expected.insert("a".to_string(), "later".to_string());
    expected.insert("c".to_string(), "d e".to_string());
    assert_eq!(m, expected);
}

#[test]
fn pairs_round_trip_through_text() {
    let pairs = vec![pair("Content-Type", "text/plain"), pair("x", ""), pair("", "no tab here\r")];
    assert_eq!(string_to_pairs(&hashmap_to_string(&pairs)), pairs);
    let m: HashMap<String, String> = pairs.iter().cloned().collect();
    assert_eq!(string_to_hashmap(&hashmap_to_string(&pairs)), m);
}

#[test]
fn lists_written_and_read() {
    assert_eq!(i64_list_text(&vec![1, -2, 3]), "[1, -2, 3]");
    assert_eq!(i64_list_text(&vec![]), "[]");
    assert_eq!(usize_list_text(&vec![0, 42]), "[0, 42]");
    // agrees with the debug writing of vectors
    let v: Vec<i64> = vec![-1, 0, i64::MAX, i64::MIN];
    assert_eq!(i64_list_text(&v), format!("{:?}", v));
    assert_eq!(split_string("[1, -2, 3]"), vec!["1", "-2", "3"]);
    assert_eq!(split_string("[[a, b]]"), vec!["a", "b"]);
    assert_eq!(split_string("[]"), vec![""]);
    assert_eq!(split_string(&i64_list_text(&v)), vec!["-1", "0", "9223372036854775807", "-9223372036854775808"]);
}

#[test]
fn event_answers() {
    assert_eq!(int_param(-1), None);
    assert_eq!(int_param(0), Some(0));
    assert_eq!(subscribe_answer(0), Ok(()));
    assert_eq!(subscribe_answer(5), Err(5));
}
