use qbit_api::codec::{join, join_numbers, Arg, Hashes, Query, Scalar, Separator};
use qbit_api::text::{parse_u64, render_flag, render_i64, render_u64};

fn strings(items: &[&str]) -> Vec<String> {
    items.iter().map(|s| s.to_string()).collect()
}

#[test]
fn join_three_items_with_pipe() {
    assert_eq!(join(&strings(&["a", "b", "c"]), Separator::Pipe), "a|b|c");
}

#[test]
fn join_uses_each_separator() {
    assert_eq!(join(&strings(&["x", "y"]), Separator::Newline), "x\ny");
    assert_eq!(join(&strings(&["x", "y"]), Separator::Comma), "x,y");
    assert_eq!(Separator::Pipe.as_str(), "|");
}

#[test]
fn join_of_one_item_has_no_separator() {
    assert_eq!(join(&strings(&["only"]), Separator::Comma), "only");
}

#[test]
fn join_of_nothing_is_empty() {
    assert_eq!(join(&Vec::new(), Separator::Pipe), "");
}

#[test]
fn join_keeps_empty_items() {
    assert_eq!(join(&strings(&["", "a", ""]), Separator::Pipe), "|a|");
}

#[test]
fn join_numbers_writes_decimal() {
    assert_eq!(join_numbers(&vec![0, -3, 12], Separator::Pipe), "0|-3|12");
}

#[test]
fn absent_optional_scalar_gives_no_key() {
    let query = Query::new()
        .with("hash", &Arg::Scalar(Scalar::Text("abc".to_string())))
        .with("rid", &Arg::OptionalScalar(None));
    assert_eq!(query.fields.len(), 1);
    assert_eq!(query.get("hash"), Some("abc".to_string()));
    assert_eq!(query.get("rid"), None);
}

#[test]
fn present_optional_scalar_is_written() {
    let query = Query::new().with("rid", &Arg::OptionalScalar(Some(Scalar::Int(-7))));
    assert_eq!(query.fields.len(), 1);
    assert_eq!(query.fields[0].key, "rid");
    assert_eq!(query.fields[0].value, "-7");
}

#[test]
fn empty_list_is_written_as_empty_value() {
    let query = Query::new().with("peers", &Arg::DelimitedList(Vec::new(), Separator::Pipe));
    assert_eq!(query.fields.len(), 1);
    assert_eq!(query.get("peers"), Some(String::new()));
}

#[test]
fn absent_optional_list_gives_no_key() {
    let query = Query::new().with("indexes", &Arg::OptionalList(None, Separator::Pipe));
    assert_eq!(query.fields.len(), 0);
    let query = query.with(
        "indexes",
        &Arg::OptionalList(Some(strings(&["1", "2"])), Separator::Pipe),
    );
    assert_eq!(query.get("indexes"), Some("1|2".to_string()));
}

#[test]
fn optional_empty_list_that_is_present_is_written() {
    let arg = Arg::OptionalList(Some(Vec::new()), Separator::Newline);
    assert_eq!(arg.encode(), Some(String::new()));
}

#[test]
fn hash_sentinel_differs_from_empty_list() {
    assert_eq!(Hashes::All.encode(), "all");
    assert_eq!(Hashes::Hashes(Vec::new()).encode(), "");
    assert_eq!(Hashes::Hashes(strings(&["aa", "bb"])).encode(), "aa|bb");
    assert_eq!(Arg::HashSet(Hashes::All).encode(), Some("all".to_string()));
}

#[test]
fn scalars_encode_directly() {
    assert_eq!(Scalar::Text("x y".to_string()).encode(), "x y");
    assert_eq!(Scalar::Int(-1).encode(), "-1");
    assert_eq!(Scalar::Unsigned(1024).encode(), "1024");
    assert_eq!(Scalar::Flag(true).encode(), "true");
    assert_eq!(Scalar::Flag(false).encode(), "false");
}

#[test]
fn query_keeps_the_order_of_its_fields() {
    let query = Query::new()
        .with("b", &Arg::Scalar(Scalar::Unsigned(2)))
        .with("a", &Arg::Scalar(Scalar::Unsigned(1)));
    assert_eq!(query.fields[0].key, "b");
    assert_eq!(query.fields[1].key, "a");
}

#[test]
fn query_get_returns_the_first_of_equal_keys() {
    let query = Query::new()
        .with("k", &Arg::Scalar(Scalar::Unsigned(1)))
        .with("k", &Arg::Scalar(Scalar::Unsigned(2)));
    assert_eq!(query.get("k"), Some("1".to_string()));
}

#[test]
fn render_unsigned_numbers() {
    assert_eq!(render_u64(0), "0");
    assert_eq!(render_u64(9), "9");
    assert_eq!(render_u64(10), "10");
    assert_eq!(render_u64(1234567890), "1234567890");
    assert_eq!(render_u64(u64::MAX), "18446744073709551615");
}

#[test]
fn render_signed_numbers() {
    assert_eq!(render_i64(0), "0");
    assert_eq!(render_i64(-1), "-1");
    assert_eq!(render_i64(42), "42");
    assert_eq!(render_i64(i64::MAX), "9223372036854775807");
    assert_eq!(render_i64(i64::MIN), "-9223372036854775808");
}

#[test]
fn render_flags() {
    assert_eq!(render_flag(true), "true");
    assert_eq!(render_flag(false), "false");
}

#[test]
fn parse_reads_what_render_writes() {
    for n in [0u64, 7, 10, 99, 100, 65535, 4294967296, u64::MAX] {
        assert_eq!(parse_u64(&render_u64(n)), Some(n));
    }
}

#[test]
fn parse_takes_a_plus_sign_and_leading_zeros() {
    assert_eq!(parse_u64("+0"), Some(0));
    assert_eq!(parse_u64("+18446744073709551615"), Some(u64::MAX));
    assert_eq!(parse_u64("000000000000000000000000042"), Some(42));
}

#[test]
fn parse_refuses_other_text() {
    assert_eq!(parse_u64(""), None);
    assert_eq!(parse_u64("+"), None);
    assert_eq!(parse_u64("++1"), None);
    assert_eq!(parse_u64("1+"), None);
    assert_eq!(parse_u64("-0"), None);
    assert_eq!(parse_u64("1 "), None);
    assert_eq!(parse_u64("1.0"), None);
    assert_eq!(parse_u64("\u{0661}"), None);
    assert_eq!(parse_u64("18446744073709551616"), None);
    assert_eq!(parse_u64("99999999999999999999999"), None);
}

#[test]
fn splitting_a_joined_list_gives_the_items_back() {
    let lists: Vec<Vec<String>> = vec![
        strings(&["a", "b", "c"]),
        strings(&["only"]),
        strings(&[""]),
        strings(&["", "x", ""]),
        strings(&["1.2.3.4:5", "6.7.8.9:10"]),
    ];
    for items in lists {
        let text = join(&items, Separator::Pipe);
        let back: Vec<String> = text.split('|').map(|s| s.to_string()).collect();
        assert_eq!(back, items);
        assert_eq!(text.matches('|').count(), items.len() - 1);
        let text = join(&items, Separator::Newline);
        let back: Vec<String> = text.split('\n').map(|s| s.to_string()).collect();
        assert_eq!(back, items);
        let text = join(&items, Separator::Comma);
        let back: Vec<String> = text.split(',').map(|s| s.to_string()).collect();
        assert_eq!(back, items);
    }
}
