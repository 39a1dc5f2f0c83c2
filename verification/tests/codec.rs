use telemeter::codec::{encode_line, encode_line_bytes, encode_line_scaled_bytes};

#[test]
fn encode_round_trip_example() {
    let line = encode_line("app", "x", "", 5, 1700000000);
    assert_eq!(line, b"app.x 5 1700000000\n".to_vec());
}

#[test]
fn encode_with_facet() {
    let line = encode_line("app", "x", "count", 7, 1);
    assert_eq!(line, b"app.x.count 7 1\n".to_vec());
}

#[test]
fn encode_negative_value() {
    let line = encode_line("p", "n", "", -42, 0);
    assert_eq!(line, b"p.n -42 0\n".to_vec());
}

#[test]
fn encode_extreme_values() {
    let low = encode_line("p", "n", "", i64::MIN, 0);
    assert_eq!(low, b"p.n -9223372036854775808 0\n".to_vec());
    let high = encode_line("p", "n", "", i64::MAX, u64::MAX);
    assert_eq!(
        high,
        b"p.n 9223372036854775807 18446744073709551615\n".to_vec()
    );
}

#[test]
fn encode_bytes_matches_str_form() {
    let a = encode_line_bytes(b"app", b"x", b"", 5, 1700000000);
    let b = encode_line("app", "x", "", 5, 1700000000);
    assert_eq!(a, b);
}

#[test]
fn encode_scaled_value() {
    let line = encode_line_scaled_bytes(b"app", b"m", b"rate1", 1_500_000, 2);
    assert_eq!(line, b"app.m.rate1 1.500000 2\n".to_vec());
}

#[test]
fn encode_scaled_zero_and_fraction() {
    let zero = encode_line_scaled_bytes(b"a", b"b", b"mean", 0, 3);
    assert_eq!(zero, b"a.b.mean 0.000000 3\n".to_vec());
    let frac = encode_line_scaled_bytes(b"a", b"b", b"mean", 7, 3);
    assert_eq!(frac, b"a.b.mean 0.000007 3\n".to_vec());
}
