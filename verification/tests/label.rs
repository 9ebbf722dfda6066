use yew_webgl::label::{decimal_string, push_decimal, triangle_count_label};

#[test]
fn decimal_of_zero() {
    assert_eq!(decimal_string(0), "0");
}

#[test]
fn decimal_of_single_digits() {
    for d in 0..10usize {
        assert_eq!(decimal_string(d), d.to_string());
    }
}

#[test]
fn decimal_of_batch_sizes() {
    assert_eq!(decimal_string(300), "300");
    assert_eq!(decimal_string(1200), "1200");
    assert_eq!(decimal_string(10), "10");
}

#[test]
fn decimal_of_largest_usize() {
    assert_eq!(decimal_string(usize::MAX), usize::MAX.to_string());
}

#[test]
fn decimal_agrees_with_to_string() {
    for n in [1usize, 9, 99, 100, 101, 4096, 65535, 1_000_000, 123_456_789] {
        assert_eq!(decimal_string(n), n.to_string());
    }
}

#[test]
fn push_decimal_appends() {
    let mut s = String::from("n=");
    push_decimal(42, &mut s);
    assert_eq!(s, "n=42");
}

#[test]
fn label_for_no_triangles() {
    assert_eq!(triangle_count_label(0), "Triangle count: 0");
}

#[test]
fn label_for_two_batches() {
    assert_eq!(triangle_count_label(600), "Triangle count: 600");
}

#[test]
fn label_matches_format_macro() {
    let n: usize = 900;
    assert_eq!(triangle_count_label(n), format!("{}: {}", "Triangle count", n));
}
