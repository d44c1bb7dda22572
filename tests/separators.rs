use joinery::{
    join_into, join_with, BoundedSink, Comma, CommaSpace, Dash, Dot, NoSeparator, Render, Slash,
    Space, Underscore, WriteError,
};

#[test]
fn test_no_separator() {
    let data = [1, 2, 3, 4, 5];
    let result = join_with(&data, &NoSeparator);

    assert_eq!(result, "12345");
}

#[test]
fn test_space() {
    let data = [1, 2, 3];
    assert_eq!(join_with(&data, &Space), "1 2 3");
}

#[test]
fn test_comma() {
    let data = [1, 2, 3];
    assert_eq!(join_with(&data, &Comma), "1,2,3");
}

#[test]
fn test_comma_space() {
    let data = [1, 2, 3];
    assert_eq!(join_with(&data, &CommaSpace), "1, 2, 3");
}

#[test]
fn test_dot() {
    let data = [1, 2, 3];
    assert_eq!(join_with(&data, &Dot), "1.2.3");
}

#[test]
fn test_slash() {
    let data = [1, 2, 3];
    assert_eq!(join_with(&data, &Slash), "1/2/3");
}

#[test]
fn test_underscore() {
    let data = [1, 2, 3];
    assert_eq!(join_with(&data, &Underscore), "1_2_3");
}

#[test]
fn test_dash() {
    let data = [1, 2, 3];
    assert_eq!(join_with(&data, &Dash), "1-2-3");
}

#[test]
fn five_integers_with_each_separator() {
    let data = [1, 2, 3, 4, 5];
    assert_eq!(join_with(&data, &NoSeparator), "12345");
    assert_eq!(join_with(&data, &Space), "1 2 3 4 5");
    assert_eq!(join_with(&data, &Comma), "1,2,3,4,5");
    assert_eq!(join_with(&data, &CommaSpace), "1, 2, 3, 4, 5");
    assert_eq!(join_with(&data, &Dot), "1.2.3.4.5");
    assert_eq!(join_with(&data, &Underscore), "1_2_3_4_5");
}

#[test]
fn separator_literals() {
    assert_eq!(NoSeparator.to_text(), "");
    assert_eq!(Space.to_text(), " ");
    assert_eq!(Comma.to_text(), ",");
    assert_eq!(CommaSpace.to_text(), ", ");
    assert_eq!(Dot.to_text(), ".");
    assert_eq!(Slash.to_text(), "/");
    assert_eq!(Underscore.to_text(), "_");
    assert_eq!(Dash.to_text(), "-");
    assert_eq!(CommaSpace.text(), ", ");
}

#[test]
fn empty_join_is_empty() {
    let data: [i32; 0] = [];
    assert_eq!(join_with(&data, &CommaSpace), "");
    assert_eq!(join_with(&data, &NoSeparator), "");
}

#[test]
fn single_item_join_has_no_separator() {
    assert_eq!(join_with(&[42], &CommaSpace), "42");
    assert_eq!(join_with(&["alone"], &Dash), "alone");
}

#[test]
fn joining_twice_gives_the_same_text() {
    let sep = CommaSpace;
    let data = ["a", "b", "c"];
    let first = join_with(&data, &sep);
    let second = join_with(&data, &sep);
    assert_eq!(first, second);
    assert_eq!(first, "a, b, c");
}

#[test]
fn strings_and_empty_items() {
    let data = vec![String::from("x"), String::new(), String::from("yz")];
    assert_eq!(join_with(&data, &Slash), "x//yz");
    assert_eq!(join_with(&data, &NoSeparator), "xyz");
}

#[test]
fn integer_text() {
    assert_eq!(0i64.to_text(), "0");
    assert_eq!(7u32.to_text(), "7");
    assert_eq!(1234567890usize.to_text(), "1234567890");
    assert_eq!((-45i32).to_text(), "-45");
    assert_eq!(i64::MIN.to_text(), "-9223372036854775808");
    assert_eq!(i64::MAX.to_text(), "9223372036854775807");
    assert_eq!(u64::MAX.to_text(), "18446744073709551615");
    assert_eq!(joinery::signed_text(-100), "-100");
    assert_eq!(joinery::unsigned_text(100), "100");
}

#[test]
fn join_into_a_string_appends() {
    let mut out = String::from("> ");
    assert_eq!(join_into(&mut out, &[10u64, 20, 30], &Dot), Ok(()));
    assert_eq!(out, "> 10.20.30");
}

#[test]
fn failing_sink_stops_the_join() {
    let mut out = BoundedSink::new(3);
    assert_eq!(join_into(&mut out, &[1, 2, 3], &Comma), Err(WriteError));
    assert_eq!(out.as_str(), "1,2");
    assert_eq!(out.capacity(), 3);
}

#[test]
fn failing_sink_stops_before_later_small_writes() {
    // "12" fits, ", " does not; the later "3" would fit but is never written.
    let mut out = BoundedSink::new(3);
    assert_eq!(join_into(&mut out, &[12, 3], &CommaSpace), Err(WriteError));
    assert_eq!(out.as_str(), "12");
}

#[test]
fn failing_sink_refuses_the_first_item() {
    let mut out = BoundedSink::new(2);
    assert_eq!(join_into(&mut out, &[100, 2], &NoSeparator), Err(WriteError));
    assert_eq!(out.as_str(), "");
}

#[test]
fn bounded_sink_that_fits_succeeds() {
    let mut out = BoundedSink::new(9);
    assert_eq!(join_into(&mut out, &[1, 2, 3, 4, 5], &Underscore), Ok(()));
    assert_eq!(out.as_str(), "1_2_3_4_5");
}

#[test]
fn no_separator_writes_nothing_even_to_a_full_sink() {
    let mut out = BoundedSink::new(0);
    assert_eq!(NoSeparator.render_to(&mut out), Ok(()));
    assert_eq!(Space.render_to(&mut out), Err(WriteError));
    assert_eq!(out.as_str(), "");
}

#[test]
fn no_separator_text_is_empty() {
    assert_eq!(NoSeparator.text(), "");
    assert_eq!(Dash.text(), "-");
}
