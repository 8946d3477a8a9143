use ownership_demo::render_foo;
use ownership_demo::take_borrowing_foo;
use ownership_demo::take_ownership_foo;
use ownership_demo::text::u64_to_string;
use ownership_demo::Foo;

#[test]
fn decimal_of_zero() {
    assert_eq!(u64_to_string(0), "0");
}

#[test]
fn decimal_of_single_digit() {
    assert_eq!(u64_to_string(9), "9");
}

#[test]
fn decimal_of_two_digits() {
    assert_eq!(u64_to_string(10), "10");
    assert_eq!(u64_to_string(16), "16");
}

#[test]
fn decimal_of_many_digits() {
    assert_eq!(u64_to_string(1234567890), "1234567890");
}

#[test]
fn decimal_of_largest_value() {
    assert_eq!(u64_to_string(u64::MAX), "18446744073709551615");
}

#[test]
fn renders_false_flag() {
    let foo = Foo { x: 0, y: format!("{:?}", 0.5_f32), z: false, s: "abc" };
    assert_eq!(render_foo(&foo), "Foo { x: 0, y: 0.5, z: false, s: \"abc\" }");
}

#[test]
fn renders_empty_texts() {
    let foo = Foo { x: 7, y: String::new(), z: true, s: "" };
    assert_eq!(render_foo(&foo), "Foo { x: 7, y: , z: true, s: \"\" }");
}

#[test]
fn owned_and_borrowed_lines_differ_only_in_prefix() {
    let make = || Foo { x: 123, y: format!("{:?}", 2.25_f32), z: false, s: "hi" };
    let owned = take_ownership_foo(make());
    let other = make();
    let borrowed = take_borrowing_foo(&other);
    let owned_body = owned.strip_prefix("owned foo: ").unwrap();
    let borrowed_body = borrowed.strip_prefix("borrowed foo: ").unwrap();
    assert_eq!(owned_body, borrowed_body);
    assert_eq!(owned_body, "Foo { x: 123, y: 2.25, z: false, s: \"hi\" }");
}
