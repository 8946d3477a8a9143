use ownership_demo::ex_1;
use ownership_demo::ex_2;
use ownership_demo::render_foo;
use ownership_demo::take_borrowing_foo;
use ownership_demo::take_ownership_foo;
use ownership_demo::Foo;

fn demo_record() -> Foo {
    Foo { x: 16, y: format!("{:?}", 5.0_f32), z: true, s: "fsdfsg" }
}

#[test]
fn owned_line_shows_all_four_fields() {
    let line = take_ownership_foo(demo_record());
    assert_eq!(line, "owned foo: Foo { x: 16, y: 5.0, z: true, s: \"fsdfsg\" }");
    assert!(line.contains("16"));
    assert!(line.contains("5.0"));
    assert!(line.contains("true"));
    assert!(line.contains("fsdfsg"));
    assert_eq!(line.lines().count(), 1);
}

#[test]
fn borrowed_line_shows_all_four_fields() {
    let foo = demo_record();
    let line = take_borrowing_foo(&foo);
    assert_eq!(line, "borrowed foo: Foo { x: 16, y: 5.0, z: true, s: \"fsdfsg\" }");
    assert!(line.contains("16"));
    assert!(line.contains("5.0"));
    assert!(line.contains("true"));
    assert!(line.contains("fsdfsg"));
    assert_eq!(line.lines().count(), 1);
}

#[test]
fn record_stays_valid_and_unchanged_after_borrow() {
    let foo = demo_record();
    let _ = take_borrowing_foo(&foo);
    assert_eq!(foo.x, 16);
    assert_eq!(foo.y, "5.0");
    assert!(foo.z);
    assert_eq!(foo.s, "fsdfsg");
}

#[test]
fn borrow_then_direct_render_yield_identical_renderings() {
    let foo = demo_record();
    let borrowed = take_borrowing_foo(&foo);
    let direct = render_foo(&foo);
    assert_eq!(direct, "Foo { x: 16, y: 5.0, z: true, s: \"fsdfsg\" }");
    assert_eq!(borrowed, format!("borrowed foo: {}", direct));
}

#[test]
fn borrowing_is_idempotent() {
    let foo = demo_record();
    let first = take_borrowing_foo(&foo);
    let second = take_borrowing_foo(&foo);
    let third = take_borrowing_foo(&foo);
    assert_eq!(first, second);
    assert_eq!(second, third);
}

#[test]
fn ex_1_produces_the_owned_line() {
    assert_eq!(ex_1(), "owned foo: Foo { x: 16, y: 5.0, z: true, s: \"fsdfsg\" }");
}

#[test]
fn ex_2_produces_borrowed_then_after_lines() {
    let (first, second) = ex_2();
    assert_eq!(first, "borrowed foo: Foo { x: 16, y: 5.0, z: true, s: \"fsdfsg\" }");
    assert_eq!(second, "after borrowing foo: Foo { x: 16, y: 5.0, z: true, s: \"fsdfsg\" }");
}
