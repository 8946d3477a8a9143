//! A small library about ownership and borrowing of a single record type.
//!
//! The record `Foo` can be handed to a routine by exclusive ownership
//! (`take_ownership_foo`), which consumes it, or lent by a shared
//! reference (`take_borrowing_foo`), which leaves the caller's value
//! intact. Either routine renders the record as one line of text, and
//! each contract pins that line down exactly, character by character.

use vstd::prelude::*;
use vstd::string::StringExecFns;

pub mod text;

use crate::text::contains_seq;
use crate::text::dec_str;
use crate::text::lemma_contains_middle;
use crate::text::lemma_dec_str_one_line;
use crate::text::lemma_one_line_concat;
use crate::text::one_line;
use crate::text::u64_to_string;

verus! {

/// A record with four fields: an unsigned integer, a 32-bit
/// floating-point value, a boolean flag, and fixed text. Verus has no
/// floating point, so `y` carries the decimal text the floating-point
/// value prints as.
pub struct Foo {
    pub x: u64,
    pub y: String,
    pub z: bool,
    pub s: &'static str,
}

/// The text a boolean prints as.
pub open spec fn bool_text(z: bool) -> Seq<char> {
    if z {
        "true"@
    } else {
        "false"@
    }
}

/// The rendering of a record with the given field values.
pub open spec fn record_text_of(x: u64, y: Seq<char>, z: bool, s: Seq<char>) -> Seq<char> {
    "Foo { x: "@ + dec_str(x as int) + ", y: "@ + y + ", z: "@ + bool_text(z) + ", s: \""@ + s
        + "\" }"@
}

/// The rendering of a record.
pub open spec fn record_text(foo: Foo) -> Seq<char> {
    record_text_of(foo.x, foo.y@, foo.z, foo.s@)
}

/// The line the ownership routine produces on the given field values.
pub open spec fn owned_line_of(x: u64, y: Seq<char>, z: bool, s: Seq<char>) -> Seq<char> {
    "owned foo: "@ + record_text_of(x, y, z, s)
}

/// The line the borrowing routine produces on the given field values.
pub open spec fn borrowed_line_of(x: u64, y: Seq<char>, z: bool, s: Seq<char>) -> Seq<char> {
    "borrowed foo: "@ + record_text_of(x, y, z, s)
}

/// The follow-up line on the given field values.
pub open spec fn after_line_of(x: u64, y: Seq<char>, z: bool, s: Seq<char>) -> Seq<char> {
    "after borrowing foo: "@ + record_text_of(x, y, z, s)
}

/// The line the ownership routine produces.
pub open spec fn owned_line(foo: Foo) -> Seq<char> {
    owned_line_of(foo.x, foo.y@, foo.z, foo.s@)
}

/// The line the borrowing routine produces.
pub open spec fn borrowed_line(foo: Foo) -> Seq<char> {
    borrowed_line_of(foo.x, foo.y@, foo.z, foo.s@)
}

/// The line a caller prints when it renders the record itself, right
/// after having lent it out.
pub open spec fn after_line(foo: Foo) -> Seq<char> {
    after_line_of(foo.x, foo.y@, foo.z, foo.s@)
}

/// Whether a record holds the fixed demonstration values: integer 16,
/// the text the number five prints as, the flag set, and a short word.
pub open spec fn is_demo_foo(foo: Foo) -> bool {
    &&& foo.x == 16
    &&& foo.y@ == "5.0"@
    &&& foo.z == true
    &&& foo.s@ == "fsdfsg"@
}

/// The text `true` or `false`.
fn bool_str(z: bool) -> (r: &'static str)
    ensures
        r@ == bool_text(z),
{
    if z {
        "true"
    } else {
        "false"
    }
}

/// Renders a record as one line, through a shared borrow: the caller
/// keeps ownership, and the record is unchanged.
pub fn render_foo(foo: &Foo) -> (r: String)
    ensures
        r@ == record_text(*foo),
{
    let mut r = String::new();
    r.append("Foo { x: ");
    let xs = u64_to_string(foo.x);
    r.append(xs.as_str());
    r.append(", y: ");
    r.append(foo.y.as_str());
    r.append(", z: ");
    r.append(bool_str(foo.z));
    r.append(", s: \"");
    r.append(foo.s);
    r.append("\" }");
    proof {
        assert(r@ =~= record_text(*foo));
    }
    r
}

/// Takes the record by exclusive ownership and renders it. The record
/// is consumed: the caller cannot use it afterwards, and it is dropped
/// when this function returns.
pub fn take_ownership_foo(foo: Foo) -> (r: String)
    ensures
        r@ == owned_line(foo),
{
    let mut r = String::new();
    r.append("owned foo: ");
    let body = render_foo(&foo);
    r.append(body.as_str());
    proof {
        assert(r@ =~= owned_line(foo));
    }
    r
}

/// Borrows the record read-only and renders it. Ownership stays with
/// the caller, whose value is valid and unchanged after the call.
pub fn take_borrowing_foo(foo: &Foo) -> (r: String)
    ensures
        r@ == borrowed_line(*foo),
{
    let mut r = String::new();
    r.append("borrowed foo: ");
    let body = render_foo(foo);
    r.append(body.as_str());
    proof {
        assert(r@ =~= borrowed_line(*foo));
    }
    r
}

/// Builds the record the demonstrations use.
fn demo_foo() -> (foo: Foo)
    ensures
        is_demo_foo(foo),
{
    Foo { x: 16u64, y: "5.0".to_owned(), z: true, s: "fsdfsg" }
}

/// The ownership demonstration: builds the record, hands it over by
/// exclusive ownership, and returns the one line that produced. After
/// the transfer the local variable is gone; this scope cannot touch it.
pub fn ex_1() -> (r: String)
    ensures
        r@ == owned_line_of(16, "5.0"@, true, "fsdfsg"@),
{
    let foo = demo_foo();
    take_ownership_foo(foo)
}

/// The borrowing demonstration: builds the record, lends it read-only,
/// then renders the very same variable again, which is still valid and
/// unchanged. Returns the two lines that produced, in order.
pub fn ex_2() -> (r: (String, String))
    ensures
        r.0@ == borrowed_line_of(16, "5.0"@, true, "fsdfsg"@),
        r.1@ == after_line_of(16, "5.0"@, true, "fsdfsg"@),
{
    let foo = demo_foo();
    let first = take_borrowing_foo(&foo);
    let mut second = String::new();
    second.append("after borrowing foo: ");
    let body = render_foo(&foo);
    second.append(body.as_str());
    proof {
        assert(second@ =~= after_line(foo));
    }
    (first, second)
}

/// However a line is prefixed, the rendering after the prefix shows all
/// four field values.
proof fn lemma_prefixed_line_contains_fields(prefix: Seq<char>, foo: Foo)
    ensures
        contains_seq(prefix + record_text(foo), dec_str(foo.x as int)),
        contains_seq(prefix + record_text(foo), foo.y@),
        contains_seq(prefix + record_text(foo), bool_text(foo.z)),
        contains_seq(prefix + record_text(foo), foo.s@),
{
    let line = prefix + record_text(foo);
    let xs = dec_str(foo.x as int);
    let zs = bool_text(foo.z);
    let l0 = "Foo { x: "@;
    let l1 = ", y: "@;
    let l2 = ", z: "@;
    let l3 = ", s: \""@;
    let l4 = "\" }"@;
    assert(line =~= (prefix + l0) + xs + (l1 + foo.y@ + l2 + zs + l3 + foo.s@ + l4));
    lemma_contains_middle(prefix + l0, xs, l1 + foo.y@ + l2 + zs + l3 + foo.s@ + l4);
    assert(line =~= (prefix + l0 + xs + l1) + foo.y@ + (l2 + zs + l3 + foo.s@ + l4));
    lemma_contains_middle(prefix + l0 + xs + l1, foo.y@, l2 + zs + l3 + foo.s@ + l4);
    assert(line =~= (prefix + l0 + xs + l1 + foo.y@ + l2) + zs + (l3 + foo.s@ + l4));
    lemma_contains_middle(prefix + l0 + xs + l1 + foo.y@ + l2, zs, l3 + foo.s@ + l4);
    assert(line =~= (prefix + l0 + xs + l1 + foo.y@ + l2 + zs + l3) + foo.s@ + (l4));
    lemma_contains_middle(prefix + l0 + xs + l1 + foo.y@ + l2 + zs + l3, foo.s@, l4);
}

/// The ownership routine's output contains all four field values: the
/// integer's decimal rendering, the second field's text, the flag's
/// text, and the record's own text.
pub proof fn lemma_owned_line_contains_fields(foo: Foo)
    ensures
        contains_seq(owned_line(foo), dec_str(foo.x as int)),
        contains_seq(owned_line(foo), foo.y@),
        contains_seq(owned_line(foo), bool_text(foo.z)),
        contains_seq(owned_line(foo), foo.s@),
{
    lemma_prefixed_line_contains_fields("owned foo: "@, foo);
}

/// The borrowing routine's output contains all four field values.
pub proof fn lemma_borrowed_line_contains_fields(foo: Foo)
    ensures
        contains_seq(borrowed_line(foo), dec_str(foo.x as int)),
        contains_seq(borrowed_line(foo), foo.y@),
        contains_seq(borrowed_line(foo), bool_text(foo.z)),
        contains_seq(borrowed_line(foo), foo.s@),
{
    lemma_prefixed_line_contains_fields("borrowed foo: "@, foo);
}

/// The borrowing routine is deterministic, so repeating it on the same
/// unmodified record always yields identical output: any two results
/// its contract admits for one record are equal.
pub proof fn lemma_borrowing_idempotent(foo: Foo, first: Seq<char>, second: Seq<char>)
    requires
        first == borrowed_line(foo),
        second == borrowed_line(foo),
    ensures
        first == second,
{
}

/// A shared borrow leaves the record as it was: the rendering a caller
/// makes right after lending the record out shows exactly the same four
/// field values as the borrowed line itself.
pub proof fn lemma_borrow_preserves_record(foo: Foo)
    ensures
        borrowed_line(foo).skip("borrowed foo: "@.len() as int) == after_line(foo).skip(
            "after borrowing foo: "@.len() as int,
        ),
{
    assert(borrowed_line(foo).skip("borrowed foo: "@.len() as int) =~= record_text(foo));
    assert(after_line(foo).skip("after borrowing foo: "@.len() as int) =~= record_text(foo));
}

/// Each fixed piece of the formatted lines stays on one line.
proof fn lemma_pieces_one_line()
    ensures
        one_line("owned foo: "@),
        one_line("borrowed foo: "@),
        one_line("after borrowing foo: "@),
        one_line("Foo { x: "@),
        one_line(", y: "@),
        one_line(", z: "@),
        one_line(", s: \""@),
        one_line("\" }"@),
        one_line("true"@),
        one_line("false"@),
{
    reveal_strlit("owned foo: ");
    reveal_strlit("borrowed foo: ");
    reveal_strlit("after borrowing foo: ");
    reveal_strlit("Foo { x: ");
    reveal_strlit(", y: ");
    reveal_strlit(", z: ");
    reveal_strlit(", s: \"");
    reveal_strlit("\" }");
    reveal_strlit("true");
    reveal_strlit("false");
}

/// The rendering of a record stays on one line whenever its two text
/// fields do.
proof fn lemma_record_text_one_line(foo: Foo)
    requires
        one_line(foo.y@),
        one_line(foo.s@),
    ensures
        one_line(record_text(foo)),
{
    lemma_pieces_one_line();
    lemma_dec_str_one_line(foo.x as int);
    let l0 = "Foo { x: "@;
    let xs = dec_str(foo.x as int);
    let l1 = ", y: "@;
    let l2 = ", z: "@;
    let zs = bool_text(foo.z);
    let l3 = ", s: \""@;
    let l4 = "\" }"@;
    lemma_one_line_concat(l0, xs);
    lemma_one_line_concat(l0 + xs, l1);
    lemma_one_line_concat(l0 + xs + l1, foo.y@);
    lemma_one_line_concat(l0 + xs + l1 + foo.y@, l2);
    lemma_one_line_concat(l0 + xs + l1 + foo.y@ + l2, zs);
    lemma_one_line_concat(l0 + xs + l1 + foo.y@ + l2 + zs, l3);
    lemma_one_line_concat(l0 + xs + l1 + foo.y@ + l2 + zs + l3, foo.s@);
    lemma_one_line_concat(l0 + xs + l1 + foo.y@ + l2 + zs + l3 + foo.s@, l4);
}

/// The ownership routine produces one line: its output holds no line
/// break, whenever the record's two text fields hold none.
pub proof fn lemma_owned_line_one_line(foo: Foo)
    requires
        one_line(foo.y@),
        one_line(foo.s@),
    ensures
        one_line(owned_line(foo)),
{
    lemma_pieces_one_line();
    lemma_record_text_one_line(foo);
    lemma_one_line_concat("owned foo: "@, record_text(foo));
}

/// The borrowing routine produces one line: its output holds no line
/// break, whenever the record's two text fields hold none.
pub proof fn lemma_borrowed_line_one_line(foo: Foo)
    requires
        one_line(foo.y@),
        one_line(foo.s@),
    ensures
        one_line(borrowed_line(foo)),
{
    lemma_pieces_one_line();
    lemma_record_text_one_line(foo);
    lemma_one_line_concat("borrowed foo: "@, record_text(foo));
}

} // verus!
