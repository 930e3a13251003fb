//! Classification of (variant tag, 8-bit code) pairs.
//!
//! A pair made of a tag drawn from a closed two-variant enumeration and an
//! unsigned 8-bit code is mapped to a fixed integer classification code by an
//! ordered decision table with a wildcard fallback. The library also computes
//! the observable behaviour of the accompanying program: the exact text it
//! writes to standard output and its exit status.

use vstd::prelude::*;

verus! {

/// A variant tag: a closed enumeration with exactly two nullary cases,
/// used purely as a discriminant.
#[derive(Clone, Copy)]
pub enum Foo {
    A,
    B,
}

/// The decision table: first match wins, every unmatched pair falls
/// through to the final catch-all. The result is always one of
/// 5, 10, 15 and 20.
pub open spec fn classify(f: Foo, g: u8) -> i32 {
    if f is A && g == 1 {
        5
    } else if f is A && g == 2 {
        10
    } else if f is B && g == 2 {
        15
    } else {
        20
    }
}

/// Classifies a (tag, code) pair per the decision table. Total over the
/// whole input domain: it never fails.
pub fn inspect(f: Foo, g: u8) -> (r: i32)
    ensures
        r == classify(f, g),
        f is A && g == 1 ==> r == 5,
        f is A && g == 2 ==> r == 10,
        f is B && g == 2 ==> r == 15,
        !(f is A && g == 1) && !(f is A && g == 2) && !(f is B && g == 2) ==> r == 20,
{
    match (f, g) {
        (Foo::A, 1) => 5,
        (Foo::A, 2) => 10,
        (Foo::B, 2) => 15,
        _ => 20,
    }
}

/// The classification depends on the pair alone: two results obtained for
/// the same pair are always equal, so repeated calls are idempotent and
/// the classifier is deterministic (no hidden state).
pub proof fn lemma_inspect_deterministic(f: Foo, g: u8, r1: i32, r2: i32)
    requires
        r1 == classify(f, g),
        r2 == classify(f, g),
    ensures
        r1 == r2,
{
}

/// The decimal text of a classification code.
pub fn code_text(c: i32) -> (s: &'static str)
    requires
        c == 5 || c == 10 || c == 15 || c == 20,
    ensures
        c == 5 ==> s@ == "5"@,
        c == 10 ==> s@ == "10"@,
        c == 15 ==> s@ == "15"@,
        c == 20 ==> s@ == "20"@,
{
    if c == 5 {
        "5"
    } else if c == 10 {
        "10"
    } else if c == 15 {
        "15"
    } else {
        "20"
    }
}

/// Computes the program's observable behaviour: classifies (B, 2) as x and
/// (B, 1) as y, renders the two lines `x:15` and `y:20`, and returns the
/// exit status y - x - 5, which is 0.
pub fn run() -> (r: (String, i32))
    ensures
        r.0@ == "x:15\ny:20\n"@,
        r.1 == 0,
{
    let x: i32 = inspect(Foo::B, 2);
    let y: i32 = inspect(Foo::B, 1);
    let mut out: String = String::from_str("x:");
    out.append(code_text(x));
    out.append("\n");
    out.append("y:");
    out.append(code_text(y));
    out.append("\n");
    proof {
        reveal_strlit("x:");
        reveal_strlit("y:");
        reveal_strlit("\n");
        reveal_strlit("15");
        reveal_strlit("20");
        reveal_strlit("x:15\ny:20\n");
        assert(out@ =~= "x:15\ny:20\n"@);
    }
    (out, y - x - 5)
}

} // verus!
