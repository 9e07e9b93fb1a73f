//! The whole program: every demonstration in its fixed order, as the lines it
//! shows, with a divider between the groups.

use vstd::prelude::*;
use vstd::string::StringExecFns;
use vstd::utf8::is_ascii_chars;
use crate::assignment::copy_on_assignment;
use crate::decimal::{decimal_nat, render_unsigned};
use crate::ownership::{
    allocation_lines, ascii_byte_length, byte_length, calculate_length, memory_allocation,
};
use crate::scope::{scope_lines, scope_test};

verus! {

/// The line that separates one group of demonstrations from the next.
pub const DIVIDER: &'static str = "_________________________";

/// Copies a literal by assignment and shows both bindings on one line, the
/// copy first, with a space between them. A literal has a fixed size, so the
/// binding it was copied from is still valid and holds the same text.
pub fn copied_literal_line(s: &str) -> (line: String)
    ensures
        line@ == s@ + " "@ + s@,
{
    let both = copy_on_assignment(s);
    let x = both.copy;
    let s = both.original;
    String::from_str(x).concat(" ").concat(s)
}

/// Measures a buffer through a shared reference and reports its content and
/// its length in bytes on one line. The buffer is only borrowed, so it is still
/// there to be shown after it was measured.
pub fn length_line(s1: &String) -> (line: String)
    ensures
        line@ == "The length of '"@ + s1@ + "' is "@ + decimal_nat(byte_length(s1@)) + "."@,
{
    let len = calculate_length(s1);
    String::from_str("The length of '").concat(s1.as_str()).concat("' is ").concat(
        render_unsigned(len as u64).as_str(),
    ).concat(".")
}

/// Takes the exclusive handle to a buffer and reads the buffer through it:
/// the line is the content followed by a comma. The buffer is left as it was.
/// While the handle is live no other access to the buffer is possible.
pub fn exclusive_access_line(s: &mut String) -> (line: String)
    ensures
        *final(s) == *old(s),
        line@ == old(s)@ + ","@,
{
    let handle = s;
    String::from_str(handle.as_str()).concat(",")
}

/// The lines that follow the second divider.
pub open spec fn closing_lines() -> Seq<Seq<char>> {
    seq!["test 1 test 1"@, "The length of 'hello' is 5."@, "hello,"@]
}

/// Every line of the program, in order.
pub open spec fn program_lines() -> Seq<Seq<char>> {
    scope_lines() + seq![DIVIDER@] + allocation_lines() + seq![DIVIDER@] + closing_lines()
}

/// Runs every demonstration in order and returns all the lines of the program:
/// the scope demonstration, a divider, the allocation demonstration, a divider,
/// then a copied literal, a borrowed buffer's length, and a read through an
/// exclusive handle.
pub fn run() -> (lines: Vec<String>)
    ensures
        lines.deep_view() == program_lines(),
{
    let mut lines = scope_test();
    lines.push(String::from_str(DIVIDER));
    let mut shown = memory_allocation();
    lines.append(&mut shown);
    lines.push(String::from_str(DIVIDER));
    let ghost opening = lines.deep_view();
    assert(opening =~= scope_lines() + seq![DIVIDER@] + allocation_lines() + seq![DIVIDER@]);

    let s = "test 1";
    lines.push(copied_literal_line(s));

    let s1 = String::from_str("hello");
    lines.push(length_line(&s1));

    let mut s = String::from_str("hello");
    let r3 = &mut s;
    lines.push(exclusive_access_line(r3));

    proof {
        let n = opening.len() as int;

        reveal_strlit("test 1");
        reveal_strlit(" ");
        reveal_strlit("test 1 test 1");
        assert(lines@[n]@ =~= "test 1 test 1"@);

        reveal_strlit("hello");
        reveal_strlit("The length of '");
        reveal_strlit("' is ");
        reveal_strlit(".");
        reveal_strlit("The length of 'hello' is 5.");
        assert(byte_length("hello"@) == 5) by {
            assert(is_ascii_chars("hello"@));
            ascii_byte_length("hello"@);
        }
        assert(lines@[n + 1]@ =~= "The length of 'hello' is 5."@);

        reveal_strlit(",");
        reveal_strlit("hello,");
        assert(lines@[n + 2]@ =~= "hello,"@);

        assert(lines.deep_view() =~= opening + closing_lines());
    }
    lines
}

} // verus!
