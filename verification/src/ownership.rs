//! Ownership of heap buffers: growth in place, transfer into and out of
//! functions, and the lines that the allocation demonstration shows.

use vstd::prelude::*;
use vstd::string::StringExecFns;
use vstd::utf8::{encode_utf8, is_ascii_chars, is_ascii_chars_encode_utf8};
use crate::assignment::{copy_on_assignment, deep_copy, move_on_assignment};
use crate::decimal::{decimal, render_signed};

verus! {

/// Takes a buffer for good: the caller's binding is gone after the call, and
/// the buffer is released when this function ends. Returns the line that shows
/// the buffer, which holds its content.
pub fn takes_ownership(some_string: String) -> (line: String)
    ensures
        line@ == some_string@,
{
    let line = some_string.clone();
    line
}

/// Takes a fixed-size number, which the call duplicates: the caller's binding
/// stays valid. Returns the line that shows the number, its decimal text.
pub fn makes_copy(some_integer: i32) -> (line: String)
    ensures
        line@ == decimal(some_integer as int),
{
    render_signed(some_integer as i64)
}

/// Creates the buffer `"yours"` and moves it out to the caller, who becomes its
/// only owner.
pub fn gives_ownership() -> (some_string: String)
    ensures
        some_string@ == "yours"@,
{
    let some_string = String::from_str("yours");
    some_string
}

/// Takes a buffer from the caller and moves the very same buffer back.
pub fn takes_and_gives_back(a_string: String) -> (returned: String)
    ensures
        returned == a_string,
{
    a_string
}

/// The number of bytes that a text occupies in a buffer, which stores it in
/// UTF-8.
pub open spec fn byte_length(text: Seq<char>) -> nat {
    encode_utf8(text).len()
}

/// A text made of ASCII characters only occupies one byte for each character.
pub proof fn ascii_byte_length(text: Seq<char>)
    requires
        is_ascii_chars(text),
    ensures
        byte_length(text) == text.len(),
{
    is_ascii_chars_encode_utf8(text);
}

/// Reads the length of a buffer through a shared reference, without taking
/// ownership of it. The length counts bytes, not characters.
pub fn calculate_length(s: &String) -> (len: usize)
    ensures
        len == byte_length(s@),
{
    s.as_str().as_bytes().len()
}

/// The lines of the allocation demonstration, in the order in which it shows
/// them.
pub open spec fn allocation_lines() -> Seq<Seq<char>> {
    seq![
        "Look at me ! See i am mutable"@,
        "s2: I sure hope no one will steal my string"@,
        "s1 : I sure hope no one copies my string, s2 : I sure hope no one copies my string"@,
        "I sure hope no one will steal my string"@,
        "I sure hope no one will steal my string"@,
        "3"@,
        "Look what I stole: yours"@,
    ]
}

/// Runs the allocation demonstration and returns the lines it shows.
///
/// A buffer is grown in place and shown. A binding to a literal is bound to
/// another literal, which changes no text. A number is copied by assignment. A
/// buffer is moved by assignment and shown under its new name; inside a block
/// another buffer is deep copied and shown together with its copy; the moved
/// buffer is shown once more and then handed to [`takes_ownership`]. A number
/// goes to [`makes_copy`], and a last buffer comes from [`gives_ownership`].
#[allow(unused_variables, unused_assignments)]
pub fn memory_allocation() -> (lines: Vec<String>)
    ensures
        lines.deep_view() == allocation_lines(),
{
    let mut lines: Vec<String> = Vec::new();

    let mut s = String::from_str("Look at me !");
    s.append(" See i am mutable");
    lines.push(s);
    {
        let mut s = "3";
        s = "We can only replace this value during compile";
    }

    let numbers = copy_on_assignment(5i32);
    assert(numbers.original == 5 && numbers.copy == 5);

    let s1 = String::from_str("I sure hope no one will steal my string");
    let s2 = move_on_assignment(s1);
    lines.push(String::from_str("s2: ").concat(s2.as_str()));

    {
        let copied = deep_copy(String::from_str("I sure hope no one copies my string"));
        let s1 = copied.original;
        let s2 = copied.copy;
        let line = String::from_str("s1 : ").concat(s1.as_str()).concat(", s2 : ").concat(
            s2.as_str(),
        );
        lines.push(line);
    }

    lines.push(s2.clone());
    lines.push(takes_ownership(s2));

    lines.push(makes_copy(3));

    lines.push(String::from_str("Look what I stole: ").concat(gives_ownership().as_str()));

    proof {
        reveal_strlit("Look at me !");
        reveal_strlit(" See i am mutable");
        reveal_strlit("Look at me ! See i am mutable");
        assert(lines@[0]@ =~= "Look at me ! See i am mutable"@);

        reveal_strlit("s2: ");
        reveal_strlit("I sure hope no one will steal my string");
        reveal_strlit("s2: I sure hope no one will steal my string");
        assert(lines@[1]@ =~= "s2: I sure hope no one will steal my string"@);

        reveal_strlit("s1 : ");
        reveal_strlit(", s2 : ");
        reveal_strlit("I sure hope no one copies my string");
        reveal_strlit(
            "s1 : I sure hope no one copies my string, s2 : I sure hope no one copies my string",
        );
        assert(lines@[2]@
            =~= "s1 : I sure hope no one copies my string, s2 : I sure hope no one copies my string"@);

        reveal_strlit("3");
        assert(lines@[5]@ =~= "3"@);

        reveal_strlit("Look what I stole: ");
        reveal_strlit("yours");
        reveal_strlit("Look what I stole: yours");
        assert(lines@[6]@ =~= "Look what I stole: yours"@);

        assert(lines.deep_view() =~= allocation_lines());
    }
    lines
}

} // verus!
