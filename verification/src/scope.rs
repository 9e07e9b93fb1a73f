//! Scope and shadowing: a name bound again inside a nested block hides the
//! outer binding only until that block ends.

use vstd::prelude::*;
use vstd::string::StringExecFns;

verus! {

/// What one name shows at the two places where it is read.
pub struct Readings<'a> {
    /// The value read inside the nested block, after the name was bound again.
    pub scoped: &'a str,
    /// The value read after the nested block has ended.
    pub exterior: &'a str,
}

/// Binds a name to `outer`, binds the same name to `inner` inside a nested
/// block, and reads the name once in the block and once after it.
///
/// Inside the block the name shows `inner`. After the block it shows `outer`
/// again, whatever `inner` was.
pub fn shadow<'a>(outer: &'a str, inner: &'a str) -> (seen: Readings<'a>)
    ensures
        seen.scoped == inner,
        seen.exterior == outer,
{
    let s = outer;
    let scoped = {
        let s = inner;
        s
    };
    Readings { scoped, exterior: s }
}

/// The two lines of the scope demonstration.
pub open spec fn scope_lines() -> Seq<Seq<char>> {
    seq!["Scoped s = World"@, "Exterior s = hello"@]
}

/// Runs the scope demonstration on `"hello"`, shadowed by `"World"`, and
/// returns the lines it shows: the reading inside the block first, the reading
/// after it second.
pub fn scope_test() -> (lines: Vec<String>)
    ensures
        lines.deep_view() == scope_lines(),
{
    let seen = shadow("hello", "World");
    let mut lines: Vec<String> = Vec::new();
    lines.push(String::from_str("Scoped s = ").concat(seen.scoped));
    lines.push(String::from_str("Exterior s = ").concat(seen.exterior));
    proof {
        reveal_strlit("hello");
        reveal_strlit("World");
        reveal_strlit("Scoped s = ");
        reveal_strlit("Exterior s = ");
        reveal_strlit("Scoped s = World");
        reveal_strlit("Exterior s = hello");
        assert(lines@[0]@ =~= "Scoped s = World"@);
        assert(lines@[1]@ =~= "Exterior s = hello"@);
        assert(lines.deep_view() =~= scope_lines());
    }
    lines
}

} // verus!
