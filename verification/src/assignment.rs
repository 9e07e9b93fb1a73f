//! What assignment does to the binding assigned from: a fixed-size value is
//! copied and both bindings stay valid, a heap buffer is moved and only the new
//! binding owns it, and a deep copy makes a second buffer of its own.

use vstd::prelude::*;
use vstd::string::StringExecFns;

verus! {

/// The values held by two bindings, the second made from the first.
pub struct Bindings<T> {
    /// The binding that was there first.
    pub original: T,
    /// The binding made from it.
    pub copy: T,
}

/// Assigns a fixed-size value to a second binding. The value is duplicated:
/// both bindings stay valid and hold `value`.
pub fn copy_on_assignment<T: Copy>(value: T) -> (after: Bindings<T>)
    ensures
        after.original == value,
        after.copy == value,
{
    let x = value;
    let y = x;
    Bindings { original: x, copy: y }
}

/// Assigns a fixed-size value to a second binding and then overwrites the
/// first one. The second binding still holds `value`.
pub fn overwrite_original<T: Copy>(value: T, replacement: T) -> (after: Bindings<T>)
    ensures
        after.original == replacement,
        after.copy == value,
{
    let mut x = value;
    let y = x;
    x = replacement;
    Bindings { original: x, copy: y }
}

/// Assigns a fixed-size value to a second binding and then overwrites the
/// second one. The first binding still holds `value`.
pub fn overwrite_copy<T: Copy>(value: T, replacement: T) -> (after: Bindings<T>)
    ensures
        after.original == value,
        after.copy == replacement,
{
    let x = value;
    let mut y = x;
    y = replacement;
    Bindings { original: x, copy: y }
}

/// Assigns a heap buffer to a second binding. The buffer is moved, not
/// duplicated: the new binding owns the very buffer that was passed in, and the
/// old binding can no longer be named.
pub fn move_on_assignment(s1: String) -> (s2: String)
    ensures
        s2 == s1,
{
    let s2 = s1;
    s2
}

/// Makes a deep copy of a heap buffer. Both buffers are valid afterwards, each
/// with an owner of its own, and they hold equal content.
pub fn deep_copy(buffer: String) -> (after: Bindings<String>)
    ensures
        after.original == buffer,
        after.copy@ == buffer@,
{
    let s1 = buffer;
    let s2 = s1.clone();
    Bindings { original: s1, copy: s2 }
}

/// Makes a deep copy of a heap buffer and then appends `suffix` to the buffer
/// that was copied. The copy still holds what `buffer` held.
pub fn append_to_original(buffer: String, suffix: &str) -> (after: Bindings<String>)
    ensures
        after.original@ == buffer@ + suffix@,
        after.copy@ == buffer@,
{
    let mut s1 = buffer;
    let s2 = s1.clone();
    s1.append(suffix);
    Bindings { original: s1, copy: s2 }
}

/// Makes a deep copy of a heap buffer and then appends `suffix` to the copy.
/// The buffer that was copied still holds what it held.
pub fn append_to_copy(buffer: String, suffix: &str) -> (after: Bindings<String>)
    ensures
        after.original == buffer,
        after.copy@ == buffer@ + suffix@,
{
    let s1 = buffer;
    let mut s2 = s1.clone();
    s2.append(suffix);
    Bindings { original: s1, copy: s2 }
}

} // verus!
