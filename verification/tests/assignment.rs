use ownership_demo::assignment::{
    append_to_copy, append_to_original, copy_on_assignment, deep_copy, move_on_assignment,
    overwrite_copy, overwrite_original,
};

#[test]
fn copied_number_equals_its_original() {
    let after = copy_on_assignment(5);
    assert_eq!(after.original, 5);
    assert_eq!(after.copy, 5);
    assert_eq!(after.original, after.copy);
}

#[test]
fn copied_literal_equals_its_original() {
    let after = copy_on_assignment("test 1");
    assert_eq!(after.original, "test 1");
    assert_eq!(after.copy, "test 1");
}

#[test]
fn copy_works_for_other_fixed_size_values() {
    let after = copy_on_assignment(('x', true, -3i64));
    assert_eq!(after.original, ('x', true, -3i64));
    assert_eq!(after.copy, ('x', true, -3i64));
    let extreme = copy_on_assignment(i32::MIN);
    assert_eq!(extreme.original, i32::MIN);
    assert_eq!(extreme.copy, i32::MIN);
}

#[test]
fn overwriting_the_original_leaves_the_copy() {
    let after = overwrite_original(5, 6);
    assert_eq!(after.original, 6);
    assert_eq!(after.copy, 5);
}

#[test]
fn overwriting_the_copy_leaves_the_original() {
    let after = overwrite_copy(5, 6);
    assert_eq!(after.original, 5);
    assert_eq!(after.copy, 6);
}

#[test]
fn overwriting_a_literal_binding() {
    let after = overwrite_original("3", "We can only replace this value during compile");
    assert_eq!(after.original, "We can only replace this value during compile");
    assert_eq!(after.copy, "3");
}

#[test]
fn moved_buffer_keeps_its_content() {
    let s1 = String::from("I sure hope no one will steal my string");
    let s2 = move_on_assignment(s1);
    assert_eq!(s2, "I sure hope no one will steal my string");
}

#[test]
fn moved_buffer_is_the_same_allocation() {
    let s1 = String::from("I sure hope no one will steal my string");
    let address = s1.as_ptr();
    let s2 = move_on_assignment(s1);
    assert_eq!(s2.as_ptr(), address);
}

#[test]
fn moved_empty_buffer_stays_empty() {
    assert_eq!(move_on_assignment(String::new()), "");
}

#[test]
fn deep_copy_equals_its_original() {
    let after = deep_copy(String::from("I sure hope no one copies my string"));
    assert_eq!(after.original, "I sure hope no one copies my string");
    assert_eq!(after.copy, "I sure hope no one copies my string");
    assert_eq!(after.original, after.copy);
}

#[test]
fn deep_copy_is_a_second_allocation() {
    let after = deep_copy(String::from("I sure hope no one copies my string"));
    assert_ne!(after.original.as_ptr(), after.copy.as_ptr());
}

#[test]
fn deep_copy_can_be_changed_without_the_original() {
    let mut after = deep_copy(String::from("one"));
    after.copy.push_str(" two");
    assert_eq!(after.original, "one");
    assert_eq!(after.copy, "one two");
    after.original.push_str(" three");
    assert_eq!(after.original, "one three");
    assert_eq!(after.copy, "one two");
}

#[test]
fn appending_to_the_original_leaves_the_copy() {
    let after = append_to_original(String::from("Look at me !"), " See i am mutable");
    assert_eq!(after.original, "Look at me ! See i am mutable");
    assert_eq!(after.copy, "Look at me !");
}

#[test]
fn appending_to_the_copy_leaves_the_original() {
    let after = append_to_copy(String::from("Look at me !"), " See i am mutable");
    assert_eq!(after.original, "Look at me !");
    assert_eq!(after.copy, "Look at me ! See i am mutable");
}

#[test]
fn appending_nothing_changes_neither() {
    let first = append_to_original(String::from("same"), "");
    assert_eq!(first.original, "same");
    assert_eq!(first.copy, "same");
    let second = append_to_copy(String::new(), "");
    assert_eq!(second.original, "");
    assert_eq!(second.copy, "");
}

#[test]
fn appending_text_outside_ascii() {
    let after = append_to_original(String::from("caf"), "é ☕");
    assert_eq!(after.original, "café ☕");
    assert_eq!(after.copy, "caf");
}
