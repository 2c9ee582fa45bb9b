use rdg::path_order::compare_tree_paths;
use rdg::text::truncate_text;
use std::cmp::Ordering;

#[test]
fn short_text_is_kept() {
    assert_eq!(truncate_text(String::from("abc"), 3), "abc");
}

#[test]
fn long_text_is_cut_on_a_character_boundary() {
    assert_eq!(truncate_text(String::from("abcdef"), 4), "abcd\n\n... truncated ...\n");
    assert_eq!(truncate_text(String::from("aé"), 2), "a\n\n... truncated ...\n");
}

#[test]
fn tree_order_puts_parents_first() {
    assert_eq!(compare_tree_paths("a", "a/b"), Ordering::Less);
    assert_eq!(compare_tree_paths("a/b", "a.txt"), Ordering::Less);
    assert_eq!(compare_tree_paths("b", "a/z"), Ordering::Greater);
    assert_eq!(compare_tree_paths("x/y", "x/y"), Ordering::Equal);
}
