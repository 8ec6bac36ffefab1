use guideline_lints::text::{contains_unsafe_block, is_whitespace, str_contains};

#[test]
fn whitespace_agrees_with_std() {
    let mut n: u32 = 0;
    while n <= 0x10FFFF {
        if let Some(c) = char::from_u32(n) {
            assert_eq!(is_whitespace(c), c.is_whitespace());
        }
        n += 1;
    }
}

#[test]
fn unsafe_block_is_found_across_whitespace() {
    assert!(contains_unsafe_block("unsafe { foo() }"));
    assert!(contains_unsafe_block("{ unsafe\n\t{ foo() } }"));
    assert!(!contains_unsafe_block("unsafe fn f() {}"));
    assert!(!contains_unsafe_block(""));
    assert!(contains_unsafe_block("un safe{"));
}

#[test]
fn substring_search() {
    assert!(str_contains("ptr.is_null()", "is_null"));
    assert!(!str_contains("ptr.is_nul", "is_null"));
    assert!(str_contains("abc", ""));
    assert!(!str_contains("", "a"));
}
