use lore_seeker_desktop::text::{after_first, decimal_string, ends_with, remove_all};

#[test]
fn ends_with_finds_a_suffix() {
    assert!(ends_with("Cockatrice-2.9.0-win64.exe", "win64.exe"));
    assert!(ends_with("win64.exe", "win64.exe"));
    assert!(ends_with("anything", ""));
}

#[test]
fn ends_with_rejects_other_text() {
    assert!(!ends_with("Cockatrice-2.9.0-win32.exe", "win64.exe"));
    assert!(!ends_with("64.exe", "win64.exe"));
    assert!(!ends_with("win64.exe.sig", "win64.exe"));
    assert!(!ends_with("", "x"));
}

#[test]
fn ends_with_counts_characters_not_bytes() {
    assert!(ends_with("grüße", "üße"));
    assert!(!ends_with("grüße", "uße"));
}

#[test]
fn remove_all_strips_the_upload_placeholder() {
    assert_eq!(
        remove_all(
            "https://uploads.github.com/repos/fenhl/lore-seeker-desktop/releases/7/assets{?name,label}",
            "{?name,label}"
        ),
        "https://uploads.github.com/repos/fenhl/lore-seeker-desktop/releases/7/assets"
    );
}

#[test]
fn remove_all_takes_every_occurrence() {
    assert_eq!(remove_all("abcabcab", "abc"), "ab");
    assert_eq!(remove_all("xabcyabcz", "abc"), "xyz");
    assert_eq!(remove_all("abc", "abc"), "");
}

#[test]
fn remove_all_does_not_rescan_what_it_joined() {
    assert_eq!(remove_all("aabcbc", "abc"), "abc");
    assert_eq!(remove_all("{?name,{?name,label}label}", "{?name,label}"), "{?name,label}");
    assert_eq!(remove_all("aaa", "aa"), "a");
}

#[test]
fn remove_all_leaves_text_without_the_pattern() {
    assert_eq!(remove_all("hello", "xyz"), "hello");
    assert_eq!(remove_all("hello", ""), "hello");
    assert_eq!(remove_all("", "abc"), "");
    assert_eq!(remove_all("ab", "abc"), "ab");
}

#[test]
fn remove_all_agrees_with_str_replace() {
    let cases = [("a{?name,label}b{?name,label}", "{?name,label}"), ("ééé", "é"), ("abab", "ba")];
    for (text, pattern) in cases {
        assert_eq!(remove_all(text, pattern), text.replace(pattern, ""));
    }
}

#[test]
fn decimal_string_writes_numbers() {
    assert_eq!(decimal_string(0), "0");
    assert_eq!(decimal_string(7), "7");
    assert_eq!(decimal_string(10), "10");
    assert_eq!(decimal_string(12345), "12345");
    assert_eq!(decimal_string(9007199254740993), "9007199254740993");
    assert_eq!(decimal_string(u64::MAX), "18446744073709551615");
}

#[test]
fn after_first_drops_one_character() {
    assert_eq!(after_first("v1.2.0"), "1.2.0");
    assert_eq!(after_first("v"), "");
}
