use httpcore::headers::HeaderMap;
use httpcore::numdec::u64_to_dec;
use httpcore::strutil::{find_char, find_crlf, find_crlfcrlf, str_eq, trim, trim_nuls};

#[test]
fn header_map_insert_and_get() {
    let mut h = HeaderMap::new();
    assert_eq!(h.len(), 0);
    h.insert("Host", "localhost");
    h.insert("Accept", "*/*");
    assert_eq!(h.len(), 2);
    assert_eq!(h.get("Host"), Some("localhost"));
    assert_eq!(h.get("Accept"), Some("*/*"));
    assert_eq!(h.get("Missing"), None);
}

#[test]
fn header_map_insert_replaces_in_place() {
    let mut h = HeaderMap::new();
    h.insert("K", "old");
    h.insert("Other", "x");
    h.insert("K", "new");
    assert_eq!(h.len(), 2);
    assert_eq!(h.get("K"), Some("new"));
    assert_eq!(h.name_at(0), "K");
    assert_eq!(h.value_at(0), "new");
    assert_eq!(h.name_at(1), "Other");
}

#[test]
fn header_map_names_are_case_sensitive() {
    let mut h = HeaderMap::new();
    h.insert("Host", "a");
    h.insert("host", "b");
    assert_eq!(h.len(), 2);
    assert_eq!(h.get("Host"), Some("a"));
    assert_eq!(h.get("host"), Some("b"));
}

#[test]
fn decimal_rendering_exact_values() {
    assert_eq!(u64_to_dec(0), "0");
    assert_eq!(u64_to_dec(7), "7");
    assert_eq!(u64_to_dec(10), "10");
    assert_eq!(u64_to_dec(204), "204");
    assert_eq!(u64_to_dec(18446744073709551615), "18446744073709551615");
}

#[test]
fn str_eq_compares_exactly() {
    assert!(str_eq("", ""));
    assert!(str_eq("abc", "abc"));
    assert!(!str_eq("abc", "abd"));
    assert!(!str_eq("abc", "ab"));
}

#[test]
fn find_helpers_locate_first_occurrences() {
    assert_eq!(find_char("a bc d", ' '), Some(1));
    assert_eq!(find_char("abcd", ' '), None);
    assert_eq!(find_crlf("ab\r\ncd\r\n"), Some(2));
    assert_eq!(find_crlf("abcd"), None);
    assert_eq!(find_crlfcrlf("a\r\nb\r\n\r\nc"), Some(4));
    assert_eq!(find_crlfcrlf("a\r\nb\r\nc"), None);
}

#[test]
fn trims_strip_what_they_should() {
    assert_eq!(trim("  \tv alue \t "), "v alue");
    assert_eq!(trim(""), "");
    assert_eq!(trim("   "), "");
    assert_eq!(trim_nuls("abc\0\0"), "abc");
    assert_eq!(trim_nuls("\0\0"), "");
    assert_eq!(trim_nuls("a\0b"), "a\0b");
}
