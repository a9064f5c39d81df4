use minidl::{push_decimal, ErrorKind, Library, NameFault};

#[test]
fn libc_bad_sym() {
    assert_eq!(Library::sym("puts\0", 0x7f00_2000).unwrap(), 0x7f00_2000);
    assert_eq!(Library::sym_opt("invalid_optional\0", 0), None);
    let e = Library::sym("invalid_required\0", 0).unwrap_err();
    let e = e.to_string();
    assert!(!e.contains("invalid_optional"), "{}", e);
    assert!(e.contains("invalid_required"), "{}", e);
}

#[test]
fn kernel32_bad_sym() {
    assert_eq!(Library::sym("OutputDebugStringA\0", 0x7ffe_0000).unwrap(), 0x7ffe_0000);
    assert_eq!(Library::sym_opt("Invalid_Optional\0", 0), None);
    let e = Library::sym("Invalid_Required\0", 0).unwrap_err();
    let e = e.to_string();
    assert!(!e.contains("Invalid_Optional"), "{}", e);
    assert!(e.contains("Invalid_Required"), "{}", e);
}

#[test]
fn missing_symbol_message_is_exact() {
    let e = Library::sym("invalid_required\0", 0).unwrap_err();
    assert_eq!(e.kind(), ErrorKind::InvalidInput);
    assert_eq!(e.to_string(), "Symbol \"invalid_required\" missing from library");
}

#[test]
fn missing_symbol_message_quotes_and_escapes() {
    let e = Library::sym("a\"b\0", 0).unwrap_err();
    assert_eq!(e.to_string(), "Symbol \"a\\\"b\" missing from library");
    let e = Library::sym("\0", 0).unwrap_err();
    assert_eq!(e.to_string(), "Symbol \"\" missing from library");
}

#[test]
fn found_symbol_gives_its_address() {
    assert_eq!(Library::sym_opt("puts\0", 0x1234), Some(0x1234));
    assert_eq!(Library::sym("puts\0", 0x1234).unwrap(), 0x1234);
}

#[test]
fn resolving_twice_gives_equal_addresses() {
    let a = Library::sym_opt("puts\0", 0x5000);
    let b = Library::sym_opt("puts\0", 0x5000);
    assert_eq!(a, b);
}

#[test]
fn has_sym_reports_presence() {
    assert!(Library::has_sym("puts\0", 0x1000));
    assert!(!Library::has_sym("invalid_optional\0", 0));
}

#[test]
fn symbol_names_are_checked() {
    assert_eq!(Library::symbol_name_fault("puts\0"), None);
    assert_eq!(Library::symbol_name_fault("\0"), None);
    assert_eq!(Library::symbol_name_fault("puts"), Some(NameFault::Unterminated));
    assert_eq!(Library::symbol_name_fault(""), Some(NameFault::Unterminated));
    assert_eq!(Library::symbol_name_fault("pu\0ts"), Some(NameFault::Unterminated));
    assert_eq!(Library::symbol_name_fault("pu\0ts\0"), Some(NameFault::InteriorNul));
    assert_eq!(Library::symbol_name_fault("puts\0\0"), Some(NameFault::InteriorNul));
    assert_eq!(Library::symbol_name_fault("\u{e9}t\u{e9}\0"), None);
}

#[test]
fn missing_ordinal_names_it() {
    let e = Library::sym_by_ordinal(100, 0).unwrap_err();
    assert_eq!(e.kind(), ErrorKind::InvalidInput);
    assert_eq!(e.to_string(), "Symbol @100 missing from library");
    let e = Library::sym_by_ordinal(0, 0).unwrap_err();
    assert_eq!(e.to_string(), "Symbol @0 missing from library");
    let e = Library::sym_by_ordinal(65535, 0).unwrap_err();
    assert_eq!(e.to_string(), "Symbol @65535 missing from library");
}

#[test]
fn ordinal_lookups() {
    assert_eq!(Library::sym_opt_by_ordinal(4, 0), None);
    assert_eq!(Library::sym_opt_by_ordinal(4, 0x9000), Some(0x9000));
    assert_eq!(Library::sym_by_ordinal(4, 0x9000).unwrap(), 0x9000);
}

#[test]
fn decimal_appends() {
    let mut s = String::from("n=");
    push_decimal(&mut s, 4096);
    assert_eq!(s, "n=4096");
    let mut t = String::new();
    push_decimal(&mut t, 7);
    assert_eq!(t, "7");
}
