use edge_server::config::{is_production_word, parse_port};

#[test]
fn production_word_is_exact() {
    assert!(is_production_word("production"));
    assert!(!is_production_word("Production"));
    assert!(!is_production_word("prod"));
    assert!(!is_production_word(""));
    assert!(!is_production_word("production "));
}

#[test]
fn port_plain() {
    assert_eq!(parse_port("80"), Some(80));
}

#[test]
fn port_max() {
    assert_eq!(parse_port("65535"), Some(65535));
}

#[test]
fn port_too_large() {
    assert_eq!(parse_port("65536"), None);
}

#[test]
fn port_empty() {
    assert_eq!(parse_port(""), None);
}

#[test]
fn port_not_a_number() {
    assert_eq!(parse_port("eighty"), None);
    assert_eq!(parse_port("80a"), None);
    assert_eq!(parse_port("-1"), None);
    assert_eq!(parse_port("8 0"), None);
}

#[test]
fn port_leading_zeros() {
    assert_eq!(parse_port("0008080"), Some(8080));
}

#[test]
fn port_zero() {
    assert_eq!(parse_port("0"), Some(0));
}

#[test]
fn port_huge() {
    assert_eq!(parse_port("99999999999999999999999"), None);
}
