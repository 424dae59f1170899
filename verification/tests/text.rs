use linuos::err::{ErrorKind, NetworkConfigurationError};
use linuos::text::{append_byte_list, append_decimal, append_ipv4};

#[test]
fn decimal_numbers() {
    assert_eq!(append_decimal(String::new(), 0), "0");
    assert_eq!(append_decimal(String::new(), 7), "7");
    assert_eq!(append_decimal(String::new(), 10), "10");
    assert_eq!(append_decimal(String::new(), 99), "99");
    assert_eq!(append_decimal(String::new(), 100), "100");
    assert_eq!(append_decimal(String::new(), 255), "255");
    assert_eq!(append_decimal("n=".to_string(), 1234567890), "n=1234567890");
    assert_eq!(append_decimal(String::new(), u64::MAX), "18446744073709551615");
    for number in 0..2000u64 {
        assert_eq!(append_decimal(String::new(), number), number.to_string());
    }
}

#[test]
fn dotted_addresses() {
    assert_eq!(append_ipv4(String::new(), &[127, 0, 0, 1]), "127.0.0.1");
    assert_eq!(append_ipv4("ip ".to_string(), &[10, 20, 30, 40]), "ip 10.20.30.40");
    assert_eq!(append_ipv4(String::new(), &[255, 255, 255, 255]), "255.255.255.255");
    assert_eq!(append_ipv4(String::new(), &[0, 0, 0, 0]), "0.0.0.0");
}

#[test]
fn error_keeps_kind_and_message() {
    let error = NetworkConfigurationError::new("boom".to_string());
    assert_eq!(error.kind, ErrorKind::Other);
    assert_eq!(error.details, "boom");
    assert_eq!(error.description(), "boom");
    let error = NetworkConfigurationError::with_kind(ErrorKind::Timeout, "late".to_string());
    assert_eq!(error.kind, ErrorKind::Timeout);
    assert_eq!(error.description(), "late");
    assert_eq!(error.clone().description(), "late");
}

#[test]
fn byte_lists() {
    assert_eq!(append_byte_list(String::new(), &[]), "[]");
    assert_eq!(append_byte_list(String::new(), &[7]), "[7]");
    assert_eq!(append_byte_list("mac ".to_string(), &[0, 10, 255]), "mac [0, 10, 255]");
    let bytes: Vec<u8> = (0..=255).collect();
    assert_eq!(append_byte_list(String::new(), &bytes), format!("{:?}", bytes));
}
