use shelly::helpers::{
    get_tty_path, interface_selector, port_input, tty_from_name, tty_from_text,
    InterfaceAddress, InterfaceInfo, PortError, DEFAULT_PORT,
};

#[test]
fn an_empty_line_names_the_default_port() {
    assert_eq!(DEFAULT_PORT, 4444);
    assert_eq!(port_input(""), Ok(4444));
    assert_eq!(port_input("\n"), Ok(4444));
    assert_eq!(port_input("   \t\n"), Ok(4444));
}

#[test]
fn a_port_is_a_number_from_one_to_65535() {
    assert_eq!(port_input("1\n"), Ok(1));
    assert_eq!(port_input(" 8080 \n"), Ok(8080));
    assert_eq!(port_input("+443\n"), Ok(443));
    assert_eq!(port_input("0065535\n"), Ok(65535));
    assert_eq!(port_input("65535"), Ok(65535));
    assert_eq!(port_input("0\n"), Err(PortError::OutOfRange));
    assert_eq!(port_input("+0\n"), Err(PortError::OutOfRange));
    assert_eq!(port_input("65536\n"), Err(PortError::Invalid));
    assert_eq!(port_input("99999999999999999999999\n"), Err(PortError::Invalid));
    assert_eq!(port_input("-1\n"), Err(PortError::Invalid));
    assert_eq!(port_input("80 80\n"), Err(PortError::Invalid));
    assert_eq!(port_input("http\n"), Err(PortError::Invalid));
    assert_eq!(port_input("+\n"), Err(PortError::Invalid));
    assert_eq!(port_input("\u{661}\n"), Err(PortError::Invalid));
}

#[test]
fn port_input_agrees_with_the_standard_parser() {
    for text in ["7", "+7", "007", "65535", "65536", "", "+", "-7", "7 ", "1e3", "0x10", "٣"] {
        let expected = match text.parse::<u16>() {
            Ok(port) if port > 0 => Ok(port),
            Ok(_) => Err(PortError::OutOfRange),
            Err(_) if text.is_empty() => Ok(4444),
            Err(_) => Err(PortError::Invalid),
        };
        if text.trim() == text {
            assert_eq!(port_input(text), expected);
        }
    }
}

#[test]
fn the_terminal_path_is_taken_from_the_name_or_the_program() {
    assert_eq!(tty_from_name(Some("/dev/pts/0")).as_deref(), Some("/dev/pts/0"));
    assert_eq!(tty_from_name(Some("")), None);
    assert_eq!(tty_from_name(None), None);
    assert_eq!(tty_from_text("/dev/pts/4\n").as_deref(), Some("/dev/pts/4"));
    assert_eq!(tty_from_text("not a tty\n"), None);
    assert_eq!(tty_from_text("  \n"), None);
    assert_eq!(get_tty_path(true, b"/dev/tty2\n").as_deref(), Some("/dev/tty2"));
    assert_eq!(get_tty_path(false, b"/dev/tty2\n"), None);
    assert_eq!(get_tty_path(true, b"not a tty\n"), None);
    assert_eq!(get_tty_path(true, b""), None);
    assert_eq!(get_tty_path(true, &[b'/', 0xff, b'\n']).as_deref(), Some("/\u{fffd}"));
}

fn address(ipv4: bool, text: &str) -> InterfaceAddress {
    InterfaceAddress { ipv4, text: text.to_string() }
}

#[test]
fn only_ipv4_addresses_off_the_loopback_are_offered() {
    let interfaces = vec![
        InterfaceInfo { loopback: true, addresses: vec![address(true, "127.0.0.1")] },
        InterfaceInfo {
            loopback: false,
            addresses: vec![
                address(true, "192.168.1.10"),
                address(false, "fe80::1"),
                address(true, "10.0.0.2"),
            ],
        },
        InterfaceInfo { loopback: false, addresses: Vec::new() },
        InterfaceInfo { loopback: false, addresses: vec![address(true, "172.16.0.1")] },
    ];
    assert_eq!(
        interface_selector(&interfaces),
        vec!["192.168.1.10".to_string(), "10.0.0.2".to_string(), "172.16.0.1".to_string()]
    );
    assert!(interface_selector(&Vec::new()).is_empty());
}
