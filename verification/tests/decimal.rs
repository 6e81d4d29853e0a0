use client::decimal::{parse_port, port_text};

#[test]
fn parse_port_reads_plain_numbers() {
    assert_eq!(parse_port("0"), Some(0));
    assert_eq!(parse_port("70"), Some(70));
    assert_eq!(parse_port("65535"), Some(65535));
}

#[test]
fn parse_port_allows_plus_and_leading_zeros() {
    assert_eq!(parse_port("+86"), Some(86));
    assert_eq!(parse_port("0086"), Some(86));
    assert_eq!(parse_port("+000000000000000000000065535"), Some(65535));
}

#[test]
fn parse_port_refuses_what_does_not_fit() {
    assert_eq!(parse_port("65536"), None);
    assert_eq!(parse_port("75000"), None);
    assert_eq!(parse_port("99999999999999999999999999"), None);
    assert_eq!(parse_port("4294967366"), None);
}

#[test]
fn parse_port_refuses_what_is_no_number() {
    assert_eq!(parse_port(""), None);
    assert_eq!(parse_port("+"), None);
    assert_eq!(parse_port("-"), None);
    assert_eq!(parse_port("-1"), None);
    assert_eq!(parse_port("++1"), None);
    assert_eq!(parse_port("1+"), None);
    assert_eq!(parse_port(" 86"), None);
    assert_eq!(parse_port("86 "), None);
    assert_eq!(parse_port("8_6"), None);
    assert_eq!(parse_port("/86"), None);
    assert_eq!(parse_port("8:"), None);
    assert_eq!(parse_port("0x10"), None);
    assert_eq!(parse_port("\u{ff18}\u{ff16}"), None);
    assert_eq!(parse_port("8\u{e9}"), None);
    assert_eq!(parse_port("70000x"), None);
}

#[test]
fn parse_port_agrees_with_the_standard_parser() {
    let samples = [
        "", "+", "-", "0", "00", "+0", "-0", "1", "9", "10", "070", "+70", "65535", "65536",
        "065535", "655350", " 1", "1 ", "1\n", "a", "1a", "a1", "+-1", "+ 1", "12345", "123456",
        "\u{663}", "1\u{0}", ":", "/", "6553\u{35}",
    ];
    for text in samples {
        assert_eq!(parse_port(text), text.parse::<u16>().ok());
    }
}

#[test]
fn port_text_spells_decimal_without_padding() {
    assert_eq!(port_text(0), "0");
    assert_eq!(port_text(9), "9");
    assert_eq!(port_text(10), "10");
    assert_eq!(port_text(70), "70");
    assert_eq!(port_text(100), "100");
    assert_eq!(port_text(8000), "8000");
    assert_eq!(port_text(65535), "65535");
}

#[test]
fn port_text_reads_back_as_the_same_port() {
    let mut port: u16 = 0;
    loop {
        let text = port_text(port);
        assert_eq!(text, port.to_string());
        assert_eq!(parse_port(&text), Some(port));
        if port == u16::MAX {
            break;
        }
        port += 1;
    }
}
