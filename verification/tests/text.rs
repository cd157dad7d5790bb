use pfpet::text::{concat2, concat3, decimal_string, hex_string, parse_u16, strip_query, trim_white_space};

#[test]
fn decimal_string_matches_to_string() {
    for n in [0u64, 1, 9, 10, 42, 1800, 65535, 65536, 1234567890, u64::MAX] {
        assert_eq!(decimal_string(n), n.to_string());
    }
}

#[test]
fn hex_string_is_lower_case_two_per_byte() {
    assert_eq!(hex_string(&[]), "");
    assert_eq!(hex_string(&[0x00, 0x0f, 0xa0, 0xff]), "000fa0ff");
    assert_eq!(hex_string(&[0xbe, 0xef]), "beef");
}

#[test]
fn parse_u16_agrees_with_std() {
    let inputs = [
        "", "+", "-", "0", "+0", "+12", "-1", "-0", "65535", "65536", "99999", "00042", "1a", " 1",
        "1 ", "\u{0663}", "0000000000000000000001", "+65535", "++1", "1234", "6553a",
    ];
    for s in inputs {
        assert_eq!(parse_u16(s), s.parse::<u16>().ok(), "input {:?}", s);
    }
}

#[test]
fn parse_u16_reads_back_decimal_strings() {
    for n in [0u16, 7, 10, 1800, 4242, 65535] {
        assert_eq!(parse_u16(&decimal_string(n as u64)), Some(n));
    }
}

#[test]
fn strip_query_keeps_what_precedes_the_first_question_mark() {
    let inputs = [
        "https://styles.redditmedia.com/t5_1/styles/profileIcon_x.png?width=256&s=abc",
        "https://a.example/b.png",
        "?only",
        "",
        "a?b?c",
    ];
    for s in inputs {
        assert_eq!(strip_query(s), s.split('?').collect::<Vec<_>>()[0]);
    }
    assert_eq!(strip_query("https://x.example/i.png?s=1"), "https://x.example/i.png");
}

#[test]
fn trim_removes_unicode_white_space() {
    for s in ["  a b  ", "\t\nx\r\n", "\u{3000}y\u{2028}", "", "   ", "none"] {
        assert_eq!(trim_white_space(s), s.trim());
    }
    assert_eq!(trim_white_space("\u{00a0} Foo@Bar.com \u{2003}"), "Foo@Bar.com");
}

#[test]
fn concatenation() {
    assert_eq!(concat2("Bot ", "abc"), "Bot abc");
    assert_eq!(concat3("a", "", "c"), "ac");
}
