use qpos_driver::clock::{timestamp_from_outputs, timestamp_from_texts};
use qpos_driver::printers::{parse_printer_list, printer_names_in};
use qpos_driver::text::{decimal_string, replace_char_with, str_equal, trimmed};

#[test]
fn printer_list_keeps_trimmed_nonblank_lines() {
    let out = b"HP LaserJet 400\r\n  EPSON TM-T20II Receipt  \r\n\r\n   \r\nMicrosoft Print to PDF\r\n";
    let names = parse_printer_list(out);
    assert_eq!(
        names,
        vec![
            "HP LaserJet 400".to_string(),
            "EPSON TM-T20II Receipt".to_string(),
            "Microsoft Print to PDF".to_string()
        ]
    );
}

#[test]
fn printer_list_of_empty_output_is_empty() {
    assert!(parse_printer_list(b"").is_empty());
    assert!(parse_printer_list(b"\r\n \n\t\n").is_empty());
}

#[test]
fn printer_list_without_trailing_newline() {
    assert_eq!(parse_printer_list(b"A\nB"), vec!["A".to_string(), "B".to_string()]);
}

#[test]
fn printer_list_replaces_invalid_utf8() {
    let names = parse_printer_list(b"Caf\xff Printer\n");
    assert_eq!(names, vec!["Caf\u{FFFD} Printer".to_string()]);
}

#[test]
fn printer_names_are_trimmed_law_example() {
    for name in parse_printer_list(" \t a b \u{3000}\n\n  c\r\n".as_bytes()) {
        assert!(!name.is_empty());
        assert_eq!(name.trim(), name.as_str());
    }
}

#[test]
fn timestamp_joins_date_and_time() {
    let t = timestamp_from_outputs(Some(b"Mon 11/17/2025 \r\n"), Some(b"08:30 PM\r\n"));
    assert_eq!(t, "Mon 11/17/2025 08:30 PM");
}

#[test]
fn timestamp_with_missing_commands() {
    assert_eq!(timestamp_from_outputs(None, None), "");
    assert_eq!(timestamp_from_outputs(Some(b"Mon 11/17/2025\r\n"), None), "Mon 11/17/2025");
    assert_eq!(timestamp_from_outputs(None, Some(b" 08:30 PM ")), "08:30 PM");
}

#[test]
fn trimming_matches_str_trim() {
    for s in ["", "  ", "a", " a b ", "\u{85}x\u{a0}", "\u{2028}y\u{205f}\t", "\u{200b}z"] {
        assert_eq!(trimmed(s), s.trim());
    }
}

#[test]
fn decimal_rendering() {
    assert_eq!(decimal_string(0), "0");
    assert_eq!(decimal_string(7), "7");
    assert_eq!(decimal_string(1700000000123), "1700000000123");
    assert_eq!(decimal_string(u128::MAX), u128::MAX.to_string());
}

#[test]
fn replacement_of_characters() {
    assert_eq!(replace_char_with("say \"hi\"", '"', "`\""), "say `\"hi`\"");
    assert_eq!(replace_char_with("C:\\Temp\\a.docx", '\\', "\\\\"), "C:\\\\Temp\\\\a.docx");
    assert_eq!(replace_char_with("", 'x', "yy"), "");
}

#[test]
fn string_equality() {
    assert!(str_equal("GET", "GET"));
    assert!(!str_equal("GET", "GETS"));
    assert!(!str_equal("GET", "PUT"));
    assert!(str_equal("", ""));
}

#[test]
fn printer_names_from_decoded_text() {
    assert_eq!(
        printer_names_in("\u{feff}Zebra\n\u{a0}Star TSP100\u{a0}\n"),
        vec!["\u{feff}Zebra".to_string(), "Star TSP100".to_string()]
    );
    assert_eq!(printer_names_in("only"), vec!["only".to_string()]);
}

#[test]
fn timestamp_from_decoded_texts() {
    assert_eq!(timestamp_from_texts(Some(" 17.11.2025 "), Some("20:30\r\n")), "17.11.2025 20:30");
    assert_eq!(timestamp_from_texts(Some(""), Some("")), "");
}
