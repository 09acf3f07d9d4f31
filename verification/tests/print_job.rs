use qpos_driver::print_job::{
    decode_print_payload, describe_base64_error, payload_from_decoding, spool_outcome_of_texts, print_file_name, print_script, script_file_name,
    spool_outcome, step_failure, Base64Error, PrintStep, SCRIPT_AFTER_PATH,
    SCRIPT_AFTER_PRINTER, SCRIPT_BODY, SCRIPT_HEAD,
};

#[test]
fn payload_decodes_standard_base64() {
    assert_eq!(decode_print_payload("aGVsbG8=").unwrap(), b"hello".to_vec());
    assert_eq!(decode_print_payload("").unwrap(), Vec::<u8>::new());
    assert_eq!(decode_print_payload("G0BAbGluZQo=").unwrap(), b"\x1b@@line\n".to_vec());
}

#[test]
fn payload_with_invalid_symbol_fails() {
    assert_eq!(
        decode_print_payload("abc$").unwrap_err(),
        "Base64 decode failed: Invalid symbol 36, offset 3."
    );
}

#[test]
fn payload_without_padding_fails() {
    assert_eq!(decode_print_payload("aGVsbG8").unwrap_err(), "Base64 decode failed: Invalid padding");
}

#[test]
fn decode_errors_read_like_the_crate() {
    for e in [
        base64::DecodeError::InvalidByte(3, 36),
        base64::DecodeError::InvalidLength(5),
        base64::DecodeError::InvalidLastSymbol(2, 66),
        base64::DecodeError::InvalidPadding,
    ] {
        let mine = match e {
            base64::DecodeError::InvalidByte(o, b) => Base64Error::InvalidByte(o, b),
            base64::DecodeError::InvalidLength(l) => Base64Error::InvalidLength(l),
            base64::DecodeError::InvalidLastSymbol(o, b) => Base64Error::InvalidLastSymbol(o, b),
            base64::DecodeError::InvalidPadding => Base64Error::InvalidPadding,
        };
        assert_eq!(describe_base64_error(&mine), e.to_string());
    }
}

#[test]
fn temporary_file_names() {
    assert_eq!(print_file_name(1700000000123, ".docx"), "qpos_tauri_job_1700000000123.docx");
    assert_eq!(print_file_name(5, ".bin"), "qpos_tauri_job_5.bin");
    assert_eq!(script_file_name(0), "qpos_tauri_script_0.ps1");
}

#[test]
fn script_substitutes_escaped_values() {
    let script = print_script("Front \"Desk\"", "C:\\Temp\\qpos_tauri_job_1.bin", "word");
    assert!(script.starts_with("\n$printerName = \"Front `\"Desk`\"\"\n$filePath = \"C:\\\\Temp\\\\qpos_tauri_job_1.bin\"\n$printHandler = \"word\"\n$extension"));
    assert!(script.ends_with("SetDefaultPrinter($originalPrinter)\n        }\n    }\n}\n"));
    let expected = format!(
        "{}{}{}{}{}{}{}",
        SCRIPT_HEAD,
        "Front `\"Desk`\"",
        SCRIPT_AFTER_PRINTER,
        "C:\\\\Temp\\\\qpos_tauri_job_1.bin",
        SCRIPT_AFTER_PATH,
        "word",
        SCRIPT_BODY
    );
    assert_eq!(script, expected);
    assert!(script.contains("if ($extension -eq \".bin\") {"));
    assert!(script.contains("public class RawPrinterHelper {"));
}

#[test]
fn escaped_quotes_law_example() {
    let script = print_script("\"\"", "x", "\"");
    let head = &script[SCRIPT_HEAD.len()..SCRIPT_HEAD.len() + 4];
    assert_eq!(head, "`\"`\"");
}

#[test]
fn spooler_success_reports_trimmed_output() {
    assert_eq!(
        spool_outcome(true, b"  SUCCESS: Thermal slip printed.\r\n", b"ignored"),
        Ok("SUCCESS: Thermal slip printed.".to_string())
    );
}

#[test]
fn spooler_failure_reports_trimmed_error() {
    assert_eq!(
        spool_outcome(false, b"out", b"FAILED: Thermal Spooling failure.\r\n"),
        Err("Spooler reported error: FAILED: Thermal Spooling failure.".to_string())
    );
    assert_eq!(spool_outcome(false, b"", b""), Err("Spooler reported error: ".to_string()));
}

#[test]
fn step_failures() {
    assert_eq!(
        step_failure(PrintStep::WriteDocument, "denied"),
        "Failed to create temporary print file: denied"
    );
    assert_eq!(
        step_failure(PrintStep::WriteScript, "full"),
        "Failed to create temporary powershell script: full"
    );
    assert_eq!(
        step_failure(PrintStep::LaunchSpooler, "not found"),
        "Failed to launch powershell execution: not found"
    );
}

#[test]
fn decoder_verdicts() {
    assert_eq!(payload_from_decoding(Ok(vec![1, 2, 3])), Ok(vec![1, 2, 3]));
    assert_eq!(
        payload_from_decoding(Err(Base64Error::InvalidLength(5))),
        Err("Base64 decode failed: Invalid input length: 5".to_string())
    );
    assert_eq!(
        payload_from_decoding(Err(Base64Error::InvalidLastSymbol(7, 66))),
        Err("Base64 decode failed: Invalid last symbol 66, offset 7.".to_string())
    );
}

#[test]
fn spooler_verdict_from_texts() {
    assert_eq!(spool_outcome_of_texts(true, "\tdone\n", "x"), Ok("done".to_string()));
    assert_eq!(
        spool_outcome_of_texts(false, "x", " no printer "),
        Err("Spooler reported error: no printer".to_string())
    );
}

#[test]
fn spooler_output_with_invalid_utf8() {
    assert_eq!(spool_outcome(true, b"ok \xfe", b""), Ok("ok \u{FFFD}".to_string()));
}
