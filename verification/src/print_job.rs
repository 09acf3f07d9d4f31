//! Preparing and judging a print job: decoding the base64 payload, naming
//! the temporary files, writing the PowerShell spooling script and reading
//! what the spooler reported.

use vstd::prelude::*;
use base64::Engine;
use crate::text::{
    decimal, decimal_string, decode_lossy, is_white_space, lemma_replace_absent, replace_char,
    replace_char_with, trim, trimmed, utf8_lossy,
};

verus! {

/// Why a base64 payload could not be decoded (the cases of the `base64`
/// crate's `DecodeError`).
pub enum Base64Error {
    /// A byte outside the alphabet, at the given offset.
    InvalidByte(usize, u8),
    /// An input whose number of symbols cannot be decoded.
    InvalidLength(usize),
    /// A last symbol whose unused bits are not zero, at the given offset.
    InvalidLastSymbol(usize, u8),
    /// Absent or malformed padding.
    InvalidPadding,
}

/// What the `base64` crate's standard engine (standard alphabet, canonical
/// padding required) decodes `input` to, or why it refuses it.
pub uninterp spec fn base64_standard_decode(input: Seq<char>) -> Result<Seq<u8>, Base64Error>;

/// `base64::engine::general_purpose::STANDARD.decode`, applied to the bytes
/// of `input`. Its result, decoded bytes or the decoding error, is named
/// `base64_standard_decode`; nothing else is claimed of it.
#[verifier::external_body]
fn base64_decode(input: &str) -> (r: Result<Vec<u8>, Base64Error>)
    ensures
        match r {
            Ok(bytes) => base64_standard_decode(input@) == Ok::<Seq<u8>, Base64Error>(bytes@),
            Err(e) => base64_standard_decode(input@) == Err::<Seq<u8>, Base64Error>(e),
        },
{
    match base64::engine::general_purpose::STANDARD.decode(input) {
        Ok(bytes) => Ok(bytes),
        Err(base64::DecodeError::InvalidByte(offset, byte)) => Err(Base64Error::InvalidByte(offset, byte)),
        Err(base64::DecodeError::InvalidLength(len)) => Err(Base64Error::InvalidLength(len)),
        Err(base64::DecodeError::InvalidLastSymbol(offset, byte)) => Err(Base64Error::InvalidLastSymbol(offset, byte)),
        Err(base64::DecodeError::InvalidPadding) => Err(Base64Error::InvalidPadding),
    }
}

/// How a decoding error reads (the `Display` text of `DecodeError`).
pub open spec fn base64_error_text(e: Base64Error) -> Seq<char> {
    match e {
        Base64Error::InvalidByte(offset, byte) => "Invalid symbol "@ + decimal(byte as nat)
            + ", offset "@ + decimal(offset as nat) + "."@,
        Base64Error::InvalidLength(len) => "Invalid input length: "@ + decimal(len as nat),
        Base64Error::InvalidLastSymbol(offset, byte) => "Invalid last symbol "@ + decimal(
            byte as nat,
        ) + ", offset "@ + decimal(offset as nat) + "."@,
        Base64Error::InvalidPadding => "Invalid padding"@,
    }
}

/// The text of a decoding error.
pub fn describe_base64_error(e: &Base64Error) -> (r: String)
    ensures
        r@ == base64_error_text(*e),
{
    match e {
        Base64Error::InvalidByte(offset, byte) => {
            let mut r = "Invalid symbol ".to_owned();
            r.append(decimal_string(*byte as u128).as_str());
            r.append(", offset ");
            r.append(decimal_string(*offset as u128).as_str());
            r.append(".");
            r
        },
        Base64Error::InvalidLength(len) => {
            let mut r = "Invalid input length: ".to_owned();
            r.append(decimal_string(*len as u128).as_str());
            r
        },
        Base64Error::InvalidLastSymbol(offset, byte) => {
            let mut r = "Invalid last symbol ".to_owned();
            r.append(decimal_string(*byte as u128).as_str());
            r.append(", offset ");
            r.append(decimal_string(*offset as u128).as_str());
            r.append(".");
            r
        },
        Base64Error::InvalidPadding => "Invalid padding".to_owned(),
    }
}

/// The bytes a print job carries, decoded from its base64 text, or the error
/// the job fails with.
pub open spec fn payload_of(content: Seq<char>) -> Result<Seq<u8>, Seq<char>> {
    match base64_standard_decode(content) {
        Ok(bytes) => Ok(bytes),
        Err(e) => Err(decode_failure_text(e)),
    }
}

/// The failure message for a payload the decoder refused with `e`.
pub open spec fn decode_failure_text(e: Base64Error) -> Seq<char> {
    "Base64 decode failed: "@ + base64_error_text(e)
}

/// Turns the decoder's verdict into the job's document or the job's error.
pub fn payload_from_decoding(decoding: Result<Vec<u8>, Base64Error>) -> (r: Result<Vec<u8>, String>)
    ensures
        match decoding {
            Ok(bytes) => r matches Ok(out) && out@ == bytes@,
            Err(e) => r matches Err(msg) && msg@ == decode_failure_text(e),
        },
{
    match decoding {
        Ok(bytes) => Ok(bytes),
        Err(e) => {
            let mut msg = "Base64 decode failed: ".to_owned();
            msg.append(describe_base64_error(&e).as_str());
            Err(msg)
        },
    }
}

/// Decodes the base64 document of a print job (standard alphabet, padded).
pub fn decode_print_payload(content: &str) -> (r: Result<Vec<u8>, String>)
    ensures
        match r {
            Ok(bytes) => payload_of(content@) == Ok::<Seq<u8>, Seq<char>>(bytes@),
            Err(msg) => payload_of(content@) == Err::<Seq<u8>, Seq<char>>(msg@),
        },
        r matches Ok(bytes) ==> base64_standard_decode(content@) == Ok::<Seq<u8>, Base64Error>(
            bytes@,
        ),
        r is Ok <==> base64_standard_decode(content@) is Ok,
{
    payload_from_decoding(base64_decode(content))
}

/// The name of the temporary file that holds the document of the job stamped
/// `timestamp` (milliseconds since the epoch).
pub open spec fn print_file_name_of(timestamp: nat, file_ext: Seq<char>) -> Seq<char> {
    "qpos_tauri_job_"@ + decimal(timestamp) + file_ext
}

/// The name of the temporary PowerShell script of the job stamped `timestamp`.
pub open spec fn script_file_name_of(timestamp: nat) -> Seq<char> {
    "qpos_tauri_script_"@ + decimal(timestamp) + ".ps1"@
}

/// Names the temporary document file of a job.
pub fn print_file_name(timestamp: u128, file_ext: &str) -> (r: String)
    ensures
        r@ == print_file_name_of(timestamp as nat, file_ext@),
{
    let mut r = "qpos_tauri_job_".to_owned();
    r.append(decimal_string(timestamp).as_str());
    r.append(file_ext);
    r
}

/// Names the temporary script file of a job.
pub fn script_file_name(timestamp: u128) -> (r: String)
    ensures
        r@ == script_file_name_of(timestamp as nat),
{
    let mut r = "qpos_tauri_script_".to_owned();
    r.append(decimal_string(timestamp).as_str());
    r.append(".ps1");
    r
}

/// Opening of the spooling script, up to the printer name.
pub const SCRIPT_HEAD: &'static str = "\n$printerName = \"";

/// Between the printer name and the document path.
pub const SCRIPT_AFTER_PRINTER: &'static str = "\"\n$filePath = \"";

/// Between the document path and the print handler.
pub const SCRIPT_AFTER_PATH: &'static str = "\"\n$printHandler = \"";

/// The rest of the script: raw `.bin` documents are written to the printer
/// through the Windows spooler API, other documents are printed by their
/// application (or WordPad) with the target made the default printer for the
/// time of the job.
pub const SCRIPT_BODY: &'static str = r#""
$extension = [System.IO.Path]::GetExtension($filePath).ToLower()

if ($extension -eq ".bin") {
    $code = @"
using System;
using System.Runtime.InteropServices;

public class RawPrinterHelper {
    [DllImport("winspool.Drv", EntryPoint = "OpenPrinterA", SetLastError = true, CharSet = CharSet.Ansi)]
    public static extern bool OpenPrinter(string printerName, out IntPtr phPrinter, IntPtr pDefault);

    [DllImport("winspool.Drv", EntryPoint = "StartDocPrinterA", SetLastError = true, CharSet = CharSet.Ansi)]
    public static extern bool StartDocPrinter(IntPtr hPrinter, int level, [In, MarshalAs(UnmanagedType.LPStruct)] DOCINFOA pDocInfo);

    [DllImport("winspool.Drv", EntryPoint = "WritePrinter", SetLastError = true)]
    public static extern bool WritePrinter(IntPtr hPrinter, IntPtr pBytes, int dwCount, out int dwWritten);

    [DllImport("winspool.Drv", EntryPoint = "EndDocPrinter", SetLastError = true)]
    public static extern bool EndDocPrinter(IntPtr hPrinter);

    [DllImport("winspool.Drv", EntryPoint = "ClosePrinter", SetLastError = true)]
    public static extern bool ClosePrinter(IntPtr hPrinter);

    [StructLayout(LayoutKind.Sequential, CharSet = CharSet.Ansi)]
    public class DOCINFOA {
        [MarshalAs(UnmanagedType.LPStr)] public string pDocName;
        [MarshalAs(UnmanagedType.LPStr)] public string pOutputFile;
        [MarshalAs(UnmanagedType.LPStr)] public string pDatatype;
    }

    public static bool SendBytesToPrinter(string printerName, byte[] bytes) {
        IntPtr hPrinter;
        if (!OpenPrinter(printerName, out hPrinter, IntPtr.Zero)) return false;
        
        DOCINFOA di = new DOCINFOA { pDocName = "POS Receipt Thermal Print", pDatatype = "RAW" };
        if (!StartDocPrinter(hPrinter, 1, di)) {
            ClosePrinter(hPrinter);
            return false;
        }
        
        IntPtr pBytes = Marshal.AllocHGlobal(bytes.Length);
        Marshal.Copy(bytes, 0, pBytes, bytes.Length);
        int written;
        bool success = WritePrinter(hPrinter, pBytes, bytes.Length, out written);
        Marshal.FreeHGlobal(pBytes);
        
        EndDocPrinter(hPrinter);
        ClosePrinter(hPrinter);
        return success;
    }
}
"@
    if (-not ([System.Management.Automation.PSTypeName]'RawPrinterHelper').Type) {
        Add-Type -TypeDefinition $code
    }
    $bytes = [System.IO.File]::ReadAllBytes($filePath)
    $success = [RawPrinterHelper]::SendBytesToPrinter($printerName, $bytes)
    if ($success) {
        Write-Output "SUCCESS: Thermal slip printed."
    } else {
        Write-Error "FAILED: Thermal Spooling failure."
        exit 1
    }
} else {
    $originalPrinter = (Get-CimInstance -ClassName CIM_Printer | Where-Object { $_.Default -eq $true }).Name
    $changedDefault = $false
    try {
        $targetPrn = Get-CimInstance -ClassName CIM_Printer | Where-Object { $_.Name -eq $printerName }
        if (-not $targetPrn) {
            Write-Error "FAILED: Printer '$printerName' not found."
            exit 1
        }
        if ($printerName -ne $originalPrinter) {
            (New-Object -ComObject WScript.Network).SetDefaultPrinter($printerName)
            $changedDefault = $true
            Start-Sleep -Seconds 1
        }
        if ($printHandler -eq "wordpad") {
            $proc = Start-Process -FilePath "wordpad.exe" -ArgumentList "/p `"$filePath`"" -PassThru
        } else {
            $proc = Start-Process -FilePath $filePath -Verb Print -PassThru
        }
        Start-Sleep -Seconds 5
        if ($proc -and -not $proc.HasExited) {
            $proc.CloseMainWindow()
            Start-Sleep -Seconds 1
            if (-not $proc.HasExited) { $proc.Kill() }
        }
        Write-Output "SUCCESS: Document printed."
    } finally {
        if ($changedDefault -and $originalPrinter) {
            (New-Object -ComObject WScript.Network).SetDefaultPrinter($originalPrinter)
        }
    }
}
"#;

/// A value for a double-quoted PowerShell string: each `"` is escaped with a
/// backtick.
pub open spec fn ps_quoted(s: Seq<char>) -> Seq<char> {
    replace_char(s, '"', "`\""@)
}

/// A file path for the script: each backslash is doubled.
pub open spec fn ps_path(s: Seq<char>) -> Seq<char> {
    replace_char(s, '\\', "\\\\"@)
}

/// The spooling script for `printer`, the document at `file_path`, and
/// `handler`.
pub open spec fn print_script_text(printer: Seq<char>, file_path: Seq<char>, handler: Seq<char>) -> Seq<
    char,
> {
    SCRIPT_HEAD@ + ps_quoted(printer) + SCRIPT_AFTER_PRINTER@ + ps_path(file_path)
        + SCRIPT_AFTER_PATH@ + ps_quoted(handler) + SCRIPT_BODY@
}

/// Writes the spooling script for a job.
pub fn print_script(printer: &str, file_path: &str, handler: &str) -> (r: String)
    ensures
        r@ == print_script_text(printer@, file_path@, handler@),
        r@.take(SCRIPT_HEAD@.len() as int) == SCRIPT_HEAD@,
        !printer@.contains('"') ==> r@.subrange(
            SCRIPT_HEAD@.len() as int,
            (SCRIPT_HEAD@.len() + printer@.len()) as int,
        ) == printer@,
        !printer@.contains('"') && !file_path@.contains('\\') && !handler@.contains('"') ==> r@
            == SCRIPT_HEAD@ + printer@ + SCRIPT_AFTER_PRINTER@ + file_path@ + SCRIPT_AFTER_PATH@
            + handler@ + SCRIPT_BODY@,
{
    proof {
        law_script_embeds_values(printer@, file_path@, handler@);
    }
    let mut r = SCRIPT_HEAD.to_owned();
    r.append(replace_char_with(printer, '"', "`\"").as_str());
    r.append(SCRIPT_AFTER_PRINTER);
    r.append(replace_char_with(file_path, '\\', "\\\\").as_str());
    r.append(SCRIPT_AFTER_PATH);
    r.append(replace_char_with(handler, '"', "`\"").as_str());
    r.append(SCRIPT_BODY);
    r
}

/// What a finished spooling run reports, from its decoded output: on success
/// the trimmed standard output, on failure the trimmed standard error after a
/// fixed prefix.
pub open spec fn spool_result_of_texts(success: bool, stdout: Seq<char>, stderr: Seq<char>) -> Result<
    Seq<char>,
    Seq<char>,
> {
    if success {
        Ok(trim(stdout))
    } else {
        Err("Spooler reported error: "@ + trim(stderr))
    }
}

/// What a finished spooling run reports, from its raw output.
pub open spec fn spool_result(success: bool, stdout: Seq<u8>, stderr: Seq<u8>) -> Result<
    Seq<char>,
    Seq<char>,
> {
    spool_result_of_texts(success, utf8_lossy(stdout), utf8_lossy(stderr))
}

/// Judges a finished spooling run from its exit status and decoded output.
pub fn spool_outcome_of_texts(success: bool, stdout: &str, stderr: &str) -> (r: Result<
    String,
    String,
>)
    ensures
        match r {
            Ok(m) => spool_result_of_texts(success, stdout@, stderr@) == Ok::<
                Seq<char>,
                Seq<char>,
            >(m@),
            Err(e) => spool_result_of_texts(success, stdout@, stderr@) == Err::<
                Seq<char>,
                Seq<char>,
            >(e@),
        },
        success ==> (r matches Ok(m) && m@ == trim(stdout@)),
        !success ==> (r matches Err(e) && e@ == "Spooler reported error: "@ + trim(stderr@)),
{
    if success {
        Ok(trimmed(stdout))
    } else {
        let mut msg = "Spooler reported error: ".to_owned();
        msg.append(trimmed(stderr).as_str());
        Err(msg)
    }
}

/// Judges a finished spooling run from its exit status and raw output.
pub fn spool_outcome(success: bool, stdout: &[u8], stderr: &[u8]) -> (r: Result<String, String>)
    ensures
        match r {
            Ok(m) => spool_result(success, stdout@, stderr@) == Ok::<Seq<char>, Seq<char>>(m@),
            Err(e) => spool_result(success, stdout@, stderr@) == Err::<Seq<char>, Seq<char>>(e@),
        },
        success ==> (r matches Ok(m) && m@ == trim(utf8_lossy(stdout@))),
{
    let out = decode_lossy(stdout);
    let err = decode_lossy(stderr);
    spool_outcome_of_texts(success, out.as_str(), err.as_str())
}

/// A step of a print job that touches the system.
pub enum PrintStep {
    /// Writing the decoded document to its temporary file.
    WriteDocument,
    /// Writing the spooling script to its temporary file.
    WriteScript,
    /// Starting PowerShell on the script.
    LaunchSpooler,
}

/// The error a print job fails with when `step` fails with `detail`.
pub open spec fn step_failure_text(step: PrintStep, detail: Seq<char>) -> Seq<char> {
    match step {
        PrintStep::WriteDocument => "Failed to create temporary print file: "@ + detail,
        PrintStep::WriteScript => "Failed to create temporary powershell script: "@ + detail,
        PrintStep::LaunchSpooler => "Failed to launch powershell execution: "@ + detail,
    }
}

/// Words the failure of a print-job step.
pub fn step_failure(step: PrintStep, detail: &str) -> (r: String)
    ensures
        r@ == step_failure_text(step, detail@),
{
    let mut r = match step {
        PrintStep::WriteDocument => "Failed to create temporary print file: ".to_owned(),
        PrintStep::WriteScript => "Failed to create temporary powershell script: ".to_owned(),
        PrintStep::LaunchSpooler => "Failed to launch powershell execution: ".to_owned(),
    };
    r.append(detail);
    r
}

/// In a value escaped for a double-quoted PowerShell string, every `"` is
/// preceded by the backtick that escapes it, so no value can close the string
/// it is placed in.
pub proof fn law_quotes_are_escaped(s: Seq<char>)
    ensures
        forall|k: int|
            0 <= k < ps_quoted(s).len() && #[trigger] ps_quoted(s)[k] == '"' ==> k > 0
                && ps_quoted(s)[k - 1] == '`',
    decreases s.len(),
{
    reveal_strlit("`\"");
    if s.len() > 0 {
        law_quotes_are_escaped(s.drop_last());
        let prev = ps_quoted(s.drop_last());
        assert forall|k: int|
            0 <= k < ps_quoted(s).len() && #[trigger] ps_quoted(s)[k] == '"' implies k > 0
                && ps_quoted(s)[k - 1] == '`' by {
            if k < prev.len() {
                assert(ps_quoted(s)[k] == prev[k]);
                assert(prev[k] == '"');
                assert(ps_quoted(s)[k - 1] == prev[k - 1]);
            }
        }
    }
}

/// The script opens with the fixed head, followed by the printer name: a name
/// without `"` stands there unchanged, character for character. With no `"`
/// in the printer name or handler and no backslash in the path, the script is
/// the fixed text with the three values put in as they are.
pub proof fn law_script_embeds_values(printer: Seq<char>, file_path: Seq<char>, handler: Seq<char>)
    ensures
        print_script_text(printer, file_path, handler).take(SCRIPT_HEAD@.len() as int)
            == SCRIPT_HEAD@,
        !printer.contains('"') ==> print_script_text(printer, file_path, handler).subrange(
            SCRIPT_HEAD@.len() as int,
            (SCRIPT_HEAD@.len() + printer.len()) as int,
        ) == printer,
        !printer.contains('"') && !file_path.contains('\\') && !handler.contains('"')
            ==> print_script_text(printer, file_path, handler) == SCRIPT_HEAD@ + printer
            + SCRIPT_AFTER_PRINTER@ + file_path + SCRIPT_AFTER_PATH@ + handler + SCRIPT_BODY@,
{
    let h = SCRIPT_HEAD@;
    let text = print_script_text(printer, file_path, handler);
    let rest = SCRIPT_AFTER_PRINTER@ + ps_path(file_path) + SCRIPT_AFTER_PATH@ + ps_quoted(
        handler,
    ) + SCRIPT_BODY@;
    assert(text =~= h + (ps_quoted(printer) + rest));
    assert(text.take(h.len() as int) =~= h);
    if !printer.contains('"') {
        lemma_replace_absent(printer, '"', "`\""@);
        assert(text.subrange(h.len() as int, (h.len() + printer.len()) as int) =~= printer);
    }
    if !printer.contains('"') && !file_path.contains('\\') && !handler.contains('"') {
        lemma_replace_absent(file_path, '\\', "\\\\"@);
        lemma_replace_absent(handler, '"', "`\""@);
    }
}

/// A decoded payload is exactly what the standard base64 decoding gives,
/// byte for byte (zero bytes included), and a payload fails exactly when that
/// decoding fails.
pub proof fn law_payload_is_the_decoding(content: Seq<char>)
    ensures
        payload_of(content) matches Ok(bytes) ==> base64_standard_decode(content) == Ok::<
            Seq<u8>,
            Base64Error,
        >(bytes),
        payload_of(content) is Ok <==> base64_standard_decode(content) is Ok,
{
}

/// On exit success the job's message is the whole standard output with only
/// its surrounding white space removed (every line of it kept); on failure it
/// is the whole trimmed error output after the fixed prefix.
pub proof fn law_spooler_message_is_whole_output(
    success: bool,
    stdout: Seq<char>,
    stderr: Seq<char>,
)
    ensures
        success ==> spool_result_of_texts(success, stdout, stderr) == Ok::<Seq<char>, Seq<char>>(
            trim(stdout),
        ),
        !success ==> spool_result_of_texts(success, stdout, stderr) == Err::<
            Seq<char>,
            Seq<char>,
        >("Spooler reported error: "@ + trim(stderr)),
        success ==> exists|a: int, b: int|
            0 <= a <= b <= stdout.len() && spool_result_of_texts(success, stdout, stderr) == Ok::<
                Seq<char>,
                Seq<char>,
            >(stdout.subrange(a, b)) && (forall|i: int|
                0 <= i < a ==> is_white_space(#[trigger] stdout[i])) && (forall|i: int|
                b <= i < stdout.len() ==> is_white_space(#[trigger] stdout[i])),
{
    crate::text::law_trim_keeps_the_inner_text(stdout);
}

} // verus!
