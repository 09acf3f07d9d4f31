//! The entries the driver writes into its print history: the startup warning
//! for a vanished default printer, default-printer changes, and print jobs.

use vstd::prelude::*;
use crate::model::{PrintLog, PrintLogView};
use crate::text::str_equal;

verus! {

/// An entry with the given texts.
pub open spec fn entry(
    timestamp: Seq<char>,
    document_type: Seq<char>,
    printer_name: Seq<char>,
    print_engine: Seq<char>,
    status: Seq<char>,
    details: Seq<char>,
) -> PrintLogView {
    PrintLogView { timestamp, document_type, printer_name, print_engine, status, details }
}

/// A printer name, or `None` written out where there is none.
pub open spec fn name_or_none(p: Option<Seq<char>>) -> Seq<char> {
    match p {
        Some(n) => n,
        None => "None"@,
    }
}

/// The warning written at startup when the configured default printer is no
/// longer installed.
pub open spec fn startup_warning_entry(timestamp: Seq<char>, printer: Seq<char>) -> PrintLogView {
    entry(
        timestamp,
        "System"@,
        printer,
        "Startup Validator"@,
        "Warning"@,
        "Default printer '"@ + printer + "' not found on system. Cleared setting."@,
    )
}

/// The entry written when the default printer changes from `old` to `new`.
pub open spec fn printer_change_entry(
    timestamp: Seq<char>,
    old: Option<Seq<char>>,
    new: Option<Seq<char>>,
) -> PrintLogView {
    entry(
        timestamp,
        "System"@,
        name_or_none(new),
        "Settings Manager"@,
        "Success"@,
        "Default printer changed from '"@ + name_or_none(old) + "' to '"@ + name_or_none(new)
            + "'"@,
    )
}

/// The kind of document a print job carries: raw `.bin` jobs are receipt
/// slips, everything else an office template.
pub open spec fn document_type_of(file_ext: Seq<char>) -> Seq<char> {
    if file_ext == ".bin"@ {
        "POS Slip"@
    } else {
        "Office Template"@
    }
}

/// The engine that prints a job: raw `.bin` jobs go to the thermal ESC/POS
/// path, other documents to WordPad when asked for, else to Word.
pub open spec fn print_engine_of(file_ext: Seq<char>, handler: Seq<char>) -> Seq<char> {
    if file_ext == ".bin"@ {
        "Thermal ESC/POS"@
    } else if handler == "wordpad"@ {
        "Windows WordPad"@
    } else {
        "Microsoft Word"@
    }
}

/// The entry written for a print job that reached the spooler, with the
/// spooler's message on success and the error on failure.
pub open spec fn print_job_entry(
    timestamp: Seq<char>,
    printer: Seq<char>,
    file_ext: Seq<char>,
    handler: Seq<char>,
    outcome: Result<Seq<char>, Seq<char>>,
) -> PrintLogView {
    entry(
        timestamp,
        document_type_of(file_ext),
        printer,
        print_engine_of(file_ext, handler),
        match outcome {
            Ok(_) => "Success"@,
            Err(_) => "Failed"@,
        },
        match outcome {
            Ok(m) => m,
            Err(e) => e,
        },
    )
}

/// The text of an optional printer name, or `None`.
fn name_or_none_string(p: &Option<String>) -> (r: String)
    ensures
        r@ == name_or_none(crate::model::opt_view(*p)),
{
    match p {
        Some(n) => n.clone(),
        None => "None".to_owned(),
    }
}

/// Builds the startup warning for `printer`.
pub fn startup_warning(printer: &String, timestamp: String) -> (r: PrintLog)
    ensures
        r@ == startup_warning_entry(timestamp@, printer@),
{
    let mut details = "Default printer '".to_owned();
    details.append(printer.as_str());
    details.append("' not found on system. Cleared setting.");
    PrintLog {
        timestamp,
        document_type: "System".to_owned(),
        printer_name: printer.clone(),
        print_engine: "Startup Validator".to_owned(),
        status: "Warning".to_owned(),
        details,
    }
}

/// Builds the entry for a change of the default printer from `old` to `new`.
pub fn printer_change_log(old: &Option<String>, new: &Option<String>, timestamp: String) -> (r:
    PrintLog)
    ensures
        r@ == printer_change_entry(
            timestamp@,
            crate::model::opt_view(*old),
            crate::model::opt_view(*new),
        ),
{
    let old_name = name_or_none_string(old);
    let new_name = name_or_none_string(new);
    let mut details = "Default printer changed from '".to_owned();
    details.append(old_name.as_str());
    details.append("' to '");
    details.append(new_name.as_str());
    details.append("'");
    PrintLog {
        timestamp,
        document_type: "System".to_owned(),
        printer_name: new_name,
        print_engine: "Settings Manager".to_owned(),
        status: "Success".to_owned(),
        details,
    }
}

/// Builds the entry for a print job sent to `printer`.
pub fn print_job_log(
    printer: &String,
    file_ext: &String,
    handler: &String,
    outcome: &Result<String, String>,
    timestamp: String,
) -> (r: PrintLog)
    ensures
        r@ == print_job_entry(
            timestamp@,
            printer@,
            file_ext@,
            handler@,
            match *outcome {
                Ok(m) => Ok(m@),
                Err(e) => Err(e@),
            },
        ),
        file_ext@ == ".bin"@ ==> r.print_engine@ == "Thermal ESC/POS"@ && r.document_type@
            == "POS Slip"@,
{
    let raw = str_equal(file_ext.as_str(), ".bin");
    let document_type = if raw {
        "POS Slip".to_owned()
    } else {
        "Office Template".to_owned()
    };
    let print_engine = if raw {
        "Thermal ESC/POS".to_owned()
    } else if str_equal(handler.as_str(), "wordpad") {
        "Windows WordPad".to_owned()
    } else {
        "Microsoft Word".to_owned()
    };
    let (status, details) = match outcome {
        Ok(m) => ("Success".to_owned(), m.clone()),
        Err(e) => ("Failed".to_owned(), e.clone()),
    };
    PrintLog {
        timestamp,
        document_type,
        printer_name: printer.clone(),
        print_engine,
        status,
        details,
    }
}

/// A print-job entry records the job as it was: its timestamp and printer;
/// a `.bin` job is a POS slip printed on the thermal ESC/POS path whatever
/// the handler; any other document is an office template printed by WordPad
/// when the handler is `wordpad` and by Word otherwise; the status and details
/// are the spooler's outcome.
pub proof fn law_print_entry_describes_the_job(
    timestamp: Seq<char>,
    printer: Seq<char>,
    file_ext: Seq<char>,
    handler: Seq<char>,
    outcome: Result<Seq<char>, Seq<char>>,
)
    ensures
        ({
            let e = print_job_entry(timestamp, printer, file_ext, handler, outcome);
            &&& e.timestamp == timestamp
            &&& e.printer_name == printer
            &&& file_ext == ".bin"@ ==> e.document_type == "POS Slip"@ && e.print_engine
                == "Thermal ESC/POS"@
            &&& file_ext != ".bin"@ ==> e.document_type == "Office Template"@
            &&& file_ext != ".bin"@ && handler == "wordpad"@ ==> e.print_engine
                == "Windows WordPad"@
            &&& file_ext != ".bin"@ && handler != "wordpad"@ ==> e.print_engine
                == "Microsoft Word"@
            &&& outcome matches Ok(m) ==> e.status == "Success"@ && e.details == m
            &&& outcome matches Err(m) ==> e.status == "Failed"@ && e.details == m
        }),
{
}

} // verus!
