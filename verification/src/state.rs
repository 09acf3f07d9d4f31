//! How the driver's state evolves: loading the persisted settings, checking
//! the default printer at startup, changing the settings, and recording print
//! jobs.

use vstd::prelude::*;
use crate::history::{
    print_job_entry, print_job_log, printer_change_entry, printer_change_log,
    startup_warning, startup_warning_entry,
};
use crate::model::{
    copy_opt, default_settings, opt_view, same_opt, AppState, DriverSettings,
    PrintLog, PrintLogView, SettingsView,
};
use crate::text::views;

verus! {

/// What reading the settings file produced.
pub enum SettingsFile {
    /// There is no settings file.
    Missing,
    /// The file exists but could not be read.
    Unreadable,
    /// The file was read but does not hold valid settings.
    Malformed,
    /// The file holds these settings.
    Parsed(DriverSettings),
}

/// The settings to start with after reading the settings file, and whether the
/// defaults must be written back to it. A missing or malformed file is
/// replaced by the defaults; an unreadable one is left alone.
pub fn settings_from_file(file: SettingsFile) -> (r: (DriverSettings, bool))
    ensures
        match file {
            SettingsFile::Parsed(s) => r.0@ == s@ && !r.1,
            SettingsFile::Unreadable => r.0@ == default_settings() && !r.1,
            _ => r.0@ == default_settings() && r.1,
        },
{
    match file {
        SettingsFile::Parsed(s) => (s, false),
        SettingsFile::Unreadable => (DriverSettings::default(), false),
        _ => (DriverSettings::default(), true),
    }
}

/// Whether `names` holds `name`.
pub fn contains_name(names: &Vec<String>, name: &String) -> (r: bool)
    ensures
        r == views(names@).contains(name@),
{
    let mut i: usize = 0;
    while i < names.len()
        invariant
            i <= names.len(),
            forall|j: int| 0 <= j < i ==> names@[j]@ != name@,
        decreases names.len() - i,
    {
        if names[i].eq(name) {
            assert(views(names@)[i as int] == name@);
            return true;
        }
        i = i + 1;
    }
    proof {
        if views(names@).contains(name@) {
            let k = choose|k: int| 0 <= k < views(names@).len() && views(names@)[k] == name@;
            assert(names@[k]@ == name@);
        }
    }
    false
}

/// The settings after the default printer is set to `name`: an empty name
/// means no default printer.
pub open spec fn with_default_printer(s: SettingsView, name: Seq<char>) -> SettingsView {
    SettingsView {
        default_printer: if name.len() == 0 {
            None
        } else {
            Some(name)
        },
        ..s
    }
}

/// The history after a change of the default printer from `old` to `new`:
/// one entry more if the printer changed, none otherwise.
pub open spec fn logs_after_change(
    logs: Seq<PrintLogView>,
    old: Option<Seq<char>>,
    new: Option<Seq<char>>,
    timestamp: Seq<char>,
) -> Seq<PrintLogView> {
    if old == new {
        logs
    } else {
        logs.push(printer_change_entry(timestamp, old, new))
    }
}

/// A change of the default printer adds exactly one entry at the end of the
/// history and keeps every earlier entry; keeping the same printer adds none.
pub proof fn law_change_logged_once(
    logs: Seq<PrintLogView>,
    old: Option<Seq<char>>,
    new: Option<Seq<char>>,
    timestamp: Seq<char>,
)
    ensures
        logs_after_change(logs, old, new, timestamp).len() == logs.len() + if old == new {
            0int
        } else {
            1int
        },
        logs_after_change(logs, old, new, timestamp).take(logs.len() as int) == logs,
{
    assert(logs_after_change(logs, old, new, timestamp).take(logs.len() as int) =~= logs);
}

/// Posting the same default printer again changes nothing: the settings stay
/// as they are and no second entry is logged.
pub proof fn law_same_printer_twice(
    s: SettingsView,
    name: Seq<char>,
    logs: Seq<PrintLogView>,
    timestamp: Seq<char>,
)
    ensures
        with_default_printer(with_default_printer(s, name), name) == with_default_printer(s, name),
        logs_after_change(
            logs,
            with_default_printer(s, name).default_printer,
            with_default_printer(with_default_printer(s, name), name).default_printer,
            timestamp,
        ) == logs,
{
}

impl AppState {
    /// The state the driver starts in, from the loaded settings. When a
    /// default printer is configured, the installed printers are listed; if it
    /// is not among them, the default is cleared, a warning is logged and the
    /// second component says the settings must be saved again.
    ///
    /// The precondition lets the body query the installed printers only when a
    /// default printer is configured, and read the clock only when that printer
    /// is missing from the list; a body that ran either at any other time
    /// would not verify.
    pub fn start<P: Fn() -> Vec<String>, C: Fn() -> String>(
        settings: DriverSettings,
        settings_path: String,
        installed_printers: P,
        now: C,
    ) -> (r: (AppState, bool))
        requires
            settings@.default_printer is Some ==> installed_printers.requires(()),
            settings@.default_printer matches Some(p) ==> forall|installed: Vec<String>|
                #[trigger] installed_printers.ensures((), installed) && !views(
                    installed@,
                ).contains(p) ==> now.requires(()),
        ensures
            r.0@.settings_path == settings_path@,
            r.0@.settings.auto_reconnect == settings@.auto_reconnect,
            r.0@.settings.default_printer matches Some(q) ==> exists|installed: Vec<String>|
                #[trigger] installed_printers.ensures((), installed) && views(
                    installed@,
                ).contains(q),
            match settings@.default_printer {
                None => r.0@.settings == settings@ && r.0@.logs.len() == 0 && !r.1,
                Some(p) => exists|installed: Vec<String>|
                    #[trigger] installed_printers.ensures((), installed) && if views(
                        installed@,
                    ).contains(p) {
                        r.0@.settings == settings@ && r.0@.logs.len() == 0 && !r.1
                    } else {
                        &&& r.0@.settings.default_printer is None
                        &&& r.1
                        &&& exists|ts: String|
                            #[trigger] now.ensures((), ts) && r.0@.logs == seq![
                                startup_warning_entry(ts@, p),
                            ]
                    },
            },
    {
        let mut settings = settings;
        let mut logs: Vec<PrintLog> = Vec::new();
        let mut must_save = false;
        let configured = copy_opt(&settings.default_printer);
        if let Some(printer) = configured {
            let installed = installed_printers();
            if !contains_name(&installed, &printer) {
                settings.default_printer = None;
                must_save = true;
                let ts = now();
                let warning = startup_warning(&printer, ts);
                logs.push(warning);
                assert(crate::model::log_views(logs@) =~= seq![warning@]);
            } else {
                assert(crate::model::log_views(logs@) =~= Seq::<PrintLogView>::empty());
            }
        } else {
            assert(crate::model::log_views(logs@) =~= Seq::<PrintLogView>::empty());
        }
        (AppState { logs, settings, settings_path }, must_save)
    }

    /// Moves the default printer from `previous` to `next`, logging the change when
    /// there is one.
    fn log_printer_change<C: Fn() -> String>(
        &mut self,
        previous: &Option<String>,
        next: &Option<String>,
        now: C,
    )
        requires
            opt_view(*previous) != opt_view(*next) ==> now.requires(()),
        ensures
            final(self)@.settings == old(self)@.settings,
            final(self)@.settings_path == old(self)@.settings_path,
            opt_view(*previous) == opt_view(*next) ==> final(self)@.logs == old(self)@.logs,
            opt_view(*previous) != opt_view(*next) ==> exists|ts: String|
                #[trigger] now.ensures((), ts) && final(self)@.logs == logs_after_change(
                    old(self)@.logs,
                    opt_view(*previous),
                    opt_view(*next),
                    ts@,
                ),
    {
        if !same_opt(previous, next) {
            let ts = now();
            let entry = printer_change_log(previous, next, ts);
            let ghost before = self.logs@;
            self.logs.push(entry);
            assert(crate::model::log_views(self.logs@) =~= crate::model::log_views(before).push(
                entry@,
            ));
        }
    }

    /// Replaces the settings (the server's `POST /settings`). A change of the
    /// default printer is logged; the caller persists the new settings. The
    /// clock is read only for that entry (the precondition allows no other
    /// reading).
    pub fn replace_settings<C: Fn() -> String>(&mut self, new_settings: DriverSettings, now: C)
        requires
            old(self)@.settings.default_printer != new_settings@.default_printer ==> now.requires(
                (),
            ),
        ensures
            final(self)@.settings == new_settings@,
            final(self)@.settings_path == old(self)@.settings_path,
            old(self)@.settings.default_printer == new_settings@.default_printer
                ==> final(self)@.logs == old(self)@.logs,
            old(self)@.settings.default_printer != new_settings@.default_printer ==> exists|
                ts: String,
            |
                #[trigger] now.ensures((), ts) && final(self)@.logs == logs_after_change(
                    old(self)@.logs,
                    old(self)@.settings.default_printer,
                    new_settings@.default_printer,
                    ts@,
                ),
    {
        let old_printer = copy_opt(&self.settings.default_printer);
        let new_printer = copy_opt(&new_settings.default_printer);
        self.settings = new_settings;
        self.log_printer_change(&old_printer, &new_printer, now);
    }

    /// Sets the default printer to `name`, or clears it when `name` is empty
    /// (the server's `POST /settings/default-printer`). A change is logged;
    /// the caller persists the settings. The clock is read only for that
    /// entry.
    pub fn set_default_printer<C: Fn() -> String>(&mut self, name: String, now: C)
        requires
            old(self)@.settings.default_printer != with_default_printer(
                old(self)@.settings,
                name@,
            ).default_printer ==> now.requires(()),
        ensures
            final(self)@.settings == with_default_printer(old(self)@.settings, name@),
            final(self)@.settings_path == old(self)@.settings_path,
            old(self)@.settings.default_printer == final(self)@.settings.default_printer
                ==> final(self)@.logs == old(self)@.logs,
            old(self)@.settings.default_printer != final(self)@.settings.default_printer
                ==> exists|ts: String|
                #[trigger] now.ensures((), ts) && final(self)@.logs == logs_after_change(
                    old(self)@.logs,
                    old(self)@.settings.default_printer,
                    final(self)@.settings.default_printer,
                    ts@,
                ),
    {
        let old_printer = copy_opt(&self.settings.default_printer);
        let new_printer = if name.as_str().is_empty() {
            None
        } else {
            Some(name)
        };
        self.settings.default_printer = copy_opt(&new_printer);
        self.log_printer_change(&old_printer, &new_printer, now);
    }

    /// Adds the history entry for a print job sent to `printer` with the
    /// spooler's `outcome`.
    pub fn record_print<C: Fn() -> String>(
        &mut self,
        printer: &String,
        file_ext: &String,
        handler: &String,
        outcome: &Result<String, String>,
        now: C,
    )
        requires
            now.requires(()),
        ensures
            final(self)@.settings == old(self)@.settings,
            final(self)@.settings_path == old(self)@.settings_path,
            exists|ts: String|
                #[trigger] now.ensures((), ts) && final(self)@.logs == old(self)@.logs.push(
                    print_job_entry(
                        ts@,
                        printer@,
                        file_ext@,
                        handler@,
                        match *outcome {
                            Ok(m) => Ok(m@),
                            Err(e) => Err(e@),
                        },
                    ),
                ),
            file_ext@ == ".bin"@ ==> final(self)@.logs.last().print_engine == "Thermal ESC/POS"@
                && final(self)@.logs.last().document_type == "POS Slip"@,
    {
        let ts = now();
        let entry = print_job_log(printer, file_ext, handler, outcome, ts);
        let ghost before = self.logs@;
        self.logs.push(entry);
        assert(crate::model::log_views(self.logs@) =~= crate::model::log_views(before).push(
            entry@,
        ));
    }
}

} // verus!
