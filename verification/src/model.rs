//! The driver's data: print-log entries, the persisted driver settings and
//! the application state that holds both.

use vstd::prelude::*;

verus! {

/// One entry of the print history shown on the diagnostics dashboard.
#[derive(Clone, Debug)]
pub struct PrintLog {
    pub timestamp: String,
    pub document_type: String,
    pub printer_name: String,
    pub print_engine: String,
    pub status: String,
    pub details: String,
}

/// A print-log entry as text.
pub struct PrintLogView {
    pub timestamp: Seq<char>,
    pub document_type: Seq<char>,
    pub printer_name: Seq<char>,
    pub print_engine: Seq<char>,
    pub status: Seq<char>,
    pub details: Seq<char>,
}

impl View for PrintLog {
    type V = PrintLogView;

    open spec fn view(&self) -> PrintLogView {
        PrintLogView {
            timestamp: self.timestamp@,
            document_type: self.document_type@,
            printer_name: self.printer_name@,
            print_engine: self.print_engine@,
            status: self.status@,
            details: self.details@,
        }
    }
}

/// The views of a sequence of log entries.
pub open spec fn log_views(logs: Seq<PrintLog>) -> Seq<PrintLogView> {
    logs.map_values(|l: PrintLog| l@)
}

impl PrintLog {
    /// A copy of this entry.
    pub fn duplicate(&self) -> (r: PrintLog)
        ensures
            r@ == self@,
    {
        PrintLog {
            timestamp: self.timestamp.clone(),
            document_type: self.document_type.clone(),
            printer_name: self.printer_name.clone(),
            print_engine: self.print_engine.clone(),
            status: self.status.clone(),
            details: self.details.clone(),
        }
    }
}

/// The driver configuration that is persisted between runs.
#[derive(Clone, Debug)]
pub struct DriverSettings {
    pub default_printer: Option<String>,
    pub auto_reconnect: bool,
}

/// The driver configuration as values.
pub struct SettingsView {
    pub default_printer: Option<Seq<char>>,
    pub auto_reconnect: bool,
}

/// An optional string as optional text.
pub open spec fn opt_view(o: Option<String>) -> Option<Seq<char>> {
    match o {
        Some(s) => Some(s@),
        None => None,
    }
}

impl View for DriverSettings {
    type V = SettingsView;

    open spec fn view(&self) -> SettingsView {
        SettingsView {
            default_printer: opt_view(self.default_printer),
            auto_reconnect: self.auto_reconnect,
        }
    }
}

/// The settings a fresh installation starts with: no default printer,
/// automatic reconnection on.
pub open spec fn default_settings() -> SettingsView {
    SettingsView { default_printer: None, auto_reconnect: true }
}

impl Default for DriverSettings {
    fn default() -> (r: DriverSettings)
        ensures
            r@ == default_settings(),
    {
        DriverSettings { default_printer: None, auto_reconnect: true }
    }
}

/// A copy of an optional string.
pub fn copy_opt(o: &Option<String>) -> (r: Option<String>)
    ensures
        opt_view(r) == opt_view(*o),
{
    match o {
        Some(s) => Some(s.clone()),
        None => None,
    }
}

/// Whether two optional strings hold the same text.
pub fn same_opt(a: &Option<String>, b: &Option<String>) -> (r: bool)
    ensures
        r == (opt_view(*a) == opt_view(*b)),
{
    match (a, b) {
        (Some(x), Some(y)) => x.eq(y),
        (None, None) => true,
        _ => false,
    }
}

impl DriverSettings {
    /// A copy of these settings.
    pub fn duplicate(&self) -> (r: DriverSettings)
        ensures
            r@ == self@,
    {
        DriverSettings {
            default_printer: copy_opt(&self.default_printer),
            auto_reconnect: self.auto_reconnect,
        }
    }
}

/// The state the dashboard commands and the local print server share: the
/// print history, the current settings and the file they persist to.
pub struct AppState {
    pub logs: Vec<PrintLog>,
    pub settings: DriverSettings,
    pub settings_path: String,
}

/// The application state as values.
pub struct AppStateView {
    pub logs: Seq<PrintLogView>,
    pub settings: SettingsView,
    pub settings_path: Seq<char>,
}

impl View for AppState {
    type V = AppStateView;

    open spec fn view(&self) -> AppStateView {
        AppStateView {
            logs: log_views(self.logs@),
            settings: self.settings@,
            settings_path: self.settings_path@,
        }
    }
}

/// `s` with an empty print history.
pub open spec fn cleared(s: AppStateView) -> AppStateView {
    AppStateView { logs: Seq::empty(), ..s }
}

impl AppState {
    /// The print history, oldest entry first (the dashboard's
    /// `get_print_logs` command).
    pub fn print_logs(&self) -> (r: Vec<PrintLog>)
        ensures
            log_views(r@) == self@.logs,
    {
        let mut r: Vec<PrintLog> = Vec::new();
        let mut i: usize = 0;
        while i < self.logs.len()
            invariant
                i <= self.logs.len(),
                r@.len() == i,
                forall|j: int| 0 <= j < i ==> #[trigger] r@[j]@ == self.logs@[j]@,
            decreases self.logs.len() - i,
        {
            r.push(self.logs[i].duplicate());
            i = i + 1;
        }
        assert(log_views(r@) =~= log_views(self.logs@));
        r
    }

    /// Empties the print history (the dashboard's `clear_print_logs`
    /// command); the settings stay as they are.
    pub fn clear_print_logs(&mut self)
        ensures
            final(self)@ == cleared(old(self)@),
    {
        self.logs.clear();
        assert(log_views(self.logs@) =~= Seq::<PrintLogView>::empty());
    }
}

/// Reading the history right after clearing it gives no entries, and clearing
/// leaves the settings alone.
pub proof fn law_clear_then_read(s: AppStateView)
    ensures
        cleared(s).logs.len() == 0,
        cleared(s).settings == s.settings,
        cleared(cleared(s)) == cleared(s),
{
}

} // verus!
