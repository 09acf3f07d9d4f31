use qpos_driver::desktop::{menu_action, MenuAction};
use qpos_driver::server::{
    not_found_reply, preflight_reply, printers_reply, route_request, PrintJob, PrintPayload, Reply,
    ReplyBody, Route,
};
use qpos_driver::state::{settings_from_file, SettingsFile};
use qpos_driver::{AppState, DriverSettings, PrintLog};

fn clock() -> String {
    "Mon 11/17/2025 08:30 PM".to_string()
}

fn state_with(default: Option<&str>) -> AppState {
    AppState {
        logs: Vec::new(),
        settings: DriverSettings {
            default_printer: default.map(|s| s.to_string()),
            auto_reconnect: true,
        },
        settings_path: "settings.json".to_string(),
    }
}

fn headers(r: &Reply) -> Vec<(String, String)> {
    r.headers.iter().map(|h| (h.name.clone(), h.value.clone())).collect()
}

fn json_headers() -> Vec<(String, String)> {
    vec![
        ("Access-Control-Allow-Origin".to_string(), "*".to_string()),
        ("Content-Type".to_string(), "application/json".to_string()),
    ]
}

fn log_fields(l: &PrintLog) -> [&str; 6] {
    [
        &l.timestamp,
        &l.document_type,
        &l.printer_name,
        &l.print_engine,
        &l.status,
        &l.details,
    ]
}

#[test]
fn default_settings() {
    let d = DriverSettings::default();
    assert_eq!(d.default_printer, None);
    assert!(d.auto_reconnect);
}

#[test]
fn loading_settings_files() {
    let (s, save) = settings_from_file(SettingsFile::Missing);
    assert!(save && s.default_printer.is_none() && s.auto_reconnect);
    let (s, save) = settings_from_file(SettingsFile::Malformed);
    assert!(save && s.default_printer.is_none() && s.auto_reconnect);
    let (s, save) = settings_from_file(SettingsFile::Unreadable);
    assert!(!save && s.default_printer.is_none() && s.auto_reconnect);
    let parsed = DriverSettings { default_printer: Some("EPSON".to_string()), auto_reconnect: false };
    let (s, save) = settings_from_file(SettingsFile::Parsed(parsed));
    assert!(!save);
    assert_eq!(s.default_printer.as_deref(), Some("EPSON"));
    assert!(!s.auto_reconnect);
}

#[test]
fn startup_clears_vanished_default_printer() {
    let settings = DriverSettings { default_printer: Some("Old Printer".to_string()), auto_reconnect: false };
    let (st, save) = AppState::start(
        settings,
        "cfg/settings.json".to_string(),
        || vec!["EPSON".to_string(), "HP".to_string()],
        clock,
    );
    assert!(save);
    assert_eq!(st.settings.default_printer, None);
    assert!(!st.settings.auto_reconnect);
    assert_eq!(st.settings_path, "cfg/settings.json");
    assert_eq!(st.logs.len(), 1);
    assert_eq!(
        log_fields(&st.logs[0]),
        [
            "Mon 11/17/2025 08:30 PM",
            "System",
            "Old Printer",
            "Startup Validator",
            "Warning",
            "Default printer 'Old Printer' not found on system. Cleared setting."
        ]
    );
}

#[test]
fn startup_keeps_installed_default_printer() {
    let settings = DriverSettings { default_printer: Some("HP".to_string()), auto_reconnect: true };
    let (st, save) = AppState::start(
        settings,
        "s.json".to_string(),
        || vec!["EPSON".to_string(), "HP".to_string()],
        clock,
    );
    assert!(!save);
    assert_eq!(st.settings.default_printer.as_deref(), Some("HP"));
    assert!(st.logs.is_empty());
}

#[test]
fn startup_without_default_does_not_list_printers() {
    let (st, save) = AppState::start(
        DriverSettings::default(),
        "s.json".to_string(),
        || -> Vec<String> { panic!("printers must not be listed") },
        || -> String { panic!("no timestamp is needed") },
    );
    assert!(!save);
    assert!(st.logs.is_empty());
    assert_eq!(st.settings.default_printer, None);
}

#[test]
fn print_logs_and_clearing() {
    let mut st = state_with(None);
    st.update_default_printer(Ok("EPSON".to_string()), clock);
    let logs = st.print_logs();
    assert_eq!(logs.len(), 1);
    assert_eq!(logs[0].details, "Default printer changed from 'None' to 'EPSON'");
    st.clear_print_logs();
    assert!(st.print_logs().is_empty());
    assert_eq!(st.settings.default_printer.as_deref(), Some("EPSON"));
}

#[test]
fn routing() {
    assert_eq!(route_request("OPTIONS", "/anything"), Route::Preflight);
    assert_eq!(route_request("OPTIONS", "/print"), Route::Preflight);
    assert_eq!(route_request("GET", "/printers"), Route::ListPrinters);
    assert_eq!(route_request("POST", "/printers"), Route::NotFound);
    assert_eq!(route_request("GET", "/settings"), Route::GetSettings);
    assert_eq!(route_request("POST", "/settings"), Route::UpdateSettings);
    assert_eq!(route_request("GET", "/settings/default-printer"), Route::GetDefaultPrinter);
    assert_eq!(route_request("POST", "/settings/default-printer"), Route::UpdateDefaultPrinter);
    assert_eq!(route_request("POST", "/print"), Route::Print);
    assert_eq!(route_request("GET", "/print"), Route::NotFound);
    assert_eq!(route_request("GET", "/printers/"), Route::NotFound);
    assert_eq!(route_request("get", "/printers"), Route::NotFound);
}

#[test]
fn preflight_and_not_found() {
    let r = preflight_reply();
    assert_eq!(r.status, 204);
    assert!(matches!(r.body, ReplyBody::Empty));
    assert_eq!(
        headers(&r),
        vec![
            ("Access-Control-Allow-Origin".to_string(), "*".to_string()),
            ("Access-Control-Allow-Methods".to_string(), "GET, POST, OPTIONS".to_string()),
            ("Access-Control-Allow-Headers".to_string(), "Content-Type".to_string()),
        ]
    );
    let r = not_found_reply();
    assert_eq!(r.status, 404);
    assert!(matches!(r.body, ReplyBody::Empty));
    assert_eq!(headers(&r), vec![("Access-Control-Allow-Origin".to_string(), "*".to_string())]);
}

#[test]
fn printers_endpoint() {
    let r = printers_reply(vec!["A".to_string()]);
    assert_eq!(r.status, 200);
    assert_eq!(headers(&r), json_headers());
    match r.body {
        ReplyBody::Printers(p) => assert_eq!(p, vec!["A".to_string()]),
        _ => panic!("wrong body"),
    }
}

#[test]
fn settings_update_logs_printer_change() {
    let mut st = state_with(Some("HP"));
    let new = DriverSettings { default_printer: Some("EPSON".to_string()), auto_reconnect: false };
    let (r, save) = st.update_settings(Ok(new), clock);
    assert!(save);
    assert_eq!(r.status, 200);
    assert_eq!(headers(&r), json_headers());
    assert!(matches!(r.body, ReplyBody::Success));
    assert_eq!(st.settings.default_printer.as_deref(), Some("EPSON"));
    assert!(!st.settings.auto_reconnect);
    assert_eq!(st.logs.len(), 1);
    assert_eq!(
        log_fields(&st.logs[0]),
        [
            "Mon 11/17/2025 08:30 PM",
            "System",
            "EPSON",
            "Settings Manager",
            "Success",
            "Default printer changed from 'HP' to 'EPSON'"
        ]
    );
}

#[test]
fn settings_update_without_printer_change_logs_nothing() {
    let mut st = state_with(Some("HP"));
    let new = DriverSettings { default_printer: Some("HP".to_string()), auto_reconnect: false };
    let (_, save) = st.update_settings(Ok(new), || -> String { panic!("no entry expected") });
    assert!(save);
    assert!(st.logs.is_empty());
    assert!(!st.settings.auto_reconnect);
}

#[test]
fn settings_update_clearing_printer() {
    let mut st = state_with(Some("HP"));
    let new = DriverSettings { default_printer: None, auto_reconnect: true };
    st.update_settings(Ok(new), clock);
    assert_eq!(st.logs[0].printer_name, "None");
    assert_eq!(st.logs[0].details, "Default printer changed from 'HP' to 'None'");
}

#[test]
fn invalid_settings_payload_is_rejected() {
    let mut st = state_with(Some("HP"));
    let (r, save) = st.update_settings(Err("expected value at line 1 column 1".to_string()), clock);
    assert!(!save);
    assert_eq!(r.status, 400);
    assert_eq!(headers(&r), json_headers());
    match r.body {
        ReplyBody::Rejected { error, details } => {
            assert_eq!(error, "Invalid settings payload");
            assert_eq!(details, "expected value at line 1 column 1");
        },
        _ => panic!("wrong body"),
    }
    assert_eq!(st.settings.default_printer.as_deref(), Some("HP"));
    assert!(st.logs.is_empty());
}

#[test]
fn settings_read_back() {
    let mut st = state_with(None);
    let new = DriverSettings { default_printer: Some("Zebra".to_string()), auto_reconnect: false };
    st.update_settings(Ok(new), clock);
    let r = st.settings_reply();
    assert_eq!(r.status, 200);
    match r.body {
        ReplyBody::Settings(s) => {
            assert_eq!(s.default_printer.as_deref(), Some("Zebra"));
            assert!(!s.auto_reconnect);
        },
        _ => panic!("wrong body"),
    }
}

#[test]
fn default_printer_read_back() {
    let mut st = state_with(Some("HP"));
    let (r, save) = st.update_default_printer(Ok("EPSON TM-T20".to_string()), clock);
    assert!(save);
    assert!(matches!(r.body, ReplyBody::Success));
    match st.default_printer_reply().body {
        ReplyBody::DefaultPrinter(n) => assert_eq!(n, "EPSON TM-T20"),
        _ => panic!("wrong body"),
    }
    st.update_default_printer(Ok(String::new()), clock);
    assert_eq!(st.settings.default_printer, None);
    match st.default_printer_reply().body {
        ReplyBody::DefaultPrinter(n) => assert_eq!(n, ""),
        _ => panic!("wrong body"),
    }
    assert_eq!(st.logs.len(), 2);
    assert_eq!(st.logs[1].details, "Default printer changed from 'EPSON TM-T20' to 'None'");
}

#[test]
fn invalid_default_printer_payload_is_rejected() {
    let mut st = state_with(None);
    let (r, save) = st.update_default_printer(Err("missing field `printerName`".to_string()), clock);
    assert!(!save);
    assert_eq!(r.status, 400);
    match r.body {
        ReplyBody::Rejected { error, details } => {
            assert_eq!(error, "Invalid printerName payload");
            assert_eq!(details, "missing field `printerName`");
        },
        _ => panic!("wrong body"),
    }
}

fn payload(printer: Option<&str>, ext: Option<&str>, handler: Option<&str>) -> PrintPayload {
    PrintPayload {
        printer_name: printer.map(|s| s.to_string()),
        file_content_base64: "aGVsbG8=".to_string(),
        file_extension: ext.map(|s| s.to_string()),
        print_handler: handler.map(|s| s.to_string()),
    }
}

fn planned(st: &AppState, p: PrintPayload) -> PrintJob {
    match st.plan_print(Ok(p)) {
        Ok(job) => job,
        Err(_) => panic!("expected a job"),
    }
}

#[test]
fn print_plan_defaults() {
    let st = state_with(Some("HP"));
    let job = planned(&st, payload(None, None, None));
    assert_eq!(job.printer, "HP");
    assert_eq!(job.file_ext, ".bin");
    assert_eq!(job.handler, "word");
    assert_eq!(job.content_base64, "aGVsbG8=");
    let job = planned(&st, payload(Some(""), Some(".docx"), Some("wordpad")));
    assert_eq!(job.printer, "HP");
    assert_eq!(job.file_ext, ".docx");
    assert_eq!(job.handler, "wordpad");
    let job = planned(&st, payload(Some("EPSON"), None, None));
    assert_eq!(job.printer, "EPSON");
}

#[test]
fn print_without_any_printer_is_refused() {
    for st in [state_with(None), state_with(Some(""))] {
        match st.plan_print(Ok(payload(None, None, None))) {
            Err(r) => {
                assert_eq!(r.status, 200);
                assert_eq!(headers(&r), json_headers());
                match r.body {
                    ReplyBody::Failed(e) => {
                        assert_eq!(e, "No printer specified and no default printer configured.")
                    },
                    _ => panic!("wrong body"),
                }
            },
            Ok(_) => panic!("no job expected"),
        }
    }
}

#[test]
fn unreadable_print_request_is_rejected() {
    let st = state_with(Some("HP"));
    match st.plan_print(Err("EOF while parsing".to_string())) {
        Err(r) => {
            assert_eq!(r.status, 400);
            match r.body {
                ReplyBody::Rejected { error, details } => {
                    assert_eq!(error, "Invalid JSON print request");
                    assert_eq!(details, "EOF while parsing");
                },
                _ => panic!("wrong body"),
            }
        },
        Ok(_) => panic!("no job expected"),
    }
}

#[test]
fn finished_print_jobs_are_logged() {
    let mut st = state_with(Some("HP"));
    let job = planned(&st, payload(None, None, None));
    let r = st.finish_print(&job, Ok("SUCCESS: Thermal slip printed.".to_string()), clock);
    assert_eq!(r.status, 200);
    match r.body {
        ReplyBody::Printed(m) => assert_eq!(m, "SUCCESS: Thermal slip printed."),
        _ => panic!("wrong body"),
    }
    assert_eq!(
        log_fields(&st.logs[0]),
        [
            "Mon 11/17/2025 08:30 PM",
            "POS Slip",
            "HP",
            "Thermal ESC/POS",
            "Success",
            "SUCCESS: Thermal slip printed."
        ]
    );
    let job = planned(&st, payload(Some("Office"), Some(".docx"), Some("wordpad")));
    let r = st.finish_print(&job, Err("Spooler reported error: boom".to_string()), clock);
    match r.body {
        ReplyBody::Failed(e) => assert_eq!(e, "Spooler reported error: boom"),
        _ => panic!("wrong body"),
    }
    assert_eq!(
        log_fields(&st.logs[1]),
        [
            "Mon 11/17/2025 08:30 PM",
            "Office Template",
            "Office",
            "Windows WordPad",
            "Failed",
            "Spooler reported error: boom"
        ]
    );
    let job = planned(&st, payload(None, Some(".pdf"), None));
    st.finish_print(&job, Ok(String::new()), clock);
    assert_eq!(st.logs[2].print_engine, "Microsoft Word");
    assert_eq!(st.logs.len(), 3);
}

#[test]
fn tray_menu_actions() {
    assert_eq!(menu_action("show"), MenuAction::ShowDashboard);
    assert_eq!(menu_action("quit"), MenuAction::Quit);
    assert_eq!(menu_action("other"), MenuAction::Ignore);
}

#[test]
fn every_answer_allows_any_origin() {
    let mut st = state_with(Some("HP"));
    let mut replies = vec![preflight_reply(), not_found_reply(), printers_reply(vec![])];
    replies.push(st.settings_reply());
    replies.push(st.default_printer_reply());
    replies.push(st.update_settings(Err("bad".to_string()), clock).0);
    replies.push(st.update_default_printer(Ok("EPSON".to_string()), clock).0);
    if let Err(r) = st.plan_print(Err("bad".to_string())) {
        replies.push(r);
    }
    let job = planned(&st, payload(None, None, None));
    replies.push(st.finish_print(&job, Err("x".to_string()), clock));
    assert_eq!(replies.len(), 9);
    for r in &replies {
        assert_eq!(headers(r)[0], ("Access-Control-Allow-Origin".to_string(), "*".to_string()));
        assert!([200u16, 204, 400, 404].contains(&r.status));
    }
}
