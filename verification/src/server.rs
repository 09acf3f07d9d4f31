//! The local print server's decisions: which endpoint a request addresses and
//! what each endpoint answers. Sockets, JSON encoding and the system calls a
//! request needs are left to the caller, which hands in their results.

use vstd::prelude::*;
use crate::model::{opt_view, AppState, AppStateView, DriverSettings, SettingsView};
use crate::state::with_default_printer;
use crate::text::{str_equal, views};

verus! {

/// The endpoints of the print server.
#[derive(Clone, Copy, Debug, PartialEq, Eq, Structural)]
pub enum Route {
    /// Any `OPTIONS` request: the CORS preflight.
    Preflight,
    /// `GET /printers`.
    ListPrinters,
    /// `GET /settings`.
    GetSettings,
    /// `POST /settings`.
    UpdateSettings,
    /// `GET /settings/default-printer`.
    GetDefaultPrinter,
    /// `POST /settings/default-printer`.
    UpdateDefaultPrinter,
    /// `POST /print`.
    Print,
    /// Anything else.
    NotFound,
}

/// The endpoint a request with `method` and `url` addresses. `OPTIONS` is a
/// preflight whatever the path; paths are matched exactly.
pub open spec fn route_of(method: Seq<char>, url: Seq<char>) -> Route {
    if method == "OPTIONS"@ {
        Route::Preflight
    } else if url == "/printers"@ && method == "GET"@ {
        Route::ListPrinters
    } else if url == "/settings"@ && method == "GET"@ {
        Route::GetSettings
    } else if url == "/settings"@ && method == "POST"@ {
        Route::UpdateSettings
    } else if url == "/settings/default-printer"@ && method == "GET"@ {
        Route::GetDefaultPrinter
    } else if url == "/settings/default-printer"@ && method == "POST"@ {
        Route::UpdateDefaultPrinter
    } else if url == "/print"@ && method == "POST"@ {
        Route::Print
    } else {
        Route::NotFound
    }
}

/// Finds the endpoint a request addresses.
pub fn route_request(method: &str, url: &str) -> (r: Route)
    ensures
        r == route_of(method@, url@),
{
    let get = str_equal(method, "GET");
    let post = str_equal(method, "POST");
    if str_equal(method, "OPTIONS") {
        Route::Preflight
    } else if str_equal(url, "/printers") && get {
        Route::ListPrinters
    } else if str_equal(url, "/settings") && get {
        Route::GetSettings
    } else if str_equal(url, "/settings") && post {
        Route::UpdateSettings
    } else if str_equal(url, "/settings/default-printer") && get {
        Route::GetDefaultPrinter
    } else if str_equal(url, "/settings/default-printer") && post {
        Route::UpdateDefaultPrinter
    } else if str_equal(url, "/print") && post {
        Route::Print
    } else {
        Route::NotFound
    }
}

/// One response header.
pub struct Header {
    pub name: String,
    pub value: String,
}

/// What a response says; the caller encodes it as JSON.
pub enum ReplyBody {
    /// No body.
    Empty,
    /// `{"success": true, "printers": [..]}`.
    Printers(Vec<String>),
    /// The settings object (`defaultPrinter`, `autoReconnect`).
    Settings(DriverSettings),
    /// `{"success": true}`.
    Success,
    /// `{"success": false, "error": .., "details": ..}`.
    Rejected { error: String, details: String },
    /// `{"printerName": ..}`.
    DefaultPrinter(String),
    /// `{"success": true, "message": ..}`.
    Printed(String),
    /// `{"success": false, "error": ..}`.
    Failed(String),
}

/// A response: status code, headers in order, body.
pub struct Reply {
    pub status: u16,
    pub headers: Vec<Header>,
    pub body: ReplyBody,
}

/// A response body as values.
pub enum BodyView {
    Empty,
    Printers(Seq<Seq<char>>),
    Settings(SettingsView),
    Success,
    Rejected(Seq<char>, Seq<char>),
    DefaultPrinter(Seq<char>),
    Printed(Seq<char>),
    Failed(Seq<char>),
}

/// A response as values.
pub struct ReplyView {
    pub status: u16,
    pub headers: Seq<(Seq<char>, Seq<char>)>,
    pub body: BodyView,
}

impl View for ReplyBody {
    type V = BodyView;

    open spec fn view(&self) -> BodyView {
        match self {
            ReplyBody::Empty => BodyView::Empty,
            ReplyBody::Printers(p) => BodyView::Printers(views(p@)),
            ReplyBody::Settings(s) => BodyView::Settings(s@),
            ReplyBody::Success => BodyView::Success,
            ReplyBody::Rejected { error, details } => BodyView::Rejected(error@, details@),
            ReplyBody::DefaultPrinter(n) => BodyView::DefaultPrinter(n@),
            ReplyBody::Printed(m) => BodyView::Printed(m@),
            ReplyBody::Failed(e) => BodyView::Failed(e@),
        }
    }
}

impl View for Reply {
    type V = ReplyView;

    open spec fn view(&self) -> ReplyView {
        ReplyView {
            status: self.status,
            headers: self.headers@.map_values(|h: Header| (h.name@, h.value@)),
            body: self.body@,
        }
    }
}

/// The header every response carries: any origin may read it.
pub open spec fn origin_header() -> (Seq<char>, Seq<char>) {
    ("Access-Control-Allow-Origin"@, "*"@)
}

/// Headers of the preflight answer.
pub open spec fn preflight_headers() -> Seq<(Seq<char>, Seq<char>)> {
    seq![
        origin_header(),
        ("Access-Control-Allow-Methods"@, "GET, POST, OPTIONS"@),
        ("Access-Control-Allow-Headers"@, "Content-Type"@),
    ]
}

/// Headers of a JSON answer.
pub open spec fn json_headers() -> Seq<(Seq<char>, Seq<char>)> {
    seq![origin_header(), ("Content-Type"@, "application/json"@)]
}

/// Headers of an answer without body.
pub open spec fn bare_headers() -> Seq<(Seq<char>, Seq<char>)> {
    seq![origin_header()]
}

/// The answer to a preflight: 204, the CORS permissions, no body.
pub open spec fn preflight_answer() -> ReplyView {
    ReplyView { status: 204, headers: preflight_headers(), body: BodyView::Empty }
}

/// The answer to an unknown endpoint: 404 without body.
pub open spec fn not_found_answer() -> ReplyView {
    ReplyView { status: 404, headers: bare_headers(), body: BodyView::Empty }
}

/// The answers the server gives: the preflight answer, the 404 answer, or a
/// JSON answer with status 200 or 400.
pub open spec fn is_answer(r: ReplyView) -> bool {
    ||| r == preflight_answer()
    ||| r == not_found_answer()
    ||| r.headers == json_headers() && (r.status == 200 || r.status == 400)
}

/// A JSON answer with `status` and `body`.
pub open spec fn json_reply(status: u16, body: BodyView) -> ReplyView {
    ReplyView { status, headers: json_headers(), body }
}

fn header(name: &str, value: &str) -> (h: Header)
    ensures
        h.name@ == name@,
        h.value@ == value@,
{
    Header { name: name.to_owned(), value: value.to_owned() }
}

fn json_header_list() -> (r: Vec<Header>)
    ensures
        r@.map_values(|h: Header| (h.name@, h.value@)) == json_headers(),
{
    let r = vec![
        header("Access-Control-Allow-Origin", "*"),
        header("Content-Type", "application/json"),
    ];
    assert(r@.map_values(|h: Header| (h.name@, h.value@)) =~= json_headers());
    r
}

fn json_response(status: u16, body: ReplyBody) -> (r: Reply)
    ensures
        r@ == json_reply(status, body@),
{
    Reply { status, headers: json_header_list(), body }
}

/// The answer to a preflight: 204, the CORS permissions, no body.
pub fn preflight_reply() -> (r: Reply)
    ensures
        r@ == preflight_answer(),
        is_answer(r@),
{
    let headers = vec![
        header("Access-Control-Allow-Origin", "*"),
        header("Access-Control-Allow-Methods", "GET, POST, OPTIONS"),
        header("Access-Control-Allow-Headers", "Content-Type"),
    ];
    assert(headers@.map_values(|h: Header| (h.name@, h.value@)) =~= preflight_headers());
    Reply { status: 204, headers, body: ReplyBody::Empty }
}

/// The answer to an unknown endpoint: 404 without body.
pub fn not_found_reply() -> (r: Reply)
    ensures
        r@ == not_found_answer(),
        is_answer(r@),
{
    let headers = vec![header("Access-Control-Allow-Origin", "*")];
    assert(headers@.map_values(|h: Header| (h.name@, h.value@)) =~= bare_headers());
    Reply { status: 404, headers, body: ReplyBody::Empty }
}

/// The answer to `GET /printers`, given the installed printers.
pub fn printers_reply(printers: Vec<String>) -> (r: Reply)
    ensures
        r@ == json_reply(200, BodyView::Printers(views(printers@))),
        is_answer(r@),
{
    json_response(200, ReplyBody::Printers(printers))
}

/// The printer name `GET /settings/default-printer` reports: the default
/// printer, or the empty text when there is none.
pub open spec fn reported_default(s: SettingsView) -> Seq<char> {
    match s.default_printer {
        Some(p) => p,
        None => Seq::empty(),
    }
}

/// The message of a print request that names no printer while no default is
/// configured.
pub open spec fn no_printer_message() -> Seq<char> {
    "No printer specified and no default printer configured."@
}

/// A print request as received.
pub struct PrintPayload {
    pub printer_name: Option<String>,
    pub file_content_base64: String,
    pub file_extension: Option<String>,
    pub print_handler: Option<String>,
}

/// A print job ready for the spooler.
pub struct PrintJob {
    pub printer: String,
    pub content_base64: String,
    pub file_ext: String,
    pub handler: String,
}

/// The printer a request prints on: the one it names, else the configured
/// default, else none (the empty text).
pub open spec fn target_printer(requested: Option<Seq<char>>, default: Option<Seq<char>>) -> Seq<
    char,
> {
    match requested {
        Some(p) if p.len() > 0 => p,
        _ => match default {
            Some(d) => d,
            None => Seq::empty(),
        },
    }
}

/// The document extension of a request: the one it names, else `.bin`.
pub open spec fn job_extension(requested: Option<Seq<char>>) -> Seq<char> {
    match requested {
        Some(e) => e,
        None => ".bin"@,
    }
}

/// The print handler of a request: the one it names, else `word`.
pub open spec fn job_handler(requested: Option<Seq<char>>) -> Seq<char> {
    match requested {
        Some(h) => h,
        None => "word"@,
    }
}

fn or_literal(o: Option<String>, fallback: &str) -> (r: String)
    ensures
        r@ == match opt_view(o) {
            Some(s) => s,
            None => fallback@,
        },
{
    match o {
        Some(s) => s,
        None => fallback.to_owned(),
    }
}

/// The answer to `GET /settings` in state `st`.
pub open spec fn settings_reply_of(st: AppStateView) -> ReplyView {
    json_reply(200, BodyView::Settings(st.settings))
}

/// The answer to `GET /settings/default-printer` in state `st`.
pub open spec fn default_printer_reply_of(st: AppStateView) -> ReplyView {
    json_reply(200, BodyView::DefaultPrinter(reported_default(st.settings)))
}

impl AppState {
    /// The answer to `GET /settings`: the current settings.
    pub fn settings_reply(&self) -> (r: Reply)
        ensures
            r@ == settings_reply_of(self@),
            is_answer(r@),
    {
        json_response(200, ReplyBody::Settings(self.settings.duplicate()))
    }

    /// The answer to `GET /settings/default-printer`.
    pub fn default_printer_reply(&self) -> (r: Reply)
        ensures
            r@ == default_printer_reply_of(self@),
            is_answer(r@),
    {
        let name = match &self.settings.default_printer {
            Some(p) => p.clone(),
            None => String::new(),
        };
        json_response(200, ReplyBody::DefaultPrinter(name))
    }

    /// Handles `POST /settings` with the request body read as settings, or the
    /// reason it could not be. Valid settings replace the current ones (the
    /// change of default printer is logged) and the second component asks the
    /// caller to persist them; an invalid body is answered 400 and changes
    /// nothing. The clock is read only for the change entry: the precondition
    /// allows no other reading.
    pub fn update_settings<C: Fn() -> String>(
        &mut self,
        payload: Result<DriverSettings, String>,
        now: C,
    ) -> (r: (Reply, bool))
        requires
            payload matches Ok(s) && old(self)@.settings.default_printer != s@.default_printer
                ==> now.requires(()),
        ensures
            match payload {
                Ok(s) => {
                    &&& final(self)@.settings == s@
                    &&& final(self)@.settings_path == old(self)@.settings_path
                    &&& old(self)@.settings.default_printer == s@.default_printer
                        ==> final(self)@.logs == old(self)@.logs
                    &&& old(self)@.settings.default_printer != s@.default_printer ==> exists|
                        ts: String,
                    |
                        #[trigger] now.ensures((), ts) && final(self)@.logs
                            == crate::state::logs_after_change(
                            old(self)@.logs,
                            old(self)@.settings.default_printer,
                            s@.default_printer,
                            ts@,
                        )
                    &&& r.0@ == json_reply(200, BodyView::Success)
                    &&& r.1
                },
                Err(details) => {
                    &&& final(self)@ == old(self)@
                    &&& r.0@ == json_reply(
                        400,
                        BodyView::Rejected("Invalid settings payload"@, details@),
                    )
                    &&& !r.1
                },
            },
            is_answer(r.0@),
    {
        match payload {
            Ok(s) => {
                self.replace_settings(s, now);
                (json_response(200, ReplyBody::Success), true)
            },
            Err(details) => {
                let body = ReplyBody::Rejected {
                    error: "Invalid settings payload".to_owned(),
                    details,
                };
                (json_response(400, body), false)
            },
        }
    }

    /// Handles `POST /settings/default-printer` with the `printerName` of the
    /// request, or the reason it could not be read. An empty name clears the
    /// default printer; a change is logged and the second component asks the
    /// caller to persist the settings. An invalid body is answered 400 and
    /// changes nothing. The clock is read only for the change entry.
    pub fn update_default_printer<C: Fn() -> String>(
        &mut self,
        payload: Result<String, String>,
        now: C,
    ) -> (r: (Reply, bool))
        requires
            payload matches Ok(name) && old(self)@.settings.default_printer
                != with_default_printer(old(self)@.settings, name@).default_printer
                ==> now.requires(()),
        ensures
            match payload {
                Ok(name) => {
                    &&& final(self)@.settings == with_default_printer(old(self)@.settings, name@)
                    &&& final(self)@.settings_path == old(self)@.settings_path
                    &&& old(self)@.settings.default_printer
                        == final(self)@.settings.default_printer ==> final(self)@.logs == old(
                        self,
                    )@.logs
                    &&& old(self)@.settings.default_printer
                        != final(self)@.settings.default_printer ==> exists|ts: String|
                        #[trigger] now.ensures((), ts) && final(self)@.logs
                            == crate::state::logs_after_change(
                            old(self)@.logs,
                            old(self)@.settings.default_printer,
                            final(self)@.settings.default_printer,
                            ts@,
                        )
                    &&& r.0@ == json_reply(200, BodyView::Success)
                    &&& r.1
                },
                Err(details) => {
                    &&& final(self)@ == old(self)@
                    &&& r.0@ == json_reply(
                        400,
                        BodyView::Rejected("Invalid printerName payload"@, details@),
                    )
                    &&& !r.1
                },
            },
            is_answer(r.0@),
    {
        match payload {
            Ok(name) => {
                self.set_default_printer(name, now);
                (json_response(200, ReplyBody::Success), true)
            },
            Err(details) => {
                let body = ReplyBody::Rejected {
                    error: "Invalid printerName payload".to_owned(),
                    details,
                };
                (json_response(400, body), false)
            },
        }
    }

    /// Turns a `POST /print` request (or the reason its body could not be
    /// read) into a job for the spooler, or into the answer when there is
    /// nothing to print: 400 for an unreadable body, a failure naming the
    /// missing printer when neither the request nor the settings name one.
    pub fn plan_print(&self, payload: Result<PrintPayload, String>) -> (r: Result<PrintJob, Reply>)
        ensures
            match payload {
                Err(details) => match r {
                    Err(reply) => reply@ == json_reply(
                        400,
                        BodyView::Rejected("Invalid JSON print request"@, details@),
                    ),
                    Ok(_) => false,
                },
                Ok(p) => {
                    let printer = target_printer(
                        opt_view(p.printer_name),
                        self@.settings.default_printer,
                    );
                    match r {
                        Err(reply) => printer.len() == 0 && reply@ == json_reply(
                            200,
                            BodyView::Failed(no_printer_message()),
                        ),
                        Ok(job) => {
                            &&& printer.len() > 0
                            &&& job.printer@ == printer
                            &&& job.content_base64@ == p.file_content_base64@
                            &&& job.file_ext@ == job_extension(opt_view(p.file_extension))
                            &&& job.handler@ == job_handler(opt_view(p.print_handler))
                        },
                    }
                },
            },
            r matches Err(reply) ==> is_answer(reply@),
    {
        match payload {
            Err(details) => {
                let body = ReplyBody::Rejected {
                    error: "Invalid JSON print request".to_owned(),
                    details,
                };
                Err(json_response(400, body))
            },
            Ok(p) => {
                let file_ext = or_literal(p.file_extension, ".bin");
                let handler = or_literal(p.print_handler, "word");
                proof {
                    reveal_strlit("");
                }
                let mut printer = or_literal(p.printer_name, "");
                if printer.as_str().is_empty() {
                    if let Some(d) = &self.settings.default_printer {
                        printer = d.clone();
                    }
                }
                if printer.as_str().is_empty() {
                    let body = ReplyBody::Failed(
                        "No printer specified and no default printer configured.".to_owned(),
                    );
                    Err(json_response(200, body))
                } else {
                    Ok(PrintJob { printer, content_base64: p.file_content_base64, file_ext, handler })
                }
            },
        }
    }

    /// Records the spooler's `outcome` for `job` in the history and answers
    /// the request with it.
    pub fn finish_print<C: Fn() -> String>(
        &mut self,
        job: &PrintJob,
        outcome: Result<String, String>,
        now: C,
    ) -> (r: Reply)
        requires
            now.requires(()),
        ensures
            final(self)@.settings == old(self)@.settings,
            final(self)@.settings_path == old(self)@.settings_path,
            exists|ts: String|
                #[trigger] now.ensures((), ts) && final(self)@.logs == old(self)@.logs.push(
                    crate::history::print_job_entry(
                        ts@,
                        job.printer@,
                        job.file_ext@,
                        job.handler@,
                        match outcome {
                            Ok(m) => Ok(m@),
                            Err(e) => Err(e@),
                        },
                    ),
                ),
            r@ == json_reply(
                200,
                match outcome {
                    Ok(m) => BodyView::Printed(m@),
                    Err(e) => BodyView::Failed(e@),
                },
            ),
            job.file_ext@ == ".bin"@ ==> final(self)@.logs.last().print_engine
                == "Thermal ESC/POS"@,
            is_answer(r@),
    {
        self.record_print(&job.printer, &job.file_ext, &job.handler, &outcome, now);
        match outcome {
            Ok(m) => json_response(200, ReplyBody::Printed(m)),
            Err(e) => json_response(200, ReplyBody::Failed(e)),
        }
    }
}

/// What `GET /settings/default-printer` reports after
/// `POST /settings/default-printer` with `name` is `name` itself (an empty
/// name clears the default and is reported empty); the other setting is kept.
pub proof fn law_default_printer_read_back(st: AppStateView, name: Seq<char>)
    ensures
        default_printer_reply_of(
            AppStateView { settings: with_default_printer(st.settings, name), ..st },
        ).body == BodyView::DefaultPrinter(name),
        with_default_printer(st.settings, name).auto_reconnect == st.settings.auto_reconnect,
{
    if name.len() == 0 {
        assert(name =~= Seq::<char>::empty());
    }
}

/// What `GET /settings` answers after a successful `POST /settings` are the
/// posted settings, with status 200.
pub proof fn law_settings_read_back(st: AppStateView, posted: SettingsView)
    ensures
        settings_reply_of(AppStateView { settings: posted, ..st }) == json_reply(
            200,
            BodyView::Settings(posted),
        ),
{
}

/// Every answer the server gives lets any origin read it (its first header is
/// `Access-Control-Allow-Origin: *`) and has status 200, 204, 400 or 404.
pub proof fn law_every_answer_allows_any_origin(r: ReplyView)
    requires
        is_answer(r),
    ensures
        r.headers.len() >= 1,
        r.headers[0] == origin_header(),
        r.status == 200 || r.status == 204 || r.status == 400 || r.status == 404,
{
}

/// Each endpoint is reached only by its own method and path: a request that is
/// not a preflight reaches an endpoint only with exactly that method and URL.
pub proof fn law_routes_match_exactly(method: Seq<char>, url: Seq<char>)
    ensures
        route_of(method, url) == Route::Preflight <==> method == "OPTIONS"@,
        route_of(method, url) == Route::ListPrinters ==> method == "GET"@ && url
            == "/printers"@,
        route_of(method, url) == Route::GetSettings ==> method == "GET"@ && url == "/settings"@,
        route_of(method, url) == Route::UpdateSettings ==> method == "POST"@ && url
            == "/settings"@,
        route_of(method, url) == Route::GetDefaultPrinter ==> method == "GET"@ && url
            == "/settings/default-printer"@,
        route_of(method, url) == Route::UpdateDefaultPrinter ==> method == "POST"@ && url
            == "/settings/default-printer"@,
        route_of(method, url) == Route::Print ==> method == "POST"@ && url == "/print"@,
        method == "POST"@ && url == "/print"@ ==> route_of(method, url) == Route::Print || method
            == "OPTIONS"@,
{
    reveal_strlit("POST");
    reveal_strlit("GET");
    reveal_strlit("/print");
    reveal_strlit("/printers");
    reveal_strlit("/settings");
    reveal_strlit("/settings/default-printer");
    if method == "POST"@ && url == "/print"@ {
        assert(method != "GET"@) by {
            assert(method.len() != "GET"@.len());
        }
        assert(url != "/settings"@) by {
            assert(url[1] != "/settings"@[1]);
        }
        assert(url != "/settings/default-printer"@) by {
            assert(url.len() != "/settings/default-printer"@.len());
        }
    }
}

/// An `OPTIONS` request is a preflight whatever its path.
pub proof fn law_options_is_preflight(url: Seq<char>)
    ensures
        route_of("OPTIONS"@, url) == Route::Preflight,
{
}

/// A request names its own printer whenever it gives a non-empty name; the
/// configured default is used only otherwise.
pub proof fn law_requested_printer_wins(requested: Seq<char>, default: Option<Seq<char>>)
    ensures
        requested.len() > 0 ==> target_printer(Some(requested), default) == requested,
        requested.len() == 0 ==> target_printer(Some(requested), default) == target_printer(
            None,
            default,
        ),
{
}

} // verus!
