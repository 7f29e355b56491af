//! The start of a page-content extraction: the address is parsed, and a
//! hidden window is planned for it.
//!
//! The caller subscribes to the content event first, then asks for the
//! plan, and only with a plan in hand creates the window. An address that
//! does not parse yields no plan, so no window is ever created for it.

use crate::extract::{Extraction, ExtractionView, SETTLE_DELAY_MS};
use vstd::prelude::*;

verus! {

/// The label of the hidden window. It is the same for every extraction, so
/// two extractions cannot be under way at once.
pub const AUX_WINDOW: &'static str = "hidden-webview";

/// The browser that the hidden window claims to be.
pub const USER_AGENT: &'static str =
    "Mozilla/5.0 (Macintosh; Intel Mac OS X 10_15_7) AppleWebKit/537.36 (KHTML, like Gecko) Chrome/120.0.0.0 Safari/537.36";

/// The event on which an extraction's payload is handed in, once.
pub const CONTENT_EVENT: &'static str = "page-content";

/// The event on which a payload is passed on to everyone who listens.
pub const RECEIVED_EVENT: &'static str = "page-content-received";

/// What stands before the detail of an address that did not parse.
pub const URL_ERROR_PREFIX: &'static str = "URL解析失败: ";

/// What stands before the detail of a window that could not be created.
pub const WINDOW_ERROR_PREFIX: &'static str = "创建webview失败: ";

/// How the hidden window is to be created.
#[derive(Clone, Debug, PartialEq, Eq)]
pub struct AuxWindowConfig {
    pub label: &'static str,
    /// The address to load, as the parser wrote it out.
    pub url: String,
    pub visible: bool,
    pub fullscreen: bool,
    pub decorations: bool,
    pub resizable: bool,
    pub skip_taskbar: bool,
    pub user_agent: &'static str,
}

/// A window's configuration as plain values.
pub struct AuxWindowConfigView {
    pub label: Seq<char>,
    pub url: Seq<char>,
    pub visible: bool,
    pub fullscreen: bool,
    pub decorations: bool,
    pub resizable: bool,
    pub skip_taskbar: bool,
    pub user_agent: Seq<char>,
}

impl View for AuxWindowConfig {
    type V = AuxWindowConfigView;

    open spec fn view(&self) -> AuxWindowConfigView {
        AuxWindowConfigView {
            label: self.label@,
            url: self.url@,
            visible: self.visible,
            fullscreen: self.fullscreen,
            decorations: self.decorations,
            resizable: self.resizable,
            skip_taskbar: self.skip_taskbar,
            user_agent: self.user_agent@,
        }
    }
}

/// Why an extraction could not start.
#[derive(Clone, Debug, PartialEq, Eq)]
pub enum LaunchError {
    /// The address does not parse; the parser's reason.
    UrlParse(String),
    /// The window system could not create the hidden window; its reason.
    WindowCreation(String),
}

/// A launch error as plain values.
pub enum LaunchErrorView {
    UrlParse(Seq<char>),
    WindowCreation(Seq<char>),
}

impl View for LaunchError {
    type V = LaunchErrorView;

    open spec fn view(&self) -> LaunchErrorView {
        match self {
            LaunchError::UrlParse(d) => LaunchErrorView::UrlParse(d@),
            LaunchError::WindowCreation(d) => LaunchErrorView::WindowCreation(d@),
        }
    }
}

impl LaunchErrorView {
    /// The text shown to the caller: a prefix that names the step, then the
    /// reason.
    pub open spec fn message(self) -> Seq<char> {
        match self {
            LaunchErrorView::UrlParse(d) => URL_ERROR_PREFIX@ + d,
            LaunchErrorView::WindowCreation(d) => WINDOW_ERROR_PREFIX@ + d,
        }
    }
}

impl LaunchError {
    /// The text shown to the caller: a prefix that names the step, then the
    /// reason.
    pub fn message(&self) -> (text: String)
        ensures
            text@ == self@.message(),
    {
        match self {
            LaunchError::UrlParse(d) => String::from_str(URL_ERROR_PREFIX).concat(d.as_str()),
            LaunchError::WindowCreation(d) => String::from_str(WINDOW_ERROR_PREFIX).concat(
                d.as_str(),
            ),
        }
    }
}

/// A planned extraction: the window to create, the milliseconds to let the
/// page settle between the end of its loading and the first look, and the
/// extraction that the looks will feed.
#[derive(Debug, PartialEq, Eq)]
pub struct Launch {
    pub window: AuxWindowConfig,
    pub settle_ms: u64,
    pub extraction: Extraction,
}

/// A planned extraction as plain values.
pub struct LaunchView {
    pub window: AuxWindowConfigView,
    pub settle_ms: u64,
    pub extraction: ExtractionView,
}

impl View for Launch {
    type V = LaunchView;

    open spec fn view(&self) -> LaunchView {
        LaunchView {
            window: self.window@,
            settle_ms: self.settle_ms,
            extraction: self.extraction@,
        }
    }
}

/// What `url::Url::parse` makes of a text: the address written out again,
/// or the reason why the text is no absolute address.
pub uninterp spec fn url_parse(text: Seq<char>) -> Result<Seq<char>, Seq<char>>;

/// The view of a parser's result.
pub open spec fn parsed_view(r: Result<String, String>) -> Result<Seq<char>, Seq<char>> {
    match r {
        Ok(address) => Ok(address@),
        Err(reason) => Err(reason@),
    }
}

/// Calls `url::Url::parse`. The contract names the result and claims
/// nothing else: a parsed address comes back in the parser's own writing of
/// it, a failure as the text of the parser's error.
#[verifier::external_body]
fn parse_url(text: &str) -> (r: Result<String, String>)
    ensures
        parsed_view(r) == url_parse(text@),
{
    match url::Url::parse(text) {
        Ok(address) => Ok(String::from(address)),
        Err(reason) => Err(reason.to_string()),
    }
}

/// The hidden window for `address`: invisible, full-screen, without frame,
/// of fixed size, and kept off the taskbar.
pub open spec fn hidden_window(address: Seq<char>) -> AuxWindowConfigView {
    AuxWindowConfigView {
        label: AUX_WINDOW@,
        url: address,
        visible: false,
        fullscreen: true,
        decorations: false,
        resizable: false,
        skip_taskbar: true,
        user_agent: USER_AGENT@,
    }
}

/// The plan for a request: for an address that parsed, the hidden window
/// that loads it and a fresh extraction that remembers the text as it was
/// asked for; for one that did not, the parse error and nothing else.
pub open spec fn planned(parsed: Result<Seq<char>, Seq<char>>, requested: Seq<char>) -> Result<
    LaunchView,
    LaunchErrorView,
> {
    match parsed {
        Ok(address) => Ok(
            LaunchView {
                window: hidden_window(address),
                settle_ms: SETTLE_DELAY_MS,
                extraction: ExtractionView { url: requested, attempts: 0 },
            },
        ),
        Err(reason) => Err(LaunchErrorView::UrlParse(reason)),
    }
}

/// The view of a plan or of the error in its place.
pub open spec fn plan_view(r: Result<Launch, LaunchError>) -> Result<LaunchView, LaunchErrorView> {
    match r {
        Ok(launch) => Ok(launch@),
        Err(e) => Err(e@),
    }
}

/// Plans the extraction for a request whose address the parser has seen.
pub fn plan_launch(parsed: Result<String, String>, requested: &str) -> (r: Result<
    Launch,
    LaunchError,
>)
    ensures
        plan_view(r) == planned(parsed_view(parsed), requested@),
{
    match parsed {
        Ok(address) => Ok(
            Launch {
                window: AuxWindowConfig {
                    label: AUX_WINDOW,
                    url: address,
                    visible: false,
                    fullscreen: true,
                    decorations: false,
                    resizable: false,
                    skip_taskbar: true,
                    user_agent: USER_AGENT,
                },
                settle_ms: SETTLE_DELAY_MS,
                extraction: Extraction::begin(String::from_str(requested)),
            },
        ),
        Err(reason) => Err(LaunchError::UrlParse(reason)),
    }
}

/// Parses the address of a request and plans its extraction. A text that
/// is no absolute address is refused with the parser's reason, and no
/// window is planned for it.
pub fn get_page_content(url: &str) -> (r: Result<Launch, LaunchError>)
    ensures
        plan_view(r) == planned(url_parse(url@), url@),
{
    let parsed = parse_url(url);
    plan_launch(parsed, url)
}

/// The end of a request: nothing on success, and the window system's
/// reason if it could not create the hidden window.
pub fn window_created(created: Result<(), String>) -> (r: Result<(), LaunchError>)
    ensures
        created is Ok ==> r is Ok,
        created matches Err(reason) ==> r matches Err(e) && e@ == LaunchErrorView::WindowCreation(
            reason@,
        ),
{
    match created {
        Ok(()) => Ok(()),
        Err(reason) => Err(LaunchError::WindowCreation(reason)),
    }
}

/// An address that does not parse never leads to a window: its request
/// ends at once in the parse error, whose text is the fixed prefix and the
/// parser's reason.
pub proof fn law_malformed_url_plans_no_window(parsed: Result<Seq<char>, Seq<char>>, url: Seq<char>)
    ensures
        parsed is Err <==> planned(parsed, url) is Err,
        parsed matches Err(reason) ==> {
            &&& planned(parsed, url) == Err::<LaunchView, LaunchErrorView>(
                LaunchErrorView::UrlParse(reason),
            )
            &&& planned(parsed, url)->Err_0.message() == URL_ERROR_PREFIX@ + reason
        },
{
}

} // verus!
