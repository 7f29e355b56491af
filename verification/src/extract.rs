//! The page-content extractor's rules: which text of a loaded page counts
//! as its content, when an attempt succeeds, how many attempts are made,
//! and what is reported in the end.
//!
//! A hidden window loads the page. After a settling delay the page is
//! looked at up to ten times, two seconds apart. Each look yields a
//! snapshot of the page's texts, taken after scrolling to the bottom and
//! back and removing the boilerplate elements. The rules here turn the
//! snapshots into one payload: the first content found, or a failure after
//! the tenth look.

use crate::text::{chars_of, join_lines, texts, trim, trim_bounds, trimmed, trimmed_len};
use vstd::prelude::*;

verus! {

/// The number of looks at a page before the extractor gives up.
pub const MAX_ATTEMPTS: u32 = 10;

/// Milliseconds between the end of the page's loading and the first look.
pub const SETTLE_DELAY_MS: u64 = 2000;

/// Milliseconds between a look that found nothing and the next one.
pub const RETRY_DELAY_MS: u64 = 2000;

/// Milliseconds between the scroll to the bottom and the scroll back.
pub const SCROLL_PAUSE_MS: u64 = 100;

/// A container's text is taken only if it is longer than this.
pub const CONTAINER_THRESHOLD: usize = 100;

/// A fragment is dropped if its trimmed text is shorter than this.
pub const FRAGMENT_MIN_CHARS: usize = 10;

/// A look succeeds only if the content is longer than this.
pub const CONTENT_THRESHOLD: usize = 50;

/// The title reported for a page that has none.
pub const UNTITLED: &'static str = "无标题";

/// The title of the failure payload.
pub const FAILURE_TITLE: &'static str = "extraction failed";

/// The content of the failure payload.
pub const FAILURE_CONTENT: &'static str = "无法提取页面内容，可能是动态加载或受保护的页面";

/// The selectors of the content containers, most trusted first.
pub open spec fn content_selector_list() -> Seq<Seq<char>> {
    seq![
        "main"@,
        "[role=\"main\"]"@,
        ".content"@,
        ".main-content"@,
        ".post-content"@,
        ".article-content"@,
        ".entry-content"@,
        "article"@,
        ".container"@,
    ]
}

/// The selectors of the elements removed from the page before its text is
/// read: scripts, styles, advertisements, navigation, headers and footers.
pub open spec fn boilerplate_selector_list() -> Seq<Seq<char>> {
    seq![
        "script"@,
        "style"@,
        ".ads"@,
        ".ad"@,
        ".advertisement"@,
        ".google-ads"@,
        "nav"@,
        "header"@,
        "footer"@,
        ".nav"@,
        ".header"@,
        ".footer"@,
    ]
}

/// The selectors of the elements whose texts are the page's fragments.
pub open spec fn fragment_selector_list() -> Seq<Seq<char>> {
    seq!["p"@, "div"@, "span"@]
}

/// The views of a vector of string slices, in order.
pub open spec fn slices(v: Seq<&'static str>) -> Seq<Seq<char>> {
    Seq::new(v.len(), |i: int| v[i]@)
}

/// The selectors of the content containers, most trusted first. A snapshot
/// lists the containers' texts in this order.
pub fn content_selectors() -> (v: Vec<&'static str>)
    ensures
        slices(v@) == content_selector_list(),
{
    let mut v: Vec<&'static str> = Vec::new();
    v.push("main");
    v.push("[role=\"main\"]");
    v.push(".content");
    v.push(".main-content");
    v.push(".post-content");
    v.push(".article-content");
    v.push(".entry-content");
    v.push("article");
    v.push(".container");
    assert(slices(v@) =~= content_selector_list());
    v
}

/// The selectors of the elements removed from the page before its text is
/// read.
pub fn boilerplate_selectors() -> (v: Vec<&'static str>)
    ensures
        slices(v@) == boilerplate_selector_list(),
{
    let mut v: Vec<&'static str> = Vec::new();
    v.push("script");
    v.push("style");
    v.push(".ads");
    v.push(".ad");
    v.push(".advertisement");
    v.push(".google-ads");
    v.push("nav");
    v.push("header");
    v.push("footer");
    v.push(".nav");
    v.push(".header");
    v.push(".footer");
    assert(slices(v@) =~= boilerplate_selector_list());
    v
}

/// The selectors of the elements whose texts are the page's fragments:
/// paragraphs, blocks and spans.
pub fn fragment_selectors() -> (v: Vec<&'static str>)
    ensures
        slices(v@) == fragment_selector_list(),
{
    let mut v: Vec<&'static str> = Vec::new();
    v.push("p");
    v.push("div");
    v.push("span");
    assert(slices(v@) =~= fragment_selector_list());
    v
}

/// What one look at the page found.
#[derive(Clone, Debug, PartialEq, Eq)]
pub struct PageSnapshot {
    /// The document's title; empty if it has none.
    pub title: String,
    /// The address the page is at now, which redirects may have changed.
    pub location: String,
    /// For each content selector, in order, the text of the first element
    /// that matches it; empty where none does.
    pub containers: Vec<String>,
    /// The text of the whole document body.
    pub body_text: String,
    /// The texts of the page's paragraphs, blocks and spans, in document
    /// order.
    pub fragments: Vec<String>,
}

/// A snapshot as plain values.
pub struct PageSnapshotView {
    pub title: Seq<char>,
    pub location: Seq<char>,
    pub containers: Seq<Seq<char>>,
    pub body_text: Seq<char>,
    pub fragments: Seq<Seq<char>>,
}

impl View for PageSnapshot {
    type V = PageSnapshotView;

    open spec fn view(&self) -> PageSnapshotView {
        PageSnapshotView {
            title: self.title@,
            location: self.location@,
            containers: texts(self.containers@),
            body_text: self.body_text@,
            fragments: texts(self.fragments@),
        }
    }
}

/// A container is rich if its trimmed text is longer than 100 characters.
pub open spec fn rich(text: Seq<char>) -> bool {
    trim(text).len() > CONTAINER_THRESHOLD
}

/// The trimmed text of the first rich container at or after `from`; empty
/// if there is none.
pub open spec fn container_text(containers: Seq<Seq<char>>, from: int) -> Seq<char>
    decreases containers.len() - from,
{
    if from < 0 || from >= containers.len() {
        Seq::empty()
    } else if rich(containers[from]) {
        trim(containers[from])
    } else {
        container_text(containers, from + 1)
    }
}

/// A fragment is kept unless its trimmed text is shorter than 10 characters.
pub open spec fn substantial(fragment: Seq<char>) -> bool {
    trim(fragment).len() >= FRAGMENT_MIN_CHARS
}

/// The fragments that are kept, in order and untrimmed.
pub open spec fn kept(fragments: Seq<Seq<char>>) -> Seq<Seq<char>>
    decreases fragments.len(),
{
    if fragments.len() == 0 {
        Seq::empty()
    } else if substantial(fragments.last()) {
        kept(fragments.drop_last()).push(fragments.last())
    } else {
        kept(fragments.drop_last())
    }
}

/// The text a look settles on, before its final trimming: the first rich
/// container's; failing that the body's; and if that is shorter than 100
/// characters, the kept fragments, one per line.
pub open spec fn raw_content(page: PageSnapshotView) -> Seq<char> {
    let from_container = container_text(page.containers, 0);
    if from_container.len() >= CONTAINER_THRESHOLD {
        from_container
    } else if page.body_text.len() >= CONTAINER_THRESHOLD {
        page.body_text
    } else {
        join_lines(kept(page.fragments))
    }
}

/// The content of a page: the text a look settles on, trimmed.
pub open spec fn content(page: PageSnapshotView) -> Seq<char> {
    trim(raw_content(page))
}

/// A look succeeds if the content is longer than 50 characters.
pub open spec fn extractable(page: PageSnapshotView) -> bool {
    content(page).len() > CONTENT_THRESHOLD
}

/// The title reported for a page: its own, or a stand-in if it has none.
pub open spec fn reported_title(page: PageSnapshotView) -> Seq<char> {
    if page.title.len() == 0 {
        UNTITLED@
    } else {
        page.title
    }
}

/// The first rich container is the one that `container_text` takes: no
/// container before it is rich, and without a rich container the text is
/// empty.
pub proof fn law_first_rich_container_wins(containers: Seq<Seq<char>>, from: int)
    requires
        0 <= from <= containers.len(),
    ensures
        (forall|k: int| from <= k < containers.len() ==> !rich(#[trigger] containers[k]))
            ==> container_text(containers, from).len() == 0,
        forall|i: int|
            #![trigger containers[i]]
            from <= i < containers.len() && rich(containers[i]) && (forall|k: int|
                from <= k < i ==> !rich(#[trigger] containers[k])) ==> container_text(
                containers,
                from,
            ) == trim(containers[i]),
    decreases containers.len() - from,
{
    if from < containers.len() {
        if !rich(containers[from]) {
            law_first_rich_container_wins(containers, from + 1);
        }
    }
}

/// The trimmed text of the first rich container; empty if there is none.
fn first_rich_container(containers: &Vec<String>) -> (text: String)
    ensures
        text@ == container_text(texts(containers@), 0),
{
    let ghost all = texts(containers@);
    let mut i: usize = 0;
    while i < containers.len()
        invariant
            i <= containers.len(),
            all == texts(containers@),
            container_text(all, 0) == container_text(all, i as int),
        decreases containers.len() - i,
    {
        let chars = chars_of(containers[i].as_str());
        let (a, b) = trim_bounds(&chars);
        assert(all[i as int] == containers@[i as int]@);
        if b - a > CONTAINER_THRESHOLD {
            return String::from_str(containers[i].as_str().substring_char(a, b));
        }
        i += 1;
    }
    String::new()
}

/// The kept fragments, one per line.
fn kept_fragments(fragments: &Vec<String>) -> (text: String)
    ensures
        text@ == join_lines(kept(texts(fragments@))),
{
    let ghost all = texts(fragments@);
    let mut out = String::new();
    let mut any = false;
    let mut i: usize = 0;
    assert(all.take(0) =~= Seq::<Seq<char>>::empty());
    while i < fragments.len()
        invariant
            i <= fragments.len(),
            all == texts(fragments@),
            out@ == join_lines(kept(all.take(i as int))),
            any == (kept(all.take(i as int)).len() > 0),
        decreases fragments.len() - i,
    {
        let fragment = fragments[i].as_str();
        proof {
            assert(all.take(i + 1).drop_last() =~= all.take(i as int));
            assert(all.take(i + 1).last() == fragment@);
        }
        if trimmed_len(fragment) >= FRAGMENT_MIN_CHARS {
            let ghost before = kept(all.take(i as int));
            proof {
                reveal_strlit("\n");
                assert("\n"@ =~= seq!['\n']);
                assert(before.push(fragment@).drop_last() =~= before);
            }
            if any {
                out.append("\n");
            } else {
                assert(out@ + fragment@ =~= fragment@);
            }
            out.append(fragment);
            any = true;
        }
        i += 1;
    }
    assert(all.take(fragments.len() as int) =~= all);
    out
}

/// The content of a page: the trimmed text of the first rich container;
/// failing that the body's text; and if that is shorter than 100
/// characters, the kept fragments, one per line; trimmed in every case.
pub fn select_content(page: &PageSnapshot) -> (text: String)
    ensures
        text@ == content(page@),
{
    let from_container = first_rich_container(&page.containers);
    if from_container.as_str().unicode_len() >= CONTAINER_THRESHOLD {
        trimmed(from_container.as_str())
    } else if page.body_text.as_str().unicode_len() >= CONTAINER_THRESHOLD {
        trimmed(page.body_text.as_str())
    } else {
        let lines = kept_fragments(&page.fragments);
        trimmed(lines.as_str())
    }
}

/// How an extraction ended.
#[derive(Clone, Copy, Debug, PartialEq, Eq, Structural)]
pub enum ScrapeStatus {
    /// Content was found at this look, counted from 1.
    Extracted { attempt: u32 },
    /// Every look came back without content.
    Failed,
}

/// What an extraction reports: the page's title, content and address, and
/// either the look that found the content or the mark of a failure.
#[derive(Debug, PartialEq, Eq)]
pub struct ScrapePayload {
    title: String,
    content: String,
    url: String,
    status: ScrapeStatus,
}

/// A payload as plain values.
pub struct ScrapePayloadView {
    pub title: Seq<char>,
    pub content: Seq<char>,
    pub url: Seq<char>,
    pub status: ScrapeStatus,
}

impl ScrapePayloadView {
    /// What holds of every payload: one that reports content holds more than
    /// 50 characters of it and names a look from the first to the tenth.
    pub open spec fn sound(self) -> bool {
        self.status matches ScrapeStatus::Extracted { attempt } ==> {
            &&& self.content.len() > CONTENT_THRESHOLD
            &&& 1 <= attempt <= MAX_ATTEMPTS
        }
    }
}

impl View for ScrapePayload {
    type V = ScrapePayloadView;

    closed spec fn view(&self) -> ScrapePayloadView {
        ScrapePayloadView {
            title: self.title@,
            content: self.content@,
            url: self.url@,
            status: self.status,
        }
    }
}

impl ScrapePayload {
    #[verifier::type_invariant]
    spec fn valid(&self) -> bool {
        self@.sound()
    }

    /// The page's title, or the failure's.
    pub fn title(&self) -> (t: &str)
        ensures
            t@ == self@.title,
    {
        self.title.as_str()
    }

    /// The page's content, or the failure's message.
    pub fn content(&self) -> (c: &str)
        ensures
            c@ == self@.content,
            self@.sound(),
    {
        proof {
            use_type_invariant(self);
        }
        self.content.as_str()
    }

    /// The address the content was found at, or, after a failure, the
    /// address that was asked for.
    pub fn url(&self) -> (u: &str)
        ensures
            u@ == self@.url,
    {
        self.url.as_str()
    }

    /// The look that found the content, or the mark of a failure.
    pub fn status(&self) -> (s: ScrapeStatus)
        ensures
            s == self@.status,
            self@.sound(),
    {
        proof {
            use_type_invariant(self);
        }
        self.status
    }

    /// The number of the look that found the content; none after a failure.
    pub fn attempt(&self) -> (a: Option<u32>)
        ensures
            a == match self@.status {
                ScrapeStatus::Extracted { attempt } => Some(attempt),
                ScrapeStatus::Failed => None,
            },
            a matches Some(n) ==> 1 <= n <= MAX_ATTEMPTS && self@.content.len() > CONTENT_THRESHOLD,
    {
        proof {
            use_type_invariant(self);
        }
        match self.status {
            ScrapeStatus::Extracted { attempt } => Some(attempt),
            ScrapeStatus::Failed => None,
        }
    }

    /// Tells whether the payload reports a failure.
    pub fn is_error(&self) -> (e: bool)
        ensures
            e == (self@.status is Failed),
    {
        match self.status {
            ScrapeStatus::Extracted { .. } => false,
            ScrapeStatus::Failed => true,
        }
    }
}

/// The payload of a look that succeeded: the page's title or its stand-in,
/// the content, the page's present address, and the number of the look.
pub open spec fn success_payload(page: PageSnapshotView, attempt: int) -> ScrapePayloadView {
    ScrapePayloadView {
        title: reported_title(page),
        content: content(page),
        url: page.location,
        status: ScrapeStatus::Extracted { attempt: attempt as u32 },
    }
}

/// The payload of a failure: a fixed title and message, and the address
/// that was asked for.
pub open spec fn failure_payload(url: Seq<char>) -> ScrapePayloadView {
    ScrapePayloadView {
        title: FAILURE_TITLE@,
        content: FAILURE_CONTENT@,
        url,
        status: ScrapeStatus::Failed,
    }
}

/// An extraction under way: the address that was asked for and the number
/// of looks taken so far, always fewer than ten.
#[derive(Debug, PartialEq, Eq)]
pub struct Extraction {
    url: String,
    attempts: u32,
}

/// An extraction under way, as plain values.
pub struct ExtractionView {
    pub url: Seq<char>,
    pub attempts: nat,
}

impl View for Extraction {
    type V = ExtractionView;

    closed spec fn view(&self) -> ExtractionView {
        ExtractionView { url: self.url@, attempts: self.attempts as nat }
    }
}

/// What a look leads to.
#[derive(Debug, PartialEq, Eq)]
pub enum Progress {
    /// Nothing yet: wait for `delay_ms` milliseconds and look again.
    Retry { next: Extraction, delay_ms: u64 },
    /// The extraction is over: emit the payload and close the window.
    Emit(ScrapePayload),
}

/// What a look leads to, as plain values.
pub enum ProgressView {
    Retry { next: ExtractionView, delay_ms: u64 },
    Emit(ScrapePayloadView),
}

impl View for Progress {
    type V = ProgressView;

    open spec fn view(&self) -> ProgressView {
        match self {
            Progress::Retry { next, delay_ms } => ProgressView::Retry {
                next: next@,
                delay_ms: *delay_ms,
            },
            Progress::Emit(p) => ProgressView::Emit(p@),
        }
    }
}

/// What a look found, as plain values; nothing if the look itself failed.
pub open spec fn seen(observation: Option<PageSnapshot>) -> Option<PageSnapshotView> {
    match observation {
        Some(page) => Some(page@),
        None => None,
    }
}

/// A look yields if it found a page whose content is long enough.
pub open spec fn yields(observation: Option<PageSnapshotView>) -> bool {
    observation matches Some(page) && extractable(page)
}

/// The extractor's rule for one look. The look is counted. If it yields,
/// its payload is emitted. If not, and it was the tenth, the failure is
/// emitted. Otherwise another look follows after the retry delay.
pub open spec fn observed(state: ExtractionView, observation: Option<PageSnapshotView>) -> ProgressView {
    let attempt = state.attempts + 1;
    if yields(observation) {
        ProgressView::Emit(success_payload(observation->0, attempt as int))
    } else if attempt >= MAX_ATTEMPTS {
        ProgressView::Emit(failure_payload(state.url))
    } else {
        ProgressView::Retry {
            next: ExtractionView { url: state.url, attempts: attempt },
            delay_ms: RETRY_DELAY_MS,
        }
    }
}

impl Extraction {
    #[verifier::type_invariant]
    spec fn valid(&self) -> bool {
        self.attempts < MAX_ATTEMPTS
    }

    /// Starts an extraction for the address that was asked for. No look
    /// has been taken yet.
    pub fn begin(url: String) -> (e: Extraction)
        ensures
            e@ == (ExtractionView { url: url@, attempts: 0 }),
    {
        Extraction { url, attempts: 0 }
    }

    /// The address that was asked for.
    pub fn url(&self) -> (u: &str)
        ensures
            u@ == self@.url,
    {
        self.url.as_str()
    }

    /// The number of looks taken so far: fewer than ten.
    pub fn attempts(&self) -> (n: u32)
        ensures
            n == self@.attempts,
            n < MAX_ATTEMPTS,
    {
        proof {
            use_type_invariant(self);
        }
        self.attempts
    }

    /// Takes what a look found, or nothing if the look itself failed, and
    /// names what follows.
    pub fn observe(self, observation: Option<PageSnapshot>) -> (progress: Progress)
        ensures
            progress@ == observed(self@, seen(observation)),
            progress matches Progress::Emit(payload) ==> payload@.sound(),
    {
        proof {
            use_type_invariant(&self);
        }
        let attempt = self.attempts + 1;
        if let Some(page) = observation {
            let text = select_content(&page);
            if text.as_str().unicode_len() > CONTENT_THRESHOLD {
                let title = if page.title.as_str().unicode_len() == 0 {
                    String::from_str(UNTITLED)
                } else {
                    page.title
                };
                return Progress::Emit(
                    ScrapePayload {
                        title,
                        content: text,
                        url: page.location,
                        status: ScrapeStatus::Extracted { attempt },
                    },
                );
            }
        }
        if attempt >= MAX_ATTEMPTS {
            Progress::Emit(
                ScrapePayload {
                    title: String::from_str(FAILURE_TITLE),
                    content: String::from_str(FAILURE_CONTENT),
                    url: self.url,
                    status: ScrapeStatus::Failed,
                },
            )
        } else {
            Progress::Retry {
                next: Extraction { url: self.url, attempts: attempt },
                delay_ms: RETRY_DELAY_MS,
            }
        }
    }
}

/// The payload that a run of looks ends in: what is emitted when the
/// observations are handed to the extraction one after the other; nothing
/// while the extraction still waits for more.
pub open spec fn emitted(state: ExtractionView, observations: Seq<Option<PageSnapshotView>>) -> Option<
    ScrapePayloadView,
>
    decreases observations.len(),
{
    if observations.len() == 0 {
        None
    } else {
        match observed(state, observations[0]) {
            ProgressView::Emit(payload) => Some(payload),
            ProgressView::Retry { next, .. } => emitted(next, observations.drop_first()),
        }
    }
}

/// A fresh extraction for `url`.
pub open spec fn fresh(url: Seq<char>) -> ExtractionView {
    ExtractionView { url, attempts: 0 }
}

/// How a run of looks ends, from any state with `k` looks behind it and
/// `left = 10 - k` still to come:
/// - nothing is emitted while fewer than `left` looks came back and none
///   yielded;
/// - the first look that yields, if it is among the next `left`, has its
///   payload emitted under its number;
/// - the failure is emitted once `left` looks came back without yielding.
pub proof fn lemma_emitted(state: ExtractionView, observations: Seq<Option<PageSnapshotView>>)
    requires
        state.attempts < MAX_ATTEMPTS,
    ensures
        ({
            let left = MAX_ATTEMPTS - state.attempts;
            match emitted(state, observations) {
                None => {
                    &&& observations.len() < left
                    &&& forall|j: int| 0 <= j < observations.len() ==> !yields(#[trigger] observations[j])
                },
                Some(payload) => match payload.status {
                    ScrapeStatus::Extracted { attempt } => {
                        let i = attempt - state.attempts - 1;
                        &&& 0 <= i < observations.len()
                        &&& i < left
                        &&& yields(observations[i])
                        &&& payload == success_payload(observations[i]->0, attempt as int)
                        &&& forall|j: int| 0 <= j < i ==> !yields(#[trigger] observations[j])
                    },
                    ScrapeStatus::Failed => {
                        &&& observations.len() >= left
                        &&& forall|j: int| 0 <= j < left ==> !yields(#[trigger] observations[j])
                        &&& payload == failure_payload(state.url)
                    },
                },
            }
        }),
    decreases observations.len(),
{
    if observations.len() > 0 {
        match observed(state, observations[0]) {
            ProgressView::Emit(payload) => {},
            ProgressView::Retry { next, .. } => {
                let rest = observations.drop_first();
                lemma_emitted(next, rest);
                assert forall|j: int| 0 <= j < rest.len() implies rest[j] == observations[j + 1] by {}
                match emitted(next, rest) {
                    None => {
                        assert forall|j: int| 0 <= j < observations.len() implies !yields(
                            #[trigger] observations[j],
                        ) by {
                            if j > 0 {
                                assert(rest[j - 1] == observations[j]);
                            }
                        }
                    },
                    Some(payload) => match payload.status {
                        ScrapeStatus::Extracted { attempt } => {
                            let i = attempt - state.attempts - 1;
                            assert(rest[i - 1] == observations[i]);
                            assert forall|j: int| 0 <= j < i implies !yields(
                                #[trigger] observations[j],
                            ) by {
                                if j > 0 {
                                    assert(rest[j - 1] == observations[j]);
                                }
                            }
                        },
                        ScrapeStatus::Failed => {
                            let left = MAX_ATTEMPTS - state.attempts;
                            assert forall|j: int| 0 <= j < left implies !yields(
                                #[trigger] observations[j],
                            ) by {
                                if j > 0 {
                                    assert(rest[j - 1] == observations[j]);
                                }
                            }
                        },
                    },
                }
            },
        }
    }
}

/// A payload that reports content always holds more than 50 characters of
/// it and names a look from the first to the tenth: the first look that
/// yielded, whose page the payload describes.
pub proof fn law_success_payload(url: Seq<char>, observations: Seq<Option<PageSnapshotView>>)
    ensures
        emitted(fresh(url), observations) matches Some(payload) ==> (payload.status matches ScrapeStatus::Extracted {
            attempt,
        } ==> {
            &&& payload.content.len() > 50
            &&& 1 <= attempt <= 10
            &&& attempt <= observations.len()
            &&& yields(observations[attempt - 1])
            &&& payload == success_payload(observations[attempt - 1]->0, attempt as int)
            &&& forall|j: int| 0 <= j < attempt - 1 ==> !yields(#[trigger] observations[j])
        }),
{
    lemma_emitted(fresh(url), observations);
}

/// The failure is emitted after exactly ten looks that did not yield, and
/// never before: no run of fewer than ten looks ends in it, ten looks
/// without content always do, and the payload carries the failure's mark,
/// no look's number, and the address that was asked for.
pub proof fn law_failure_payload(url: Seq<char>, observations: Seq<Option<PageSnapshotView>>)
    ensures
        emitted(fresh(url), observations) matches Some(payload) ==> (payload.status is Failed ==> {
            &&& observations.len() >= 10
            &&& forall|j: int| 0 <= j < 10 ==> !yields(#[trigger] observations[j])
            &&& payload == failure_payload(url)
        }),
        observations.len() >= 10 && (forall|j: int| 0 <= j < 10 ==> !yields(#[trigger] observations[j]))
            ==> emitted(fresh(url), observations) == Some(failure_payload(url)),
        observations.len() < 10 ==> !(emitted(fresh(url), observations) matches Some(payload)
            && payload.status is Failed),
{
    lemma_emitted(fresh(url), observations);
    if observations.len() >= 10 && (forall|j: int| 0 <= j < 10 ==> !yields(#[trigger] observations[j])) {
        match emitted(fresh(url), observations) {
            None => {},
            Some(payload) => match payload.status {
                ScrapeStatus::Extracted { attempt } => {
                    assert(yields(observations[attempt - 1]));
                },
                ScrapeStatus::Failed => {},
            },
        }
    }
}

} // verus!
