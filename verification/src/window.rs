//! The visibility controller of the main window.
//!
//! Each command is a short conversation with the window system: the
//! controller names the next request, the caller performs it and hands the
//! reply back, until the controller names the command's result. The
//! controller keeps no record of the window between commands, so every
//! command looks the window up again.

use vstd::prelude::*;

verus! {

/// The label under which the window system knows the main window.
pub const MAIN_WINDOW: &'static str = "main";

/// The three commands of the controller.
#[derive(Clone, Copy, Debug, PartialEq, Eq, Structural)]
pub enum Command {
    /// Make the window visible and give it the input focus.
    Show,
    /// Make the window invisible.
    Hide,
    /// Hide the window if it is visible, show and focus it if it is not.
    Toggle,
}

/// What the controller asks of the window system.
#[derive(Clone, Copy, Debug, PartialEq, Eq, Structural)]
pub enum Request {
    /// Look the main window up under its label.
    Locate,
    /// Ask whether the window is visible.
    QueryVisible,
    /// Make the window visible.
    Show,
    /// Give the window the input focus.
    Focus,
    /// Make the window invisible.
    Hide,
}

/// What the window system answers.
#[derive(Clone, Debug, PartialEq, Eq)]
pub enum Reply {
    /// No window has the label.
    Absent,
    /// A window has the label.
    Present,
    /// Whether the window is visible.
    Visible(bool),
    /// The request was carried out.
    Done,
    /// The window system failed, with its message.
    Failed(String),
}

/// A reply with its message as a sequence of characters.
pub enum ReplyView {
    Absent,
    Present,
    Visible(bool),
    Done,
    Failed(Seq<char>),
}

impl View for Reply {
    type V = ReplyView;

    open spec fn view(&self) -> ReplyView {
        match self {
            Reply::Absent => ReplyView::Absent,
            Reply::Present => ReplyView::Present,
            Reply::Visible(v) => ReplyView::Visible(*v),
            Reply::Done => ReplyView::Done,
            Reply::Failed(m) => ReplyView::Failed(m@),
        }
    }
}

/// How a command ended well.
#[derive(Clone, Copy, Debug, PartialEq, Eq, Structural)]
pub enum Outcome {
    /// A show or a hide went through, or found no window to work on.
    Done,
    /// A toggle went through; the flag says whether the window is visible now.
    NowVisible(bool),
}

/// How a command failed.
#[derive(Clone, Debug, PartialEq, Eq)]
pub enum ControlError {
    /// A toggle found no main window.
    WindowNotFound,
    /// The window system failed, with its message.
    Platform(String),
}

/// A failure with its message as a sequence of characters.
pub enum ControlErrorView {
    WindowNotFound,
    Platform(Seq<char>),
}

impl View for ControlError {
    type V = ControlErrorView;

    open spec fn view(&self) -> ControlErrorView {
        match self {
            ControlError::WindowNotFound => ControlErrorView::WindowNotFound,
            ControlError::Platform(m) => ControlErrorView::Platform(m@),
        }
    }
}

impl ControlErrorView {
    /// The text shown to the caller of the command.
    pub open spec fn message(self) -> Seq<char> {
        match self {
            ControlErrorView::WindowNotFound => "window not found"@,
            ControlErrorView::Platform(m) => m,
        }
    }
}

impl ControlError {
    /// The text shown to the caller of the command: a fixed one for a missing
    /// window, the window system's own for its failures.
    pub fn message(&self) -> (text: String)
        ensures
            text@ == self@.message(),
    {
        match self {
            ControlError::WindowNotFound => String::from_str("window not found"),
            ControlError::Platform(m) => m.clone(),
        }
    }
}

/// A command under way: the command and the request whose reply it awaits.
#[derive(Clone, Copy, Debug, PartialEq, Eq)]
pub struct Controller {
    command: Command,
    pending: Request,
}

/// A command under way, as a pair of plain values.
pub struct ControllerView {
    pub command: Command,
    pub pending: Request,
}

impl View for Controller {
    type V = ControllerView;

    closed spec fn view(&self) -> ControllerView {
        ControllerView { command: self.command, pending: self.pending }
    }
}

/// What a reply leads to: another request, or the command's result.
#[derive(Debug, PartialEq, Eq)]
pub enum Step {
    /// Perform the controller's pending request and hand its reply back.
    Ask(Controller),
    /// The command is over.
    Finish(Result<Outcome, ControlError>),
}

/// A step as plain values.
pub enum StepView {
    Ask(ControllerView),
    Finish(Result<Outcome, ControlErrorView>),
}

impl View for Step {
    type V = StepView;

    open spec fn view(&self) -> StepView {
        match self {
            Step::Ask(c) => StepView::Ask(c@),
            Step::Finish(Ok(o)) => StepView::Finish(Ok(*o)),
            Step::Finish(Err(e)) => StepView::Finish(Err(e@)),
        }
    }
}

/// Tells whether `reply` is an answer to `request`: a lookup finds the
/// window or does not, a query tells the visibility or fails, and the three
/// changes are carried out or fail.
pub open spec fn fits(request: Request, reply: ReplyView) -> bool {
    match request {
        Request::Locate => reply is Absent || reply is Present,
        Request::QueryVisible => reply is Visible || reply is Failed,
        Request::Show | Request::Focus | Request::Hide => reply is Done || reply is Failed,
    }
}

/// The request that follows a successful lookup.
pub open spec fn first_request(command: Command) -> Request {
    match command {
        Command::Show => Request::Show,
        Command::Hide => Request::Hide,
        Command::Toggle => Request::QueryVisible,
    }
}

/// The result of a command whose last change went through and left the
/// window visible or not, as `visible` says.
pub open spec fn success(command: Command, visible: bool) -> Outcome {
    match command {
        Command::Toggle => Outcome::NowVisible(visible),
        _ => Outcome::Done,
    }
}

/// The controller's rules: what follows when `reply` answers the request
/// `pending` of `command`.
///
/// - A missing window ends a show or a hide quietly and fails a toggle.
/// - A toggle asks for the visibility and then hides a visible window and
///   shows a hidden one.
/// - A window that was shown is given the focus.
/// - The first failure of the window system ends the command with its
///   message.
pub open spec fn next_step(command: Command, pending: Request, reply: ReplyView) -> StepView {
    match reply {
        ReplyView::Absent => match command {
            Command::Toggle => StepView::Finish(Err(ControlErrorView::WindowNotFound)),
            _ => StepView::Finish(Ok(Outcome::Done)),
        },
        ReplyView::Present => StepView::Ask(
            ControllerView { command, pending: first_request(command) },
        ),
        ReplyView::Visible(visible) => StepView::Ask(
            ControllerView {
                command,
                pending: if visible {
                    Request::Hide
                } else {
                    Request::Show
                },
            },
        ),
        ReplyView::Done => match pending {
            Request::Show => StepView::Ask(ControllerView { command, pending: Request::Focus }),
            Request::Hide => StepView::Finish(Ok(success(command, false))),
            _ => StepView::Finish(Ok(success(command, true))),
        },
        ReplyView::Failed(m) => StepView::Finish(Err(ControlErrorView::Platform(m))),
    }
}

impl Controller {
    /// Starts `command`. Every command begins by looking the window up.
    pub fn begin(command: Command) -> (c: Controller)
        ensures
            c@ == (ControllerView { command, pending: Request::Locate }),
    {
        Controller { command, pending: Request::Locate }
    }

    /// The command under way.
    pub fn command(&self) -> (c: Command)
        ensures
            c == self@.command,
    {
        self.command
    }

    /// The request to perform next.
    pub fn pending(&self) -> (r: Request)
        ensures
            r == self@.pending,
    {
        self.pending
    }

    /// Tells whether `reply` is an answer to the pending request.
    pub fn accepts(&self, reply: &Reply) -> (b: bool)
        ensures
            b == fits(self@.pending, reply@),
    {
        match self.pending {
            Request::Locate => match reply {
                Reply::Absent | Reply::Present => true,
                _ => false,
            },
            Request::QueryVisible => match reply {
                Reply::Visible(_) | Reply::Failed(_) => true,
                _ => false,
            },
            Request::Show | Request::Focus | Request::Hide => match reply {
                Reply::Done | Reply::Failed(_) => true,
                _ => false,
            },
        }
    }

    /// Takes the reply to the pending request and names what follows.
    pub fn advance(self, reply: Reply) -> (step: Step)
        requires
            fits(self@.pending, reply@),
        ensures
            step@ == next_step(self@.command, self@.pending, reply@),
    {
        let command = self.command;
        match reply {
            Reply::Absent => match command {
                Command::Toggle => Step::Finish(Err(ControlError::WindowNotFound)),
                _ => Step::Finish(Ok(Outcome::Done)),
            },
            Reply::Present => {
                let pending = match command {
                    Command::Show => Request::Show,
                    Command::Hide => Request::Hide,
                    Command::Toggle => Request::QueryVisible,
                };
                Step::Ask(Controller { command, pending })
            },
            Reply::Visible(visible) => {
                let pending = if visible {
                    Request::Hide
                } else {
                    Request::Show
                };
                Step::Ask(Controller { command, pending })
            },
            Reply::Done => match self.pending {
                Request::Show => Step::Ask(Controller { command, pending: Request::Focus }),
                Request::Hide => Step::Finish(Ok(finished(command, false))),
                _ => Step::Finish(Ok(finished(command, true))),
            },
            Reply::Failed(m) => Step::Finish(Err(ControlError::Platform(m))),
        }
    }
}

/// The result of a command whose last change went through.
fn finished(command: Command, visible: bool) -> (o: Outcome)
    ensures
        o == success(command, visible),
{
    match command {
        Command::Toggle => Outcome::NowVisible(visible),
        _ => Outcome::Done,
    }
}

/// Starts the command that shows and focuses the main window.
pub fn show_window() -> (c: Controller)
    ensures
        c@ == (ControllerView { command: Command::Show, pending: Request::Locate }),
{
    Controller::begin(Command::Show)
}

/// Starts the command that hides the main window.
pub fn hide_window() -> (c: Controller)
    ensures
        c@ == (ControllerView { command: Command::Hide, pending: Request::Locate }),
{
    Controller::begin(Command::Hide)
}

/// Starts the command that toggles the main window.
pub fn toggle_window() -> (c: Controller)
    ensures
        c@ == (ControllerView { command: Command::Toggle, pending: Request::Locate }),
{
    Controller::begin(Command::Toggle)
}

/// The main window as the window system holds it.
pub struct Window {
    pub visible: bool,
    pub focused: bool,
}

/// A window system: the main window, if there is one, and the requests that
/// it fails, each with the message it fails with.
pub struct Desktop {
    pub window: Option<Window>,
    pub faults: Map<Request, Seq<char>>,
}

/// A window system is reliable if it fails no request.
pub open spec fn reliable(desktop: Desktop) -> bool {
    forall|request: Request| !desktop.faults.contains_key(request)
}

/// What `request` does to the window system and the reply it gives. A
/// lookup finds the window or does not. A request that the system fails
/// changes nothing. Otherwise showing makes the window visible, focusing
/// gives it the focus, and hiding takes both away. A request for a window
/// that does not exist fails.
pub open spec fn served(desktop: Desktop, request: Request) -> (Desktop, ReplyView) {
    match desktop.window {
        None => match request {
            Request::Locate => (desktop, ReplyView::Absent),
            _ => (desktop, ReplyView::Failed(Seq::empty())),
        },
        Some(w) => if request != Request::Locate && desktop.faults.contains_key(request) {
            (desktop, ReplyView::Failed(desktop.faults[request]))
        } else {
            match request {
                Request::Locate => (desktop, ReplyView::Present),
                Request::QueryVisible => (desktop, ReplyView::Visible(w.visible)),
                Request::Show => (
                    Desktop { window: Some(Window { visible: true, focused: w.focused }), ..desktop },
                    ReplyView::Done,
                ),
                Request::Focus => (
                    Desktop { window: Some(Window { visible: w.visible, focused: true }), ..desktop },
                    ReplyView::Done,
                ),
                Request::Hide => (
                    Desktop { window: Some(Window { visible: false, focused: false }), ..desktop },
                    ReplyView::Done,
                ),
            }
        },
    }
}

/// The place of a request in a command: later requests have higher places.
pub open spec fn place(request: Request) -> int {
    match request {
        Request::Locate => 0,
        Request::QueryVisible => 1,
        Request::Show => 2,
        Request::Hide => 3,
        Request::Focus => 4,
    }
}

/// A command carried through from the request `pending` on: its result and
/// the window system after it.
pub open spec fn carried(command: Command, pending: Request, desktop: Desktop) -> (
    Result<Outcome, ControlErrorView>,
    Desktop,
)
    decreases 4 - place(pending),
{
    let (after, reply) = served(desktop, pending);
    match next_step(command, pending, reply) {
        StepView::Ask(next) => carried(command, next.pending, after),
        StepView::Finish(result) => (result, after),
    }
}

/// A whole command, from its lookup to its result.
pub open spec fn performed(command: Command, desktop: Desktop) -> (
    Result<Outcome, ControlErrorView>,
    Desktop,
) {
    carried(command, Request::Locate, desktop)
}

/// Whether the main window is visible, if there is one.
pub open spec fn visibility(desktop: Desktop) -> Option<bool> {
    match desktop.window {
        None => None,
        Some(w) => Some(w.visible),
    }
}

/// The window system with `window` as its main window.
pub open spec fn holding(desktop: Desktop, window: Window) -> Desktop {
    Desktop { window: Some(window), ..desktop }
}

/// A window system answers what it is asked: on a window that exists, and
/// for every lookup, the reply fits the request.
pub proof fn law_replies_fit(desktop: Desktop, request: Request)
    requires
        desktop.window is Some || request == Request::Locate,
    ensures
        fits(request, served(desktop, request).1),
{
}

/// What each command does where nothing fails.
///
/// - Without a window, a show and a hide end quietly, a toggle fails, and
///   nothing changes, whatever the window system would have failed.
/// - On a reliable window system, a show leaves the window visible and
///   focused, and a hide leaves it invisible and without the focus.
/// - On a reliable window system, a toggle hides a visible window and
///   reports `false`; it shows and focuses a hidden one and reports `true`.
pub proof fn lemma_performed(command: Command, desktop: Desktop)
    ensures
        desktop.window is None ==> performed(command, desktop).1 == desktop,
        desktop.window is None && command != Command::Toggle ==> performed(command, desktop).0
            == Ok::<Outcome, ControlErrorView>(Outcome::Done),
        desktop.window is None && command == Command::Toggle ==> performed(command, desktop).0
            == Err::<Outcome, ControlErrorView>(ControlErrorView::WindowNotFound),
        desktop.window is Some && reliable(desktop) ==> performed(command, desktop) == (
            match command {
                Command::Show => (
                    Ok::<Outcome, ControlErrorView>(Outcome::Done),
                    holding(desktop, Window { visible: true, focused: true }),
                ),
                Command::Hide => (
                    Ok::<Outcome, ControlErrorView>(Outcome::Done),
                    holding(desktop, Window { visible: false, focused: false }),
                ),
                Command::Toggle => if desktop.window->0.visible {
                    (
                        Ok::<Outcome, ControlErrorView>(Outcome::NowVisible(false)),
                        holding(desktop, Window { visible: false, focused: false }),
                    )
                } else {
                    (
                        Ok::<Outcome, ControlErrorView>(Outcome::NowVisible(true)),
                        holding(desktop, Window { visible: true, focused: true }),
                    )
                },
            }
        ),
{
    reveal_with_fuel(carried, 5);
}

/// A command changes nothing but the main window: the window system fails
/// after it what it failed before, and a window neither appears nor goes.
pub proof fn lemma_performed_keeps_faults(command: Command, desktop: Desktop)
    ensures
        performed(command, desktop).1.faults == desktop.faults,
        performed(command, desktop).1.window is Some <==> desktop.window is Some,
{
    reveal_with_fuel(carried, 5);
}

/// Two toggles in a row, with nothing between them, leave the window as
/// visible as it was, whenever both succeed; and on a reliable window
/// system both succeed on a window that exists, the first turning its
/// visibility over and the second turning it back.
pub proof fn law_toggle_twice_restores_visibility(desktop: Desktop)
    ensures
        ({
            let (first, between) = performed(Command::Toggle, desktop);
            let (second, after) = performed(Command::Toggle, between);
            &&& first is Ok && second is Ok ==> visibility(after) == visibility(desktop)
            &&& first is Ok && second is Ok ==> visibility(between) == Some(
                !desktop.window->0.visible,
            )
            &&& desktop.window is Some && reliable(desktop) ==> first is Ok && second is Ok
        }),
{
    reveal_with_fuel(carried, 5);
    let between = performed(Command::Toggle, desktop).1;
    lemma_performed_keeps_faults(Command::Toggle, desktop);
    if desktop.window is Some && reliable(desktop) {
        lemma_performed(Command::Toggle, desktop);
        assert(reliable(between));
        lemma_performed(Command::Toggle, between);
    }
}

/// A show after a show that succeeded changes nothing and succeeds too: a
/// window that exists is visible and focused after the first and stays so.
/// On a reliable window system the first show always succeeds.
pub proof fn law_show_is_idempotent(desktop: Desktop)
    ensures
        ({
            let (first, between) = performed(Command::Show, desktop);
            let (second, after) = performed(Command::Show, between);
            &&& first is Ok ==> second == first && after == between
            &&& first is Ok ==> first == Ok::<Outcome, ControlErrorView>(Outcome::Done)
            &&& first is Ok && desktop.window is Some ==> between.window == Some(
                Window { visible: true, focused: true },
            )
            &&& reliable(desktop) ==> first is Ok
        }),
{
    reveal_with_fuel(carried, 5);
}

/// A toggle that finds no main window ends with `WindowNotFound` on the
/// spot, whatever the window system would have failed: nothing more is
/// asked of it, so no failure of its own can take that error's place.
pub proof fn law_toggle_without_window(desktop: Desktop)
    requires
        desktop.window is None,
    ensures
        next_step(Command::Toggle, Request::Locate, ReplyView::Absent) == StepView::Finish(
            Err(ControlErrorView::WindowNotFound),
        ),
        performed(Command::Toggle, desktop) == (
            Err::<Outcome, ControlErrorView>(ControlErrorView::WindowNotFound),
            desktop,
        ),
{
    lemma_performed(Command::Toggle, desktop);
}

/// On a window that was just shown, a toggle reports `false` and hides it,
/// and the next toggle reports `true` and leaves it visible and focused.
pub proof fn law_toggle_after_show(desktop: Desktop)
    requires
        desktop.window is Some,
        reliable(desktop),
    ensures
        ({
            let shown = performed(Command::Show, desktop).1;
            let (first, hidden) = performed(Command::Toggle, shown);
            let (second, back) = performed(Command::Toggle, hidden);
            &&& first == Ok::<Outcome, ControlErrorView>(Outcome::NowVisible(false))
            &&& visibility(hidden) == Some(false)
            &&& second == Ok::<Outcome, ControlErrorView>(Outcome::NowVisible(true))
            &&& back.window == Some(Window { visible: true, focused: true })
        }),
{
    lemma_performed(Command::Show, desktop);
    let shown = performed(Command::Show, desktop).1;
    assert(reliable(shown));
    lemma_performed(Command::Toggle, shown);
    let hidden = performed(Command::Toggle, shown).1;
    assert(reliable(hidden));
    lemma_performed(Command::Toggle, hidden);
}

} // verus!
