//! One look at the cursor: from its position, step by step, to what becomes of the overlay.
//!
//! A [`Poll`] asks one question at a time, as an [`Action`], and takes the answer as a
//! [`Reply`]. Its last action is one of [`Action::Nothing`], [`Action::Hide`] and
//! [`Action::Show`].
use vstd::prelude::*;

use crate::taskbar::{is_taskbar_class, is_taskbar_name, law_taskbar_classes};
use crate::telemetry::Telemetry;
use crate::text::{eq_ignore_ascii_case, law_lower_ascii, lower_ascii, same_but_for_case};
use crate::tooltip::{frame_fits, frame_for, line_units, tooltip_frame, tooltip_lines, units_in};
use crate::tooltip::{law_first_line_names_the_program, law_frame_by_numbers};
use crate::tooltip::{has_frame, painting, Frame, PaintOp, Point};
use crate::utf16::text_of;

verus! {

/// What a poll waits for.
#[derive(Clone, Copy, PartialEq, Eq, Structural, Debug)]
pub enum Stage {
    /// Where the cursor is.
    Cursor,
    /// Whether there is a window under the cursor.
    Window,
    /// Whether that window has a root.
    Root,
    /// The class of the root.
    ClassName,
    /// Whether there is an automation service to ask.
    Automation,
    /// Whether the service knows the element under the cursor.
    Element,
    /// Whether the element has a window of its own.
    ElementWindow,
    /// The process of that window.
    WindowOwner,
    /// The process that the element itself names.
    ElementProcess,
    /// The executable of the process found so far.
    ProcessName,
    /// The name of the element.
    ElementName,
    /// The process of the window that the element's name fits.
    TitleMatch,
    /// The memory of the process decided on.
    Measured,
    /// Nothing more.
    Done,
}

/// An answer to a poll.
pub enum Reply {
    /// The position of the cursor, if it could be read.
    Cursor(Option<Point>),
    /// Whether there is a window under the cursor.
    Window(bool),
    /// Whether the window has a root.
    Root(bool),
    /// The code units of the root's class name, none if it could not be read.
    ClassName(Vec<u16>),
    /// Whether the automation service is there.
    Automation(bool),
    /// Whether the service knows the element under the cursor.
    Element(bool),
    /// Whether the element has a window of its own.
    ElementWindow(bool),
    /// The process of that window, `0` if it is unknown.
    WindowOwner(u32),
    /// The process that the element names, if it does.
    ElementProcess(Option<i32>),
    /// The executable's file name, empty if it is unknown.
    ProcessName(String),
    /// The element's name, if it could be read.
    ElementName(Option<String>),
    /// The process of the window with the best title, `0` if there is none.
    TitleMatch(u32),
    /// The memory of the program, if it is known.
    Measured(Option<Telemetry>),
}

/// What a poll wants done next.
pub enum Action {
    /// Read the position of the cursor.
    ReadCursor,
    /// Find the window at this position.
    FindWindow(Point),
    /// Find the root of that window.
    FindRoot,
    /// Read the class name of the root.
    ReadClassName,
    /// Look for the automation service.
    GetAutomation,
    /// Find the element at this position.
    FindElement(Point),
    /// Find the window of the element.
    FindElementWindow,
    /// Find the process of that window.
    FindWindowOwner,
    /// Ask the element for its process.
    AskElementProcess,
    /// Find the executable's file name of this process.
    FindProcessName(u32),
    /// Read the name of the element.
    ReadElementName,
    /// Find the process of the window whose title fits this name best.
    MatchTitle(String),
    /// Sum up the memory of the program that this process runs.
    Measure(u32),
    /// Leave the overlay as it is; the poll is over.
    Nothing,
    /// Hide the overlay; the poll is over.
    Hide,
    /// Show these lines in the overlay, put there; the poll is over.
    Show { lines: Vec<Vec<u16>>, frame: Frame },
}

/// The memory of a program, as a value.
pub struct Measurement {
    pub name: Seq<char>,
    pub total_ws: nat,
    pub total_commit: nat,
}

/// An answer to a poll, as a value.
pub enum ReplyView {
    Cursor(Option<Point>),
    Window(bool),
    Root(bool),
    ClassName(Seq<u16>),
    Automation(bool),
    Element(bool),
    ElementWindow(bool),
    WindowOwner(u32),
    ElementProcess(Option<i32>),
    ProcessName(Seq<char>),
    ElementName(Option<Seq<char>>),
    TitleMatch(u32),
    Measured(Option<Measurement>),
}

/// What a poll wants done next, as a value.
pub enum ActionView {
    ReadCursor,
    FindWindow(Point),
    FindRoot,
    ReadClassName,
    GetAutomation,
    FindElement(Point),
    FindElementWindow,
    FindWindowOwner,
    AskElementProcess,
    FindProcessName(u32),
    ReadElementName,
    MatchTitle(Seq<char>),
    Measure(u32),
    Nothing,
    Hide,
    Show { lines: Seq<Seq<u16>>, frame: Frame },
}

impl View for Reply {
    type V = ReplyView;

    open spec fn view(&self) -> ReplyView {
        match self {
            Reply::Cursor(at) => ReplyView::Cursor(*at),
            Reply::Window(found) => ReplyView::Window(*found),
            Reply::Root(found) => ReplyView::Root(*found),
            Reply::ClassName(units) => ReplyView::ClassName(units@),
            Reply::Automation(found) => ReplyView::Automation(*found),
            Reply::Element(found) => ReplyView::Element(*found),
            Reply::ElementWindow(found) => ReplyView::ElementWindow(*found),
            Reply::WindowOwner(pid) => ReplyView::WindowOwner(*pid),
            Reply::ElementProcess(pid) => ReplyView::ElementProcess(*pid),
            Reply::ProcessName(name) => ReplyView::ProcessName(name@),
            Reply::ElementName(None) => ReplyView::ElementName(None),
            Reply::ElementName(Some(name)) => ReplyView::ElementName(Some(name@)),
            Reply::TitleMatch(pid) => ReplyView::TitleMatch(*pid),
            Reply::Measured(None) => ReplyView::Measured(None),
            Reply::Measured(Some(t)) => ReplyView::Measured(
                Some(
                    Measurement {
                        name: t.name@,
                        total_ws: t.total_ws as nat,
                        total_commit: t.total_commit as nat,
                    },
                ),
            ),
        }
    }
}

impl View for Action {
    type V = ActionView;

    open spec fn view(&self) -> ActionView {
        match self {
            Action::ReadCursor => ActionView::ReadCursor,
            Action::FindWindow(at) => ActionView::FindWindow(*at),
            Action::FindRoot => ActionView::FindRoot,
            Action::ReadClassName => ActionView::ReadClassName,
            Action::GetAutomation => ActionView::GetAutomation,
            Action::FindElement(at) => ActionView::FindElement(*at),
            Action::FindElementWindow => ActionView::FindElementWindow,
            Action::FindWindowOwner => ActionView::FindWindowOwner,
            Action::AskElementProcess => ActionView::AskElementProcess,
            Action::FindProcessName(pid) => ActionView::FindProcessName(*pid),
            Action::ReadElementName => ActionView::ReadElementName,
            Action::MatchTitle(name) => ActionView::MatchTitle(name@),
            Action::Measure(pid) => ActionView::Measure(*pid),
            Action::Nothing => ActionView::Nothing,
            Action::Hide => ActionView::Hide,
            Action::Show { lines, frame } => ActionView::Show {
                lines: units_in(lines@),
                frame: *frame,
            },
        }
    }
}

/// Whether `name` is that of the program that hosts the taskbar.
pub open spec fn is_taskbar_host(name: Seq<char>) -> bool {
    same_but_for_case(name, "explorer.exe"@)
}

/// A process number as an element names it, modulo 2^32, `0` if it names none.
pub open spec fn unsigned_pid(pid: Option<i32>) -> u32 {
    match pid {
        Some(n) if n >= 0 => n as u32,
        Some(n) => (n + 0x1_0000_0000) as u32,
        None => 0,
    }
}

/// One look at the cursor: what it waits for, where the cursor is, the process found so far,
/// and the process that the program itself runs in.
#[derive(Clone, Copy, Debug)]
pub struct Poll {
    pub stage: Stage,
    pub at: Point,
    pub pid: u32,
    pub own_pid: u32,
}

impl Poll {
    /// Whether `reply` answers the question that the poll has asked.
    pub open spec fn expects(self, reply: ReplyView) -> bool {
        match self.stage {
            Stage::Cursor => reply is Cursor,
            Stage::Window => reply is Window,
            Stage::Root => reply is Root,
            Stage::ClassName => reply is ClassName,
            Stage::Automation => reply is Automation,
            Stage::Element => reply is Element,
            Stage::ElementWindow => reply is ElementWindow,
            Stage::WindowOwner => reply is WindowOwner,
            Stage::ElementProcess => reply is ElementProcess,
            Stage::ProcessName => reply is ProcessName,
            Stage::ElementName => reply is ElementName,
            Stage::TitleMatch => reply is TitleMatch,
            Stage::Measured => reply is Measured,
            Stage::Done => false,
        }
    }

    /// The poll at another stage.
    pub open spec fn at_stage(self, stage: Stage) -> Poll {
        Poll { stage, ..self }
    }

    /// The poll at its end, with its last action.
    pub open spec fn ended(self, action: ActionView) -> (Poll, ActionView) {
        (self.at_stage(Stage::Done), action)
    }

    /// What follows once the process `pid` is decided on: its memory is asked for, unless it
    /// is unknown or the program's own.
    pub open spec fn decided_on(self, pid: u32) -> (Poll, ActionView) {
        if pid == 0 || pid == self.own_pid {
            (Poll { pid, ..self }).ended(ActionView::Hide)
        } else {
            (Poll { stage: Stage::Measured, pid, ..self }, ActionView::Measure(pid))
        }
    }

    /// What follows once the first process `pid` is found: its executable is asked for, if
    /// there is such a process.
    pub open spec fn found(self, pid: u32) -> (Poll, ActionView) {
        if pid == 0 {
            self.decided_on(pid)
        } else {
            (Poll { stage: Stage::ProcessName, pid, ..self }, ActionView::FindProcessName(pid))
        }
    }

    /// The poll and its next action after `reply`.
    pub open spec fn after(self, reply: ReplyView) -> (Poll, ActionView) {
        match reply {
            ReplyView::Cursor(None) => self.ended(ActionView::Nothing),
            ReplyView::Cursor(Some(at)) => (
                Poll { stage: Stage::Window, at, ..self },
                ActionView::FindWindow(at),
            ),
            ReplyView::Window(true) => (self.at_stage(Stage::Root), ActionView::FindRoot),
            ReplyView::Window(false) => self.ended(ActionView::Hide),
            ReplyView::Root(true) => (
                self.at_stage(Stage::ClassName),
                ActionView::ReadClassName,
            ),
            ReplyView::Root(false) => self.ended(ActionView::Hide),
            ReplyView::ClassName(units) => if is_taskbar_name(text_of(units)) {
                (self.at_stage(Stage::Automation), ActionView::GetAutomation)
            } else {
                self.ended(ActionView::Hide)
            },
            ReplyView::Automation(true) => (
                self.at_stage(Stage::Element),
                ActionView::FindElement(self.at),
            ),
            ReplyView::Automation(false) => self.ended(ActionView::Nothing),
            ReplyView::Element(true) => (
                self.at_stage(Stage::ElementWindow),
                ActionView::FindElementWindow,
            ),
            ReplyView::Element(false) => self.ended(ActionView::Hide),
            ReplyView::ElementWindow(true) => (
                self.at_stage(Stage::WindowOwner),
                ActionView::FindWindowOwner,
            ),
            ReplyView::ElementWindow(false) => (
                self.at_stage(Stage::ElementProcess),
                ActionView::AskElementProcess,
            ),
            ReplyView::WindowOwner(pid) => if pid != 0 {
                self.found(pid)
            } else {
                (self.at_stage(Stage::ElementProcess), ActionView::AskElementProcess)
            },
            ReplyView::ElementProcess(pid) => self.found(unsigned_pid(pid)),
            ReplyView::ProcessName(name) => if is_taskbar_host(name) {
                (self.at_stage(Stage::ElementName), ActionView::ReadElementName)
            } else {
                self.decided_on(self.pid)
            },
            ReplyView::ElementName(name) => match name {
                Some(n) if n.len() > 0 => (
                    self.at_stage(Stage::TitleMatch),
                    ActionView::MatchTitle(n),
                ),
                _ => self.decided_on(self.pid),
            },
            ReplyView::TitleMatch(pid) => self.decided_on(
                if pid != 0 {
                    pid
                } else {
                    self.pid
                },
            ),
            ReplyView::Measured(measured) => match measured {
                Some(m) if !is_taskbar_host(m.name) => self.ended(
                    ActionView::Show {
                        lines: line_units(m.name, m.total_ws, m.total_commit),
                        frame: frame_for(self.at),
                    },
                ),
                _ => self.ended(ActionView::Hide),
            },
        }
    }

    /// A new poll by the process `own_pid`, and its first action.
    pub fn start(own_pid: u32) -> (first: (Poll, Action))
        ensures
            first.0 == (Poll {
                stage: Stage::Cursor,
                at: Point { x: 0, y: 0 },
                pid: 0,
                own_pid,
            }),
            first.1@ == ActionView::ReadCursor,
    {
        (
            Poll { stage: Stage::Cursor, at: Point { x: 0, y: 0 }, pid: 0, own_pid },
            Action::ReadCursor,
        )
    }

    /// Ends the poll with the overlay hidden.
    fn end_hidden(&mut self) -> (action: Action)
        ensures
            (*final(self), action@) == old(self).ended(ActionView::Hide),
    {
        self.stage = Stage::Done;
        Action::Hide
    }

    /// Decides on the process `pid`.
    fn decide_on(&mut self, pid: u32) -> (action: Action)
        ensures
            (*final(self), action@) == old(self).decided_on(pid),
    {
        self.pid = pid;
        if pid == 0 || pid == self.own_pid {
            self.end_hidden()
        } else {
            self.stage = Stage::Measured;
            Action::Measure(pid)
        }
    }

    /// Takes `pid` as the first process found.
    fn find(&mut self, pid: u32) -> (action: Action)
        ensures
            (*final(self), action@) == old(self).found(pid),
    {
        if pid == 0 {
            self.decide_on(pid)
        } else {
            self.pid = pid;
            self.stage = Stage::ProcessName;
            Action::FindProcessName(pid)
        }
    }

    /// Moves to another stage, to take the answer to `action` there.
    fn ask(&mut self, stage: Stage, action: Action) -> (asked: Action)
        ensures
            *final(self) == old(self).at_stage(stage),
            asked == action,
    {
        self.stage = stage;
        action
    }

    /// Whether [`Poll::step`] may take `reply` now: it answers the last action, and if the
    /// overlay is then shown, it has a position.
    pub fn accepts(&self, reply: &Reply) -> (accepted: bool)
        ensures
            accepted == (self.expects(reply@) && (self.after(reply@).1 is Show ==> frame_fits(
                self.at,
            ))),
    {
        match (self.stage, reply) {
            (Stage::Cursor, Reply::Cursor(_)) => true,
            (Stage::Window, Reply::Window(_)) => true,
            (Stage::Root, Reply::Root(_)) => true,
            (Stage::ClassName, Reply::ClassName(_)) => true,
            (Stage::Automation, Reply::Automation(_)) => true,
            (Stage::Element, Reply::Element(_)) => true,
            (Stage::ElementWindow, Reply::ElementWindow(_)) => true,
            (Stage::WindowOwner, Reply::WindowOwner(_)) => true,
            (Stage::ElementProcess, Reply::ElementProcess(_)) => true,
            (Stage::ProcessName, Reply::ProcessName(_)) => true,
            (Stage::ElementName, Reply::ElementName(_)) => true,
            (Stage::TitleMatch, Reply::TitleMatch(_)) => true,
            (Stage::Measured, Reply::Measured(None)) => true,
            (Stage::Measured, Reply::Measured(Some(t))) => {
                eq_ignore_ascii_case(t.name.as_str(), "explorer.exe") || has_frame(self.at)
            },
            _ => false,
        }
    }

    /// Takes the answer to the last action, and gives the next action.
    pub fn step(&mut self, reply: Reply) -> (action: Action)
        requires
            old(self).expects(reply@),
            old(self).after(reply@).1 is Show ==> frame_fits(old(self).at),
        ensures
            (*final(self), action@) == old(self).after(reply@),
    {
        match reply {
            Reply::Cursor(None) => self.ask(Stage::Done, Action::Nothing),
            Reply::Cursor(Some(at)) => {
                self.at = at;
                self.ask(Stage::Window, Action::FindWindow(at))
            },
            Reply::Window(found) => if found {
                self.ask(Stage::Root, Action::FindRoot)
            } else {
                self.end_hidden()
            },
            Reply::Root(found) => if found {
                self.ask(Stage::ClassName, Action::ReadClassName)
            } else {
                self.end_hidden()
            },
            Reply::ClassName(units) => if is_taskbar_class(units.as_slice()) {
                self.ask(Stage::Automation, Action::GetAutomation)
            } else {
                self.end_hidden()
            },
            Reply::Automation(found) => if found {
                let at = self.at;
                self.ask(Stage::Element, Action::FindElement(at))
            } else {
                self.ask(Stage::Done, Action::Nothing)
            },
            Reply::Element(found) => if found {
                self.ask(Stage::ElementWindow, Action::FindElementWindow)
            } else {
                self.end_hidden()
            },
            Reply::ElementWindow(found) => if found {
                self.ask(Stage::WindowOwner, Action::FindWindowOwner)
            } else {
                self.ask(Stage::ElementProcess, Action::AskElementProcess)
            },
            Reply::WindowOwner(pid) => if pid != 0 {
                self.find(pid)
            } else {
                self.ask(Stage::ElementProcess, Action::AskElementProcess)
            },
            Reply::ElementProcess(pid) => self.find(pid_as_unsigned(pid)),
            Reply::ProcessName(name) => if eq_ignore_ascii_case(name.as_str(), "explorer.exe") {
                self.ask(Stage::ElementName, Action::ReadElementName)
            } else {
                let pid = self.pid;
                self.decide_on(pid)
            },
            Reply::ElementName(name) => match name {
                Some(n) => if n.as_str().is_empty() {
                    let pid = self.pid;
                    self.decide_on(pid)
                } else {
                    self.ask(Stage::TitleMatch, Action::MatchTitle(n))
                },
                None => {
                    let pid = self.pid;
                    self.decide_on(pid)
                },
            },
            Reply::TitleMatch(pid) => {
                let best: u32 = if pid != 0 {
                    pid
                } else {
                    self.pid
                };
                self.decide_on(best)
            },
            Reply::Measured(measured) => match measured {
                Some(t) => if eq_ignore_ascii_case(t.name.as_str(), "explorer.exe") {
                    self.end_hidden()
                } else {
                    let frame = tooltip_frame(self.at);
                    self.ask(Stage::Done, Action::Show { lines: tooltip_lines(&t), frame })
                },
                None => self.end_hidden(),
            },
        }
    }
}

/// A process number as an element names it, modulo 2^32, `0` if it names none.
fn pid_as_unsigned(pid: Option<i32>) -> (n: u32)
    ensures
        n == unsigned_pid(pid),
{
    match pid {
        Some(n) => {
            assert(n >= 0 ==> n as u32 == n) by (bit_vector);
            assert(n < 0 ==> n as u32 == n + 0x1_0000_0000) by (bit_vector);
            #[verifier::truncate] (n as u32)
        },
        None => 0,
    }
}

/// All that a poll can ask about.
pub struct Desktop {
    /// Where the cursor is.
    pub cursor: Option<Point>,
    /// Whether there is a window under the cursor.
    pub window: bool,
    /// Whether that window has a root.
    pub root: bool,
    /// The code units of the root's class name.
    pub class_name: Seq<u16>,
    /// Whether there is an automation service.
    pub automation: bool,
    /// Whether the service knows the element under the cursor.
    pub element: bool,
    /// Whether the element has a window of its own.
    pub element_window: bool,
    /// The process of that window.
    pub window_owner: u32,
    /// The process that the element names.
    pub element_process: Option<i32>,
    /// The executable's file name of each process.
    pub process_name: spec_fn(u32) -> Seq<char>,
    /// The name of the element.
    pub element_name: Option<Seq<char>>,
    /// The process of the window whose title fits a name best.
    pub title_match: spec_fn(Seq<char>) -> u32,
    /// The memory of the program that a process runs.
    pub measured: spec_fn(u32) -> Option<Measurement>,
}

impl Desktop {
    /// What this desktop answers to a question.
    pub open spec fn answer(self, action: ActionView) -> ReplyView {
        match action {
            ActionView::FindWindow(_) => ReplyView::Window(self.window),
            ActionView::FindRoot => ReplyView::Root(self.root),
            ActionView::ReadClassName => ReplyView::ClassName(self.class_name),
            ActionView::GetAutomation => ReplyView::Automation(self.automation),
            ActionView::FindElement(_) => ReplyView::Element(self.element),
            ActionView::FindElementWindow => ReplyView::ElementWindow(self.element_window),
            ActionView::FindWindowOwner => ReplyView::WindowOwner(self.window_owner),
            ActionView::AskElementProcess => ReplyView::ElementProcess(self.element_process),
            ActionView::FindProcessName(pid) => ReplyView::ProcessName((self.process_name)(pid)),
            ActionView::ReadElementName => ReplyView::ElementName(self.element_name),
            ActionView::MatchTitle(name) => ReplyView::TitleMatch((self.title_match)(name)),
            ActionView::Measure(pid) => ReplyView::Measured((self.measured)(pid)),
            _ => ReplyView::Cursor(self.cursor),
        }
    }

    /// Whether the cursor is over the taskbar or the tray.
    pub open spec fn over_taskbar(self) -> bool {
        self.window && self.root && is_taskbar_name(text_of(self.class_name))
    }

    /// The process under the cursor: that of the element's window if it has one with a known
    /// process, else the one that the element names.
    pub open spec fn process_under_cursor(self) -> u32 {
        if self.element_window && self.window_owner != 0 {
            self.window_owner
        } else {
            unsigned_pid(self.element_process)
        }
    }

    /// The process that the element under the cursor stands for. If the process under the
    /// cursor is the host of the taskbar, it is that of the window whose title fits the
    /// element's name best, if there is one.
    pub open spec fn process_meant(self) -> u32 {
        let pid = self.process_under_cursor();
        match self.element_name {
            Some(name) if pid != 0 && is_taskbar_host((self.process_name)(pid)) && name.len() > 0
                && (self.title_match)(name) != 0 => (self.title_match)(name),
            _ => pid,
        }
    }

    /// What becomes of the overlay of a program that runs in the process `own_pid`.
    pub open spec fn outcome(self, own_pid: u32) -> ActionView {
        let pid = self.process_meant();
        match self.cursor {
            None => ActionView::Nothing,
            Some(at) => if !self.over_taskbar() {
                ActionView::Hide
            } else if !self.automation {
                ActionView::Nothing
            } else if !self.element || pid == 0 || pid == own_pid {
                ActionView::Hide
            } else {
                match (self.measured)(pid) {
                    Some(m) if !is_taskbar_host(m.name) => ActionView::Show {
                        lines: line_units(m.name, m.total_ws, m.total_commit),
                        frame: frame_for(at),
                    },
                    _ => ActionView::Hide,
                }
            },
        }
    }
}

/// Whether a poll is over with this action.
pub open spec fn is_last(action: ActionView) -> bool {
    action is Nothing || action is Hide || action is Show
}

/// The action that a poll is at after `answers` more answers from `desktop`, or with which it
/// was over before.
pub open spec fn action_after(
    desktop: Desktop,
    poll: Poll,
    action: ActionView,
    answers: nat,
) -> ActionView
    decreases answers,
{
    if answers == 0 || is_last(action) {
        action
    } else {
        let next = poll.after(desktop.answer(action));
        action_after(desktop, next.0, next.1, (answers - 1) as nat)
    }
}

/// Whether the poll waits for the answer to `action`.
pub open spec fn waits_for(poll: Poll, action: ActionView) -> bool {
    match poll.stage {
        Stage::Cursor => action is ReadCursor,
        Stage::Window => action == ActionView::FindWindow(poll.at),
        Stage::Root => action is FindRoot,
        Stage::ClassName => action is ReadClassName,
        Stage::Automation => action is GetAutomation,
        Stage::Element => action == ActionView::FindElement(poll.at),
        Stage::ElementWindow => action is FindElementWindow,
        Stage::WindowOwner => action is FindWindowOwner,
        Stage::ElementProcess => action is AskElementProcess,
        Stage::ProcessName => action == ActionView::FindProcessName(poll.pid),
        Stage::ElementName => action is ReadElementName,
        Stage::TitleMatch => action is MatchTitle,
        Stage::Measured => action == ActionView::Measure(poll.pid),
        Stage::Done => is_last(action),
    }
}

/// How many answers a poll at this stage takes at most.
pub open spec fn answers_left(stage: Stage) -> nat {
    match stage {
        Stage::Cursor => 13,
        Stage::Window => 12,
        Stage::Root => 11,
        Stage::ClassName => 10,
        Stage::Automation => 9,
        Stage::Element => 8,
        Stage::ElementWindow => 7,
        Stage::WindowOwner => 6,
        Stage::ElementProcess => 5,
        Stage::ProcessName => 4,
        Stage::ElementName => 3,
        Stage::TitleMatch => 2,
        Stage::Measured => 1,
        Stage::Done => 0,
    }
}

/// Every answer brings a poll nearer to its end, and leaves it waiting for the answer to its
/// next action; its own process number stays.
pub proof fn law_every_answer_is_progress(poll: Poll, reply: ReplyView)
    requires
        poll.expects(reply),
    ensures
        answers_left(poll.after(reply).0.stage) < answers_left(poll.stage),
        waits_for(poll.after(reply).0, poll.after(reply).1),
        poll.after(reply).0.own_pid == poll.own_pid,
{
}

/// An answer that a desktop gives to the action that a poll waits on is one it expects.
pub proof fn law_answers_are_expected(desktop: Desktop, poll: Poll, action: ActionView)
    requires
        waits_for(poll, action),
        !is_last(action),
    ensures
        poll.expects(desktop.answer(action)),
{
}

/// What a poll that decided on the process `pid` ends with.
spec fn outcome_for(desktop: Desktop, poll: Poll, pid: u32) -> ActionView {
    if pid == 0 || pid == poll.own_pid {
        ActionView::Hide
    } else {
        match (desktop.measured)(pid) {
            Some(m) if !is_taskbar_host(m.name) => ActionView::Show {
                lines: line_units(m.name, m.total_ws, m.total_commit),
                frame: frame_for(poll.at),
            },
            _ => ActionView::Hide,
        }
    }
}

/// From the decision on a process to the end of the poll.
proof fn lemma_after_decision(desktop: Desktop, poll: Poll, pid: u32, answers: nat)
    requires
        answers >= 1,
    ensures
        action_after(desktop, poll.decided_on(pid).0, poll.decided_on(pid).1, answers)
            == outcome_for(desktop, poll, pid),
{
    let s = poll.decided_on(pid);
    if !is_last(s.1) {
        let t = s.0.after(desktop.answer(s.1));
        assert(action_after(desktop, t.0, t.1, (answers - 1) as nat) == t.1);
    }
}

/// From the first process found to the end of the poll.
proof fn lemma_after_find(desktop: Desktop, poll: Poll, answers: nat)
    requires
        answers >= 4,
    ensures
        ({
            let s = poll.found(desktop.process_under_cursor());
            action_after(desktop, s.0, s.1, answers) == outcome_for(
                desktop,
                poll,
                desktop.process_meant(),
            )
        }),
{
    let pid = desktop.process_under_cursor();
    let meant = desktop.process_meant();
    let s = poll.found(pid);
    if pid == 0 {
        lemma_after_decision(desktop, poll, pid, answers);
    } else {
        let t = s.0.after(desktop.answer(s.1));
        let left = (answers - 1) as nat;
        assert(action_after(desktop, s.0, s.1, answers) == action_after(desktop, t.0, t.1, left));
        if is_taskbar_host((desktop.process_name)(pid)) {
            let u = t.0.after(desktop.answer(t.1));
            let left = (answers - 2) as nat;
            assert(action_after(desktop, s.0, s.1, answers) == action_after(
                desktop,
                u.0,
                u.1,
                left,
            ));
            if desktop.element_name is Some && desktop.element_name->0.len() > 0 {
                let v = u.0.after(desktop.answer(u.1));
                let left = (answers - 3) as nat;
                assert(action_after(desktop, s.0, s.1, answers) == action_after(
                    desktop,
                    v.0,
                    v.1,
                    left,
                ));
                assert(v == u.0.decided_on(meant));
                lemma_after_decision(desktop, u.0, meant, left);
            } else {
                assert(u == t.0.decided_on(pid));
                lemma_after_decision(desktop, t.0, pid, left);
            }
        } else {
            assert(t == s.0.decided_on(pid));
            lemma_after_decision(desktop, s.0, pid, left);
        }
    }
}

/// From the element under the cursor to the end of the poll.
proof fn lemma_after_element(desktop: Desktop, poll: Poll, answers: nat)
    requires
        answers >= 7,
    ensures
        action_after(
            desktop,
            poll.at_stage(Stage::ElementWindow),
            ActionView::FindElementWindow,
            answers,
        ) == outcome_for(desktop, poll, desktop.process_meant()),
{
    let s = poll.at_stage(Stage::ElementWindow);
    let t = s.after(desktop.answer(ActionView::FindElementWindow));
    let u = t.0.after(desktop.answer(t.1));
    let whole = action_after(desktop, s, ActionView::FindElementWindow, answers);
    assert(whole == action_after(desktop, t.0, t.1, (answers - 1) as nat));
    assert(whole == action_after(desktop, u.0, u.1, (answers - 2) as nat));
    if desktop.element_window && desktop.window_owner == 0 {
        let v = u.0.after(desktop.answer(u.1));
        assert(whole == action_after(desktop, v.0, v.1, (answers - 3) as nat));
        assert(v == u.0.found(desktop.process_under_cursor()));
        lemma_after_find(desktop, u.0, (answers - 3) as nat);
    } else {
        assert(u == t.0.found(desktop.process_under_cursor()));
        lemma_after_find(desktop, t.0, (answers - 2) as nat);
    }
}

/// A poll that asks its questions of one desktop, and gets as many answers as it may take,
/// ends with what becomes of the overlay on that desktop.
pub proof fn law_poll_ends_with_outcome(desktop: Desktop, own_pid: u32, answers: nat)
    requires
        answers >= answers_left(Stage::Cursor),
    ensures
        action_after(
            desktop,
            Poll { stage: Stage::Cursor, at: Point { x: 0, y: 0 }, pid: 0, own_pid },
            ActionView::ReadCursor,
            answers,
        ) == desktop.outcome(own_pid),
{
    let start = Poll { stage: Stage::Cursor, at: Point { x: 0, y: 0 }, pid: 0, own_pid };
    let whole = action_after(desktop, start, ActionView::ReadCursor, answers);
    let window = start.after(desktop.answer(ActionView::ReadCursor));
    assert(whole == action_after(desktop, window.0, window.1, (answers - 1) as nat));
    if desktop.cursor is Some {
        let root = window.0.after(desktop.answer(window.1));
        assert(whole == action_after(desktop, root.0, root.1, (answers - 2) as nat));
        if desktop.window {
            let class_name = root.0.after(desktop.answer(root.1));
            assert(whole == action_after(
                desktop,
                class_name.0,
                class_name.1,
                (answers - 3) as nat,
            ));
            if desktop.root {
                let service = class_name.0.after(desktop.answer(class_name.1));
                assert(whole == action_after(
                    desktop,
                    service.0,
                    service.1,
                    (answers - 4) as nat,
                ));
                if desktop.over_taskbar() {
                    let element = service.0.after(desktop.answer(service.1));
                    assert(whole == action_after(
                        desktop,
                        element.0,
                        element.1,
                        (answers - 5) as nat,
                    ));
                    if desktop.automation {
                        let found = element.0.after(desktop.answer(element.1));
                        assert(whole == action_after(
                            desktop,
                            found.0,
                            found.1,
                            (answers - 6) as nat,
                        ));
                        if desktop.element {
                            lemma_after_element(desktop, element.0, (answers - 6) as nat);
                        }
                    }
                }
            }
        }
    }
}

/// The overlay is never shown for the host of the taskbar, nor for the program itself, nor
/// away from the taskbar.
pub proof fn law_shown_only_for_others(desktop: Desktop, own_pid: u32)
    requires
        desktop.outcome(own_pid) is Show,
    ensures
        desktop.over_taskbar(),
        desktop.process_meant() != own_pid,
        desktop.process_meant() != 0,
        (desktop.measured)(desktop.process_meant()) matches Some(m) && !is_taskbar_host(m.name),
{
}

/// Whenever the overlay is shown it has both lines, and both are painted.
pub proof fn law_shown_lines_are_painted(desktop: Desktop, own_pid: u32)
    requires
        desktop.outcome(own_pid) is Show,
    ensures
        desktop.outcome(own_pid)->lines.len() == 2,
        exists|i: int|
            0 <= i < painting(2).len() && (#[trigger] painting(2)[i] matches PaintOp::Text {
                line,
                ..
            } && line == 0),
        exists|i: int|
            0 <= i < painting(2).len() && (#[trigger] painting(2)[i] matches PaintOp::Text {
                line,
                ..
            } && line == 1),
{
    assert(painting(2)[3] matches PaintOp::Text { line, .. } && line == 0);
    assert(painting(2)[4] matches PaintOp::Text { line, .. } && line == 1);
}

/// The host of the taskbar is the program whose name, in small letters, is explorer.exe; a name
/// that is not of twelve characters is not its.
pub proof fn law_taskbar_host(name: Seq<char>)
    ensures
        is_taskbar_host(name) <==> lower_ascii(name) == "explorer.exe"@,
        name.len() != 12 ==> !is_taskbar_host(name),
{
    reveal_strlit("explorer.exe");
    assert(lower_ascii("explorer.exe"@) =~= "explorer.exe"@) by {
        law_lower_ascii("explorer.exe"@);
        assert forall|i: int| 0 <= i < 12 implies lower_ascii("explorer.exe"@)[i]
            == "explorer.exe"@[i] by {
            crate::utf16::lemma_char_number(lower_ascii("explorer.exe"@)[i]);
            crate::utf16::lemma_char_number("explorer.exe"@[i]);
        }
    }
    assert(lower_ascii(name).len() == name.len());
}

/// The number that an element names is taken modulo 2^32; none is `0`.
pub proof fn law_unsigned_pid(n: i32)
    ensures
        unsigned_pid(None) == 0,
        (unsigned_pid(Some(n)) - n) % 0x1_0000_0000 == 0,
        n >= 0 ==> unsigned_pid(Some(n)) == n,
{
}

/// Without a position of the cursor the overlay is left as it is.
pub proof fn law_unknown_cursor_changes_nothing(desktop: Desktop, own_pid: u32)
    requires
        desktop.cursor is None,
    ensures
        desktop.outcome(own_pid) is Nothing,
{
}

/// Over anything but a window whose root has one of the four classes of the taskbar, the overlay
/// is hidden, whatever else there is.
pub proof fn law_hidden_away_from_the_taskbar(desktop: Desktop, own_pid: u32)
    requires
        desktop.cursor is Some,
        ({
            let class_name = text_of(desktop.class_name);
            ||| !desktop.window
            ||| !desktop.root
            ||| class_name != "Shell_TrayWnd"@ && class_name != "Shell_SecondaryTrayWnd"@
                && class_name != "NotifyIconOverflowWindow"@ && class_name
                != "XamlExplorerHostIslandWindow"@
        }),
    ensures
        desktop.outcome(own_pid) is Hide,
{
    law_taskbar_classes(text_of(desktop.class_name));
}

/// Over the taskbar, without an automation service, the overlay is left as it is; with one that
/// does not know the element under the cursor it is hidden.
pub proof fn law_without_element(desktop: Desktop, own_pid: u32)
    requires
        desktop.cursor is Some,
        desktop.window,
        desktop.root,
        seq![
            "Shell_TrayWnd"@,
            "Shell_SecondaryTrayWnd"@,
            "NotifyIconOverflowWindow"@,
            "XamlExplorerHostIslandWindow"@,
        ].contains(text_of(desktop.class_name)),
    ensures
        !desktop.automation ==> desktop.outcome(own_pid) is Nothing,
        desktop.automation && !desktop.element ==> desktop.outcome(own_pid) is Hide,
{
    law_taskbar_classes(text_of(desktop.class_name));
}

/// The process of the element's window, if it has one with a known process, is the one meant,
/// unless it runs explorer.exe.
pub proof fn law_window_owner_is_meant(desktop: Desktop)
    requires
        desktop.element_window,
        desktop.window_owner != 0,
        lower_ascii((desktop.process_name)(desktop.window_owner)) != "explorer.exe"@,
    ensures
        desktop.process_meant() == desktop.window_owner,
{
    law_taskbar_host((desktop.process_name)(desktop.window_owner));
}

/// Without a window, or with one whose process is unknown, the process that the element names is
/// meant, unless it runs explorer.exe; if it names none, none is.
pub proof fn law_element_process_is_meant(desktop: Desktop, pid: u32)
    requires
        !desktop.element_window || desktop.window_owner == 0,
        desktop.element_process matches Some(n) ==> (pid - n) % 0x1_0000_0000 == 0,
        desktop.element_process is None ==> pid == 0,
        lower_ascii((desktop.process_name)(pid)) != "explorer.exe"@ || pid == 0,
    ensures
        desktop.process_meant() == pid,
{
    law_taskbar_host((desktop.process_name)(pid));
}

/// If the process under the cursor runs explorer.exe and the element has a name, the process of
/// the window that the name fits best is meant, if there is one, and else that process itself.
pub proof fn law_explorer_is_resolved(desktop: Desktop, pid: u32)
    requires
        pid != 0,
        ({
            ||| desktop.element_window && desktop.window_owner == pid
            ||| {
                &&& !desktop.element_window || desktop.window_owner == 0
                &&& desktop.element_process is Some
                &&& (pid - desktop.element_process->0) % 0x1_0000_0000 == 0
            }
        }),
        lower_ascii((desktop.process_name)(pid)) == "explorer.exe"@,
    ensures
        desktop.element_name matches Some(name) ==> name.len() > 0 ==> (desktop.title_match)(name)
            != 0 ==> desktop.process_meant() == (desktop.title_match)(name),
        desktop.element_name matches Some(name) ==> name.len() == 0 || (desktop.title_match)(name)
            == 0 ==> desktop.process_meant() == pid,
        desktop.element_name is None ==> desktop.process_meant() == pid,
{
    law_taskbar_host((desktop.process_name)(pid));
}

/// Over an element of the taskbar that means a process which is known, is not the program's own
/// and is measured under a name that is not explorer.exe, the overlay is shown, 12 to the right
/// of the cursor and 70 above it, with the lines for that measurement.
pub proof fn law_overlay_is_shown(
    desktop: Desktop,
    own_pid: u32,
    at: Point,
    m: Measurement,
)
    requires
        desktop.cursor == Some(at),
        frame_fits(at),
        desktop.window,
        desktop.root,
        seq![
            "Shell_TrayWnd"@,
            "Shell_SecondaryTrayWnd"@,
            "NotifyIconOverflowWindow"@,
            "XamlExplorerHostIslandWindow"@,
        ].contains(text_of(desktop.class_name)),
        desktop.automation,
        desktop.element,
        desktop.process_meant() != 0,
        desktop.process_meant() != own_pid,
        (desktop.measured)(desktop.process_meant()) == Some(m),
        lower_ascii(m.name) != "explorer.exe"@,
    ensures
        desktop.outcome(own_pid) matches ActionView::Show { lines, frame } && lines == line_units(
            m.name,
            m.total_ws,
            m.total_commit,
        ) && text_of(lines[0]) == ("App: "@ + m.name).push('\0') && frame.x == at.x + 12 && frame.y
            == at.y - 70 && frame.width == 300 && frame.height == 70,
{
    law_taskbar_classes(text_of(desktop.class_name));
    law_taskbar_host(m.name);
    law_first_line_names_the_program(m.name, m.total_ws, m.total_commit);
    law_frame_by_numbers(at);
}

/// A program whose name is not of twelve characters is always shown.
pub proof fn law_overlay_is_shown_for_other_lengths(
    desktop: Desktop,
    own_pid: u32,
    at: Point,
    m: Measurement,
)
    requires
        desktop.cursor == Some(at),
        desktop.window,
        desktop.root,
        seq![
            "Shell_TrayWnd"@,
            "Shell_SecondaryTrayWnd"@,
            "NotifyIconOverflowWindow"@,
            "XamlExplorerHostIslandWindow"@,
        ].contains(text_of(desktop.class_name)),
        desktop.automation,
        desktop.element,
        desktop.process_meant() != 0,
        desktop.process_meant() != own_pid,
        (desktop.measured)(desktop.process_meant()) == Some(m),
        m.name.len() != 12,
    ensures
        desktop.outcome(own_pid) is Show,
{
    law_taskbar_classes(text_of(desktop.class_name));
    law_taskbar_host(m.name);
}

/// Over the taskbar, where no process or the program's own is meant, or one that cannot be
/// measured or runs explorer.exe, the overlay is hidden.
pub proof fn law_overlay_is_hidden(desktop: Desktop, own_pid: u32)
    requires
        desktop.cursor is Some,
        desktop.automation,
        ({
            ||| desktop.process_meant() == 0
            ||| desktop.process_meant() == own_pid
            ||| (desktop.measured)(desktop.process_meant()) is None
            ||| lower_ascii((desktop.measured)(desktop.process_meant())->0.name)
                == "explorer.exe"@
        }),
    ensures
        desktop.outcome(own_pid) is Hide,
{
    if let Some(m) = (desktop.measured)(desktop.process_meant()) {
        law_taskbar_host(m.name);
    }
}

/// A poll keeps the position of the cursor that it was told, asks for the window and for the
/// element at that position, for the executable of the process it was told, and for the memory
/// of the process it decided on.
pub proof fn law_questions_are_about_the_answers(poll: Poll, reply: ReplyView)
    requires
        poll.expects(reply),
    ensures
        ({
            let next = poll.after(reply);
            &&& reply matches ReplyView::Cursor(Some(at)) ==> next.0.at == at && next.1
                == ActionView::FindWindow(at)
            &&& !(reply is Cursor) ==> next.0.at == poll.at
            &&& next.1 matches ActionView::FindElement(at) ==> at == poll.at
            &&& next.1 is FindElement <==> reply == ReplyView::Automation(true)
            &&& reply matches ReplyView::WindowOwner(pid) ==> pid != 0 ==> next.1
                == ActionView::FindProcessName(pid)
            &&& next.1 matches ActionView::FindProcessName(pid) ==> next.0.pid == pid
            &&& reply matches ReplyView::ElementName(Some(name)) ==> name.len() > 0 ==> next.1
                == ActionView::MatchTitle(name)
            &&& next.1 is MatchTitle ==> reply is ElementName
            &&& next.1 matches ActionView::Measure(pid) ==> next.0.pid == pid && pid != 0 && pid
                != poll.own_pid
        }),
{
}

/// Replies and actions are taken as they are given.
pub proof fn law_values_of_replies(
    units: Vec<u16>,
    name: String,
    t: Telemetry,
    pid: u32,
    n: Option<i32>,
    at: Option<Point>,
    found: bool,
)
    ensures
        Reply::Cursor(at)@ == ReplyView::Cursor(at),
        Reply::Window(found)@ == ReplyView::Window(found),
        Reply::Root(found)@ == ReplyView::Root(found),
        Reply::ClassName(units)@ == ReplyView::ClassName(units@),
        Reply::Automation(found)@ == ReplyView::Automation(found),
        Reply::Element(found)@ == ReplyView::Element(found),
        Reply::ElementWindow(found)@ == ReplyView::ElementWindow(found),
        Reply::WindowOwner(pid)@ == ReplyView::WindowOwner(pid),
        Reply::ElementProcess(n)@ == ReplyView::ElementProcess(n),
        Reply::ProcessName(name)@ == ReplyView::ProcessName(name@),
        Reply::ElementName(Some(name))@ == ReplyView::ElementName(Some(name@)),
        Reply::ElementName(None)@ == ReplyView::ElementName(None),
        Reply::TitleMatch(pid)@ == ReplyView::TitleMatch(pid),
        Reply::Measured(Some(t))@ matches ReplyView::Measured(Some(m)) && m.name == t.name@
            && m.total_ws == t.total_ws && m.total_commit == t.total_commit,
        Reply::Measured(None)@ == ReplyView::Measured(None),
{
}

/// Actions are what they hold.
pub proof fn law_values_of_actions(
    lines: Vec<Vec<u16>>,
    frame: Frame,
    name: String,
    pid: u32,
    at: Point,
    i: int,
)
    requires
        0 <= i < lines@.len(),
    ensures
        Action::FindWindow(at)@ == ActionView::FindWindow(at),
        Action::FindElement(at)@ == ActionView::FindElement(at),
        Action::FindProcessName(pid)@ == ActionView::FindProcessName(pid),
        Action::MatchTitle(name)@ == ActionView::MatchTitle(name@),
        Action::Measure(pid)@ == ActionView::Measure(pid),
        Action::Nothing@ is Nothing,
        Action::Hide@ is Hide,
        (Action::Show { lines, frame })@ matches ActionView::Show { lines: shown, frame: f } && f
            == frame && shown.len() == lines@.len() && shown[i] == lines@[i]@,
{
}

} // verus!
