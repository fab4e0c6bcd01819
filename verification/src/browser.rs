//! The list browser as a state machine: it takes one input event at a time
//! and either moves the cursor, ends with an outcome, or stays as it is.
//!
//! Drawing the list and waiting for the next event happen outside; between
//! two events the caller reads what it needs to draw from the browser.

use crate::columns::{
    calc_link_len_constraint, calc_topic_len_constraint, link_len_constraint, topic_len_constraint,
};
use crate::model::{Link, Topic};
use crate::selection::{SelectableList, Selection};
use vstd::prelude::*;
use vstd::string::StringExecFns;

verus! {

/// The key of a key event, as far as the browser tells keys apart.
#[derive(Clone, Copy, Debug, PartialEq, Eq, Structural)]
pub enum KeyCode {
    Char(char),
    Up,
    Down,
    Enter,
    Other,
}

/// One input event from the terminal.
#[derive(Clone, Copy, Debug, PartialEq, Eq, Structural)]
pub enum InputEvent {
    /// A key was pressed.
    Press(KeyCode),
    /// Anything else: a key was released or repeated, the window changed.
    Other,
}

/// What a browsing session ended with. The record is the one that was
/// selected at that moment; it is absent where nothing was selected.
#[derive(Debug, PartialEq, Eq)]
pub enum MenuEvent {
    /// The session is running, or it was left without a choice.
    Nothing,
    /// The selected record is to be shown.
    Display(Option<Topic>),
    /// The command of the selected record is to be run.
    Execute(Option<Topic>),
}

/// What the user asked for with one event.
#[derive(Clone, Copy, Debug, PartialEq, Eq, Structural)]
pub enum Request {
    Quit,
    Up,
    Down,
    Display,
    Execute,
    Ignore,
}

/// What an event asks of the topic browser. Only key presses count.
pub open spec fn topic_request_of(event: InputEvent) -> Request {
    match event {
        InputEvent::Press(KeyCode::Char(c)) => if c == 'q' {
            Request::Quit
        } else if c == 'e' {
            Request::Execute
        } else {
            Request::Ignore
        },
        InputEvent::Press(KeyCode::Up) => Request::Up,
        InputEvent::Press(KeyCode::Down) => Request::Down,
        InputEvent::Press(KeyCode::Enter) => Request::Display,
        _ => Request::Ignore,
    }
}

/// What an event asks of the link browser, which has no key to run anything.
pub open spec fn link_request_of(event: InputEvent) -> Request {
    match event {
        InputEvent::Press(KeyCode::Char(c)) => if c == 'q' {
            Request::Quit
        } else {
            Request::Ignore
        },
        InputEvent::Press(KeyCode::Up) => Request::Up,
        InputEvent::Press(KeyCode::Down) => Request::Down,
        InputEvent::Press(KeyCode::Enter) => Request::Display,
        _ => Request::Ignore,
    }
}

/// Reads an event as a request to the topic browser.
pub fn topic_request(event: InputEvent) -> (r: Request)
    ensures
        r == topic_request_of(event),
{
    match event {
        InputEvent::Press(code) => match code {
            KeyCode::Char(c) => if c == 'q' {
                Request::Quit
            } else if c == 'e' {
                Request::Execute
            } else {
                Request::Ignore
            },
            KeyCode::Up => Request::Up,
            KeyCode::Down => Request::Down,
            KeyCode::Enter => Request::Display,
            KeyCode::Other => Request::Ignore,
        },
        InputEvent::Other => Request::Ignore,
    }
}

/// Reads an event as a request to the link browser.
pub fn link_request(event: InputEvent) -> (r: Request)
    ensures
        r == link_request_of(event),
{
    match event {
        InputEvent::Press(code) => match code {
            KeyCode::Char(c) => if c == 'q' {
                Request::Quit
            } else {
                Request::Ignore
            },
            KeyCode::Up => Request::Up,
            KeyCode::Down => Request::Down,
            KeyCode::Enter => Request::Display,
            KeyCode::Other => Request::Ignore,
        },
        InputEvent::Other => Request::Ignore,
    }
}

/// The state of the topic browser.
pub ghost struct TerminalView {
    pub list: Selection<Topic>,
    pub exited: bool,
    pub event: MenuEvent,
    pub selected_cmd: Seq<char>,
    pub longest_item_lens: (int, int, int),
}

impl TerminalView {
    /// The cursor is valid, and while the session runs there is no outcome
    /// and no captured command.
    pub open spec fn wf(self) -> bool {
        &&& self.list.wf()
        &&& !self.exited ==> self.event == MenuEvent::Nothing && self.selected_cmd.len() == 0
    }

    /// The command that is captured when the session ends with a choice.
    pub open spec fn captured_cmd(self) -> Seq<char> {
        match self.list.selected() {
            Some(topic) => topic.command@,
            None => self.selected_cmd,
        }
    }

    /// The state after one event. A session that has ended stays as it is.
    pub open spec fn step(self, event: InputEvent) -> TerminalView {
        if self.exited {
            self
        } else {
            match topic_request_of(event) {
                Request::Quit => TerminalView { exited: true, event: MenuEvent::Nothing, ..self },
                Request::Up => TerminalView { list: self.list.previous(), ..self },
                Request::Down => TerminalView { list: self.list.next(), ..self },
                Request::Display => TerminalView {
                    exited: true,
                    event: MenuEvent::Display(self.list.selected()),
                    selected_cmd: self.captured_cmd(),
                    ..self
                },
                Request::Execute => TerminalView {
                    exited: true,
                    event: MenuEvent::Execute(self.list.selected()),
                    selected_cmd: self.captured_cmd(),
                    ..self
                },
                Request::Ignore => self,
            }
        }
    }

    /// The state after the events are taken in order, up to the one that
    /// ends the session.
    pub open spec fn run(self, events: Seq<InputEvent>) -> TerminalView
        decreases events.len(),
    {
        if self.exited || events.len() == 0 {
            self
        } else {
            self.step(events[0]).run(events.drop_first())
        }
    }

    /// How many of the events are taken before the session has ended or the
    /// events have run out.
    pub open spec fn consumed(self, events: Seq<InputEvent>) -> nat
        decreases events.len(),
    {
        if self.exited || events.len() == 0 {
            0
        } else {
            1 + self.step(events[0]).consumed(events.drop_first())
        }
    }
}

/// The browser over the topics of the notebook.
pub struct TerminalUI {
    exit: bool,
    library_list: SelectableList<Topic>,
    longest_item_lens: (u16, u16, u16),
    selected_cmd: String,
    event: MenuEvent,
}

impl View for TerminalUI {
    type V = TerminalView;

    closed spec fn view(&self) -> TerminalView {
        TerminalView {
            list: self.library_list@,
            exited: self.exit,
            event: self.event,
            selected_cmd: self.selected_cmd@,
            longest_item_lens: (
                self.longest_item_lens.0 as int,
                self.longest_item_lens.1 as int,
                self.longest_item_lens.2 as int,
            ),
        }
    }
}

impl TerminalUI {
    /// A browser over `topics`: running, nothing selected, no outcome.
    pub fn new(topics: Vec<Topic>) -> (r: TerminalUI)
        ensures
            r@.list.items == topics@,
            r@.list.cursor is None,
            r@.list.item_height == 1,
            !r@.exited,
            r@.event == MenuEvent::Nothing,
            r@.selected_cmd.len() == 0,
            r@.longest_item_lens == topic_len_constraint(topics@),
            r@.wf(),
    {
        let longest_item_lens = calc_topic_len_constraint(topics.as_slice());
        TerminalUI {
            exit: false,
            library_list: SelectableList::new(topics),
            longest_item_lens,
            selected_cmd: String::new(),
            event: MenuEvent::Nothing,
        }
    }

    /// The list with its cursor.
    pub fn list(&self) -> (r: &SelectableList<Topic>)
        ensures
            r@ == self@.list,
    {
        &self.library_list
    }

    /// The widths of the category, title and command columns.
    pub fn longest_item_lens(&self) -> (r: (u16, u16, u16))
        ensures
            (r.0 as int, r.1 as int, r.2 as int) == self@.longest_item_lens,
    {
        self.longest_item_lens
    }

    /// Whether the session has ended.
    pub fn exited(&self) -> (r: bool)
        ensures
            r == self@.exited,
    {
        self.exit
    }

    /// What the session ended with.
    pub fn event(&self) -> (r: &MenuEvent)
        ensures
            *r == self@.event,
    {
        &self.event
    }

    /// The command that was captured when the session ended with a choice;
    /// empty where there is none.
    pub fn selected_cmd(&self) -> (r: &String)
        ensures
            r@ == self@.selected_cmd,
    {
        &self.selected_cmd
    }

    /// Moves the cursor one topic down, wrapping at the end.
    pub fn select_next(&mut self)
        ensures
            final(self)@ == (TerminalView { list: old(self)@.list.next(), ..old(self)@ }),
            final(self)@.list.wf(),
    {
        self.library_list.select_next();
    }

    /// Moves the cursor one topic up, wrapping at the start.
    pub fn select_previous(&mut self)
        ensures
            final(self)@ == (TerminalView { list: old(self)@.list.previous(), ..old(self)@ }),
            final(self)@.list.wf(),
    {
        self.library_list.select_previous();
    }

    /// Captures the selected topic: its command becomes the captured
    /// command, and a copy of the record is handed back. Without a selection
    /// nothing changes and nothing is handed back.
    pub fn handle_selected(&mut self) -> (r: Option<Topic>)
        ensures
            r == old(self)@.list.selected(),
            final(self)@ == (TerminalView {
                selected_cmd: old(self)@.captured_cmd(),
                ..old(self)@
            }),
    {
        let picked = match self.library_list.selected() {
            Some(topic) => Some(topic.clone()),
            None => None,
        };
        if let Some(topic) = &picked {
            self.selected_cmd = topic.command.clone();
        }
        picked
    }

    /// Applies one input event.
    pub fn handle_events(&mut self, event: InputEvent)
        ensures
            final(self)@ == old(self)@.step(event),
            old(self)@.wf() ==> final(self)@.wf(),
    {
        if self.exit {
            return ;
        }
        match topic_request(event) {
            Request::Quit => {
                self.event = MenuEvent::Nothing;
                self.exit = true;
            },
            Request::Execute => {
                let picked = self.handle_selected();
                self.event = MenuEvent::Execute(picked);
                self.exit = true;
            },
            Request::Up => self.select_previous(),
            Request::Down => self.select_next(),
            Request::Display => {
                let picked = self.handle_selected();
                self.event = MenuEvent::Display(picked);
                self.exit = true;
            },
            Request::Ignore => {},
        }
    }

    /// Applies the events in order until the session has ended or the events
    /// have run out, and says how many were taken.
    pub fn menu_loop(&mut self, events: &[InputEvent]) -> (taken: usize)
        ensures
            final(self)@ == old(self)@.run(events@),
            taken == old(self)@.consumed(events@),
            old(self)@.wf() ==> final(self)@.wf(),
    {
        let mut taken: usize = 0;
        proof {
            assert(events@.skip(0) =~= events@);
        }
        while !self.exit && taken < events.len()
            invariant
                taken <= events.len(),
                self.exit == self@.exited,
                self@.run(events@.skip(taken as int)) == old(self)@.run(events@),
                taken + self@.consumed(events@.skip(taken as int)) == old(self)@.consumed(events@),
                old(self)@.wf() ==> self@.wf(),
            decreases events.len() - taken,
        {
            proof {
                assert(events@.skip(taken as int)[0] == events@[taken as int]);
                assert(events@.skip(taken as int).drop_first() =~= events@.skip(taken + 1));
            }
            self.handle_events(events[taken]);
            taken += 1;
        }
        taken
    }

    /// The line below the list: the command of the selected topic behind a
    /// prompt sign, or two dashes while nothing is selected.
    pub fn footer_selected_topic(&self) -> (r: String)
        ensures
            r@ == footer_of(self@.list.selected()),
    {
        match self.library_list.selected() {
            Some(topic) => String::from_str("$ ").concat(topic.command.as_str()),
            None => String::from_str("--"),
        }
    }
}

/// The text of the line below the list of topics.
pub open spec fn footer_of(selected: Option<Topic>) -> Seq<char> {
    match selected {
        Some(topic) => "$ "@ + topic.command@,
        None => "--"@,
    }
}

/// The state of the link browser.
pub ghost struct UrlView {
    pub list: Selection<Link>,
    pub exited: bool,
    pub selected_url: Seq<char>,
    pub longest_item_lens: (int, int),
}

impl UrlView {
    /// The cursor is valid, and while the session runs no URL is captured.
    pub open spec fn wf(self) -> bool {
        &&& self.list.wf()
        &&& !self.exited ==> self.selected_url.len() == 0
    }

    /// The URL that is captured when the session ends with a choice.
    pub open spec fn captured_url(self) -> Seq<char> {
        match self.list.selected() {
            Some(link) => link.url@,
            None => self.selected_url,
        }
    }

    /// The state after one event. A session that has ended stays as it is.
    pub open spec fn step(self, event: InputEvent) -> UrlView {
        if self.exited {
            self
        } else {
            match link_request_of(event) {
                Request::Quit => UrlView { exited: true, ..self },
                Request::Up => UrlView { list: self.list.previous(), ..self },
                Request::Down => UrlView { list: self.list.next(), ..self },
                Request::Display => UrlView {
                    exited: true,
                    selected_url: self.captured_url(),
                    ..self
                },
                _ => self,
            }
        }
    }

    /// The state after the events are taken in order, up to the one that
    /// ends the session.
    pub open spec fn run(self, events: Seq<InputEvent>) -> UrlView
        decreases events.len(),
    {
        if self.exited || events.len() == 0 {
            self
        } else {
            self.step(events[0]).run(events.drop_first())
        }
    }

    /// How many of the events are taken before the session has ended or the
    /// events have run out.
    pub open spec fn consumed(self, events: Seq<InputEvent>) -> nat
        decreases events.len(),
    {
        if self.exited || events.len() == 0 {
            0
        } else {
            1 + self.step(events[0]).consumed(events.drop_first())
        }
    }
}

/// The browser over the links of the notebook.
pub struct TerminalUrlUI {
    exit: bool,
    library_list: SelectableList<Link>,
    longest_item_lens: (u16, u16),
    selected_url: String,
}

impl View for TerminalUrlUI {
    type V = UrlView;

    closed spec fn view(&self) -> UrlView {
        UrlView {
            list: self.library_list@,
            exited: self.exit,
            selected_url: self.selected_url@,
            longest_item_lens: (
                self.longest_item_lens.0 as int,
                self.longest_item_lens.1 as int,
            ),
        }
    }
}

impl TerminalUrlUI {
    /// A browser over `links`: running, nothing selected, no URL captured.
    pub fn new(links: Vec<Link>) -> (r: TerminalUrlUI)
        ensures
            r@.list.items == links@,
            r@.list.cursor is None,
            r@.list.item_height == 1,
            !r@.exited,
            r@.selected_url.len() == 0,
            r@.longest_item_lens == link_len_constraint(links@),
            r@.wf(),
    {
        let longest_item_lens = calc_link_len_constraint(links.as_slice());
        TerminalUrlUI {
            exit: false,
            library_list: SelectableList::new(links),
            longest_item_lens,
            selected_url: String::new(),
        }
    }

    /// The list with its cursor.
    pub fn list(&self) -> (r: &SelectableList<Link>)
        ensures
            r@ == self@.list,
    {
        &self.library_list
    }

    /// The widths of the title and URL columns.
    pub fn longest_item_lens(&self) -> (r: (u16, u16))
        ensures
            (r.0 as int, r.1 as int) == self@.longest_item_lens,
    {
        self.longest_item_lens
    }

    /// Whether the session has ended.
    pub fn exited(&self) -> (r: bool)
        ensures
            r == self@.exited,
    {
        self.exit
    }

    /// The URL that was captured when the session ended with a choice; empty
    /// where there is none.
    pub fn selected_url(&self) -> (r: &String)
        ensures
            r@ == self@.selected_url,
    {
        &self.selected_url
    }

    /// Moves the cursor one link down, wrapping at the end.
    pub fn select_next(&mut self)
        ensures
            final(self)@ == (UrlView { list: old(self)@.list.next(), ..old(self)@ }),
            final(self)@.list.wf(),
    {
        self.library_list.select_next();
    }

    /// Moves the cursor one link up, wrapping at the start.
    pub fn select_previous(&mut self)
        ensures
            final(self)@ == (UrlView { list: old(self)@.list.previous(), ..old(self)@ }),
            final(self)@.list.wf(),
    {
        self.library_list.select_previous();
    }

    /// Captures the URL of the selected link. Without a selection nothing
    /// changes.
    pub fn handle_selected(&mut self)
        ensures
            final(self)@ == (UrlView { selected_url: old(self)@.captured_url(), ..old(self)@ }),
    {
        let picked = match self.library_list.selected() {
            Some(link) => Some(link.url.clone()),
            None => None,
        };
        if let Some(url) = picked {
            self.selected_url = url;
        }
    }

    /// Applies one input event.
    pub fn handle_events(&mut self, event: InputEvent)
        ensures
            final(self)@ == old(self)@.step(event),
            old(self)@.wf() ==> final(self)@.wf(),
    {
        if self.exit {
            return ;
        }
        match link_request(event) {
            Request::Quit => {
                self.exit = true;
            },
            Request::Up => self.select_previous(),
            Request::Down => self.select_next(),
            Request::Display => {
                self.handle_selected();
                self.exit = true;
            },
            _ => {},
        }
    }

    /// Applies the events in order until the session has ended or the events
    /// have run out, and says how many were taken.
    pub fn menu_loop(&mut self, events: &[InputEvent]) -> (taken: usize)
        ensures
            final(self)@ == old(self)@.run(events@),
            taken == old(self)@.consumed(events@),
            old(self)@.wf() ==> final(self)@.wf(),
    {
        let mut taken: usize = 0;
        proof {
            assert(events@.skip(0) =~= events@);
        }
        while !self.exit && taken < events.len()
            invariant
                taken <= events.len(),
                self.exit == self@.exited,
                self@.run(events@.skip(taken as int)) == old(self)@.run(events@),
                taken + self@.consumed(events@.skip(taken as int)) == old(self)@.consumed(events@),
                old(self)@.wf() ==> self@.wf(),
            decreases events.len() - taken,
        {
            proof {
                assert(events@.skip(taken as int)[0] == events@[taken as int]);
                assert(events@.skip(taken as int).drop_first() =~= events@.skip(taken + 1));
            }
            self.handle_events(events[taken]);
            taken += 1;
        }
        taken
    }
}

} // verus!
