use vstd::prelude::*;
use vstd::string::StringExecFns;
use crate::selection::{next_cursor, previous_cursor, Listener};

verus! {

/// The position of the host list in the focus cycle.
pub const SERVER_INDEX: usize = 0;

/// The position of the task list in the focus cycle.
pub const TASK_INDEX: usize = 1;

/// What the operator did at the terminal.
#[derive(Clone, Copy, Debug, PartialEq, Eq, Structural)]
pub enum InputEvent {
    /// Move the focus to the other list.
    FocusNext,
    /// Highlight the previous item of the focused list.
    MoveUp,
    /// Highlight the next item of the focused list.
    MoveDown,
    /// Choose the highlighted item of the focused list.
    Confirm,
    /// Run the chosen jobs on the chosen hosts.
    BeginDispatch,
    /// Anything else; ignored.
    Other,
}

/// The decimal digit `d`.
pub open spec fn digit_char(d: nat) -> char {
    if d == 0 {
        '0'
    } else if d == 1 {
        '1'
    } else if d == 2 {
        '2'
    } else if d == 3 {
        '3'
    } else if d == 4 {
        '4'
    } else if d == 5 {
        '5'
    } else if d == 6 {
        '6'
    } else if d == 7 {
        '7'
    } else if d == 8 {
        '8'
    } else {
        '9'
    }
}

/// `n` written in decimal, without leading zeros.
pub open spec fn decimal_text(n: nat) -> Seq<char>
    decreases n,
{
    if n < 10 {
        seq![digit_char(n)]
    } else {
        decimal_text(n / 10) + seq![digit_char(n % 10)]
    }
}

fn digit_str(d: usize) -> (r: &'static str)
    requires
        d < 10,
    ensures
        r@ == seq![digit_char(d as nat)],
{
    proof {
        reveal_strlit("0");
        reveal_strlit("1");
        reveal_strlit("2");
        reveal_strlit("3");
        reveal_strlit("4");
        reveal_strlit("5");
        reveal_strlit("6");
        reveal_strlit("7");
        reveal_strlit("8");
        reveal_strlit("9");
    }
    if d == 0 {
        "0"
    } else if d == 1 {
        "1"
    } else if d == 2 {
        "2"
    } else if d == 3 {
        "3"
    } else if d == 4 {
        "4"
    } else if d == 5 {
        "5"
    } else if d == 6 {
        "6"
    } else if d == 7 {
        "7"
    } else if d == 8 {
        "8"
    } else {
        "9"
    }
}

/// `n` written in decimal.
pub fn decimal(n: usize) -> (r: String)
    ensures
        r@ == decimal_text(n as nat),
    decreases n,
{
    if n < 10 {
        String::from_str(digit_str(n))
    } else {
        decimal(n / 10).concat(digit_str(n % 10))
    }
}

/// The line written when a host is chosen.
pub open spec fn server_chosen_line(item: Seq<char>) -> Seq<char> {
    "Selected server: "@ + item
}

/// The line written when a job is chosen.
pub open spec fn job_chosen_line(item: Seq<char>) -> Seq<char> {
    "Selected job: "@ + item
}

/// The line written when nothing is highlighted to choose.
pub open spec fn nothing_highlighted_line() -> Seq<char> {
    "Nothing is highlighted"@
}

/// The line written when a dispatch is asked for with no host chosen.
pub open spec fn no_server_line() -> Seq<char> {
    "Please select at least one server!"@
}

/// The line written when a dispatch is asked for with no job chosen.
pub open spec fn no_job_line() -> Seq<char> {
    "Please select at least one job!"@
}

/// The line written when the dispatch starts.
pub open spec fn dispatch_line(jobs: nat, servers: nat) -> Seq<char> {
    "Executing "@ + decimal_text(jobs) + " jobs on "@ + decimal_text(servers) + " servers!"@
}

/// What the terminal front end knows: the host and task lists with their
/// highlights, which list has the focus, what has been chosen so far, the
/// text of the output panel, and whether it is still taking input.
pub struct ConsoleState {
    active_listener_index: usize,
    server_listener: Listener<String>,
    task_listener: Listener<String>,
    selected_servers: Vec<String>,
    selected_jobs: Vec<String>,
    console_text: String,
    render: bool,
}

impl ConsoleState {
    pub closed spec fn active_index(&self) -> usize {
        self.active_listener_index
    }

    pub closed spec fn servers(&self) -> Listener<String> {
        self.server_listener
    }

    pub closed spec fn tasks(&self) -> Listener<String> {
        self.task_listener
    }

    pub closed spec fn chosen_servers(&self) -> Seq<String> {
        self.selected_servers@
    }

    pub closed spec fn chosen_jobs(&self) -> Seq<String> {
        self.selected_jobs@
    }

    pub closed spec fn text(&self) -> Seq<char> {
        self.console_text@
    }

    pub closed spec fn rendering(&self) -> bool {
        self.render
    }

    /// The list that has the focus.
    pub open spec fn focused(&self) -> Listener<String> {
        if self.active_index() == SERVER_INDEX {
            self.servers()
        } else {
            self.tasks()
        }
    }

    /// `n` is `o` with only the text of the output panel changed, to `text`.
    pub open spec fn same_but_text(o: &ConsoleState, n: &ConsoleState, text: Seq<char>) -> bool {
        &&& n.active_index() == o.active_index()
        &&& n.servers() == o.servers()
        &&& n.tasks() == o.tasks()
        &&& n.chosen_servers() == o.chosen_servers()
        &&& n.chosen_jobs() == o.chosen_jobs()
        &&& n.text() == text
        &&& n.rendering() == o.rendering()
    }

    /// `n` is `o` with the focused list replaced by `l`.
    pub open spec fn focused_became(o: &ConsoleState, n: &ConsoleState, l: Listener<String>) -> bool {
        &&& n.active_index() == o.active_index()
        &&& if o.active_index() == SERVER_INDEX {
            n.servers() == l && n.tasks() == o.tasks()
        } else {
            n.tasks() == l && n.servers() == o.servers()
        }
        &&& n.chosen_servers() == o.chosen_servers()
        &&& n.chosen_jobs() == o.chosen_jobs()
        &&& n.text() == o.text()
        &&& n.rendering() == o.rendering()
    }

    /// `l` is `o` with its highlight moved to `cursor`.
    pub open spec fn moved(o: Listener<String>, l: Listener<String>, cursor: Option<nat>) -> bool {
        l.items_view() == o.items_view() && l.cursor_view() == cursor
    }

    /// What a change of focus does: the highlight of the list that loses the
    /// focus is cleared, and the other list gets the focus.
    pub open spec fn focus_next_done(o: &ConsoleState, n: &ConsoleState) -> bool {
        &&& n.active_index() == if o.active_index() == SERVER_INDEX {
            TASK_INDEX
        } else {
            SERVER_INDEX
        }
        &&& if o.active_index() == SERVER_INDEX {
            Self::moved(o.servers(), n.servers(), None) && n.tasks() == o.tasks()
        } else {
            Self::moved(o.tasks(), n.tasks(), None) && n.servers() == o.servers()
        }
        &&& n.chosen_servers() == o.chosen_servers()
        &&& n.chosen_jobs() == o.chosen_jobs()
        &&& n.text() == o.text()
        &&& n.rendering() == o.rendering()
    }

    /// What a choice does: the highlighted item of the focused list is added
    /// to the hosts or the jobs chosen, and a line says so; with nothing
    /// highlighted, a line says that instead.
    pub open spec fn confirm_done(o: &ConsoleState, n: &ConsoleState) -> bool {
        match o.focused().cursor_view() {
            Some(i) => {
                let item = o.focused().items_view()[i as int];
                &&& n.active_index() == o.active_index()
                &&& n.servers() == o.servers()
                &&& n.tasks() == o.tasks()
                &&& n.rendering() == o.rendering()
                &&& if o.active_index() == SERVER_INDEX {
                    &&& n.chosen_servers() == o.chosen_servers().push(item)
                    &&& n.chosen_jobs() == o.chosen_jobs()
                    &&& n.text() == o.text() + server_chosen_line(item@) + "\n"@
                } else {
                    &&& n.chosen_jobs() == o.chosen_jobs().push(item)
                    &&& n.chosen_servers() == o.chosen_servers()
                    &&& n.text() == o.text() + job_chosen_line(item@) + "\n"@
                }
            },
            None => Self::same_but_text(o, n, o.text() + nothing_highlighted_line() + "\n"@),
        }
    }

    /// What a request to dispatch does: with a host and a job chosen, input
    /// ends and a line announces the run; otherwise a line asks for what is
    /// missing.
    pub open spec fn begin_dispatch_done(o: &ConsoleState, n: &ConsoleState) -> bool {
        if o.chosen_servers().len() == 0 {
            Self::same_but_text(o, n, o.text() + no_server_line() + "\n"@)
        } else if o.chosen_jobs().len() == 0 {
            Self::same_but_text(o, n, o.text() + no_job_line() + "\n"@)
        } else {
            &&& n.active_index() == o.active_index()
            &&& n.servers() == o.servers()
            &&& n.tasks() == o.tasks()
            &&& n.chosen_servers() == o.chosen_servers()
            &&& n.chosen_jobs() == o.chosen_jobs()
            &&& n.text() == o.text() + dispatch_line(
                o.chosen_jobs().len(),
                o.chosen_servers().len(),
            ) + "\n"@
            &&& !n.rendering()
        }
    }

    /// A front end over `servers` and `tasks`, with the focus on the hosts,
    /// nothing highlighted or chosen, and an empty output panel.
    pub fn new(servers: Vec<String>, tasks: Vec<String>) -> (r: ConsoleState)
        requires
            servers.len() > 0,
            tasks.len() > 0,
        ensures
            r.active_index() == SERVER_INDEX,
            r.servers().items_view() == servers@,
            r.servers().cursor_view() == None::<nat>,
            r.tasks().items_view() == tasks@,
            r.tasks().cursor_view() == None::<nat>,
            r.chosen_servers().len() == 0,
            r.chosen_jobs().len() == 0,
            r.text().len() == 0,
            r.rendering(),
    {
        ConsoleState {
            active_listener_index: SERVER_INDEX,
            server_listener: Listener::new(servers),
            task_listener: Listener::new(tasks),
            selected_servers: Vec::new(),
            selected_jobs: Vec::new(),
            console_text: String::new(),
            render: true,
        }
    }

    /// Empties the output panel.
    pub fn clear(&mut self)
        ensures
            Self::same_but_text(old(self), final(self), Seq::empty()),
    {
        self.console_text = String::new();
    }

    /// Writes `text` as a line of the output panel.
    pub fn print(&mut self, text: &str)
        ensures
            Self::same_but_text(old(self), final(self), old(self).text() + text@ + "\n"@),
    {
        self.console_text.append(text);
        self.console_text.append("\n");
    }

    /// Moves the focus to the other list.
    pub fn focus_next(&mut self)
        ensures
            Self::focus_next_done(old(self), final(self)),
    {
        if self.active_listener_index == SERVER_INDEX {
            self.server_listener.unselect();
            self.active_listener_index = TASK_INDEX;
        } else {
            self.task_listener.unselect();
            self.active_listener_index = SERVER_INDEX;
        }
    }

    /// Highlights the previous item of the focused list.
    pub fn move_up(&mut self)
        ensures
            exists|l: Listener<String>|
                Self::focused_became(old(self), final(self), l) && #[trigger] Self::moved(
                    old(self).focused(),
                    l,
                    Some(
                        previous_cursor(
                            old(self).focused().cursor_view(),
                            old(self).focused().items_view().len(),
                        ),
                    ),
                ),
    {
        if self.active_listener_index == SERVER_INDEX {
            self.server_listener.previous();
            assert(Self::moved(old(self).focused(), self.server_listener, self.server_listener.cursor_view()));
        } else {
            self.task_listener.previous();
            assert(Self::moved(old(self).focused(), self.task_listener, self.task_listener.cursor_view()));
        }
    }

    /// Highlights the next item of the focused list.
    pub fn move_down(&mut self)
        ensures
            exists|l: Listener<String>|
                Self::focused_became(old(self), final(self), l) && #[trigger] Self::moved(
                    old(self).focused(),
                    l,
                    Some(
                        next_cursor(
                            old(self).focused().cursor_view(),
                            old(self).focused().items_view().len(),
                        ),
                    ),
                ),
    {
        if self.active_listener_index == SERVER_INDEX {
            self.server_listener.next();
            assert(Self::moved(old(self).focused(), self.server_listener, self.server_listener.cursor_view()));
        } else {
            self.task_listener.next();
            assert(Self::moved(old(self).focused(), self.task_listener, self.task_listener.cursor_view()));
        }
    }

    /// Chooses the highlighted item of the focused list.
    pub fn confirm(&mut self)
        ensures
            Self::confirm_done(old(self), final(self)),
    {
        let picked: Option<String> = if self.active_listener_index == SERVER_INDEX {
            match self.server_listener.get_selected() {
                Some(item) => Some(item.clone()),
                None => None,
            }
        } else {
            match self.task_listener.get_selected() {
                Some(item) => Some(item.clone()),
                None => None,
            }
        };
        match picked {
            Some(item) => {
                if self.active_listener_index == SERVER_INDEX {
                    let line = String::from_str("Selected server: ").concat(item.as_str());
                    self.print(line.as_str());
                    self.selected_servers.push(item);
                } else {
                    let line = String::from_str("Selected job: ").concat(item.as_str());
                    self.print(line.as_str());
                    self.selected_jobs.push(item);
                }
            },
            None => {
                self.print("Nothing is highlighted");
            },
        }
    }

    /// Starts the dispatch if a host and a job are chosen.
    pub fn begin_dispatch(&mut self)
        ensures
            Self::begin_dispatch_done(old(self), final(self)),
    {
        if self.selected_servers.len() == 0 {
            self.print("Please select at least one server!");
        } else if self.selected_jobs.len() == 0 {
            self.print("Please select at least one job!");
        } else {
            let line = String::from_str("Executing ").concat(
                decimal(self.selected_jobs.len()).as_str(),
            ).concat(" jobs on ").concat(decimal(self.selected_servers.len()).as_str()).concat(
                " servers!",
            );
            self.print(line.as_str());
            self.render = false;
        }
    }
    /// Applies one input event.
    pub fn handle(&mut self, event: InputEvent)
        ensures
            match event {
                InputEvent::FocusNext => Self::focus_next_done(old(self), final(self)),
                InputEvent::MoveUp => exists|l: Listener<String>|
                    Self::focused_became(old(self), final(self), l) && #[trigger] Self::moved(
                        old(self).focused(),
                        l,
                        Some(
                            previous_cursor(
                                old(self).focused().cursor_view(),
                                old(self).focused().items_view().len(),
                            ),
                        ),
                    ),
                InputEvent::MoveDown => exists|l: Listener<String>|
                    Self::focused_became(old(self), final(self), l) && #[trigger] Self::moved(
                        old(self).focused(),
                        l,
                        Some(
                            next_cursor(
                                old(self).focused().cursor_view(),
                                old(self).focused().items_view().len(),
                            ),
                        ),
                    ),
                InputEvent::Confirm => Self::confirm_done(old(self), final(self)),
                InputEvent::BeginDispatch => Self::begin_dispatch_done(old(self), final(self)),
                InputEvent::Other => *final(self) == *old(self),
            },
    {
        match event {
            InputEvent::FocusNext => self.focus_next(),
            InputEvent::MoveUp => self.move_up(),
            InputEvent::MoveDown => self.move_down(),
            InputEvent::Confirm => self.confirm(),
            InputEvent::BeginDispatch => self.begin_dispatch(),
            InputEvent::Other => {},
        }
    }

    /// Which list has the focus: `SERVER_INDEX` or `TASK_INDEX`.
    pub fn active_listener_index(&self) -> (r: usize)
        ensures
            r == self.active_index(),
    {
        self.active_listener_index
    }

    /// The host list.
    pub fn server_listener(&self) -> (r: &Listener<String>)
        ensures
            *r == self.servers(),
    {
        &self.server_listener
    }

    /// The task list.
    pub fn task_listener(&self) -> (r: &Listener<String>)
        ensures
            *r == self.tasks(),
    {
        &self.task_listener
    }

    /// The hosts chosen so far, in the order chosen.
    pub fn selected_servers(&self) -> (r: &Vec<String>)
        ensures
            r@ == self.chosen_servers(),
    {
        &self.selected_servers
    }

    /// The jobs chosen so far, in the order chosen.
    pub fn selected_jobs(&self) -> (r: &Vec<String>)
        ensures
            r@ == self.chosen_jobs(),
    {
        &self.selected_jobs
    }

    /// The text of the output panel.
    pub fn console_text(&self) -> (r: &str)
        ensures
            r@ == self.text(),
    {
        self.console_text.as_str()
    }

    /// Whether the front end still takes input.
    pub fn is_rendering(&self) -> (r: bool)
        ensures
            r == self.rendering(),
    {
        self.render
    }
}

} // verus!
