//! The application state: the last battery snapshot, the active profile, the
//! cursor in the profile list and a transient message, with the operations
//! that the event loop drives.
//!
//! The state does no I/O. Where an operation needs the outside world, the
//! caller does that part and hands the result in.

use crate::battery::{
    battery_info_of, opt_battery, read_battery_info, BatteryInfo, BatteryReadings, BatteryView,
    ReadingsView,
};
use crate::governor::{
    command_result, current_profile_of, failure_of, read_current_governor, CommandOutcome,
};
use crate::profile::{lemma_governor_round_trip, Profile, PROFILE_COUNT};
use crate::text::{opt_text, trimmed};
use crate::widget::list_selected;
use ratatui::widgets::ListState;
use vstd::prelude::*;

verus! {

/// How long one tick of the event loop waits for input, in milliseconds.
pub const POLL_TIMEOUT_MS: u64 = 250;

/// A key of the keyboard, as far as the application tells keys apart.
#[derive(Clone, Copy, Debug, PartialEq, Eq, Structural)]
pub enum Key {
    Char(char),
    Esc,
    Enter,
    Up,
    Down,
    Other,
}

/// What happened to a key.
#[derive(Clone, Copy, Debug, PartialEq, Eq, Structural)]
pub enum KeyKind {
    Press,
    Repeat,
    Release,
}

/// What a key asks of the application.
#[derive(Clone, Copy, Debug, PartialEq, Eq, Structural)]
pub enum Command {
    Quit,
    MoveDown,
    MoveUp,
    Select,
    Refresh,
    Ignore,
}

/// What the event loop has to do after a key was handled.
#[derive(Clone, Copy, Debug, PartialEq, Eq, Structural)]
pub enum Action {
    /// Nothing: go on with the next tick.
    Continue,
    /// Leave the loop.
    Quit,
    /// Run the privileged command for this profile's governor and hand its
    /// outcome to `App::select_profile`.
    Apply(Profile),
    /// Read telemetry and governor anew and hand them to `App::refresh`.
    Reload,
}

/// The command bound to a key event. Only presses count; `q` and Esc quit,
/// `j` and Down move down, `k` and Up move up, Enter and Space select, `r`
/// refreshes.
pub open spec fn key_command(key: Key, kind: KeyKind) -> Command {
    if kind != KeyKind::Press {
        Command::Ignore
    } else {
        match key {
            Key::Char(c) => if c == 'q' {
                Command::Quit
            } else if c == 'j' {
                Command::MoveDown
            } else if c == 'k' {
                Command::MoveUp
            } else if c == ' ' {
                Command::Select
            } else if c == 'r' {
                Command::Refresh
            } else {
                Command::Ignore
            },
            Key::Esc => Command::Quit,
            Key::Down => Command::MoveDown,
            Key::Up => Command::MoveUp,
            Key::Enter => Command::Select,
            Key::Other => Command::Ignore,
        }
    }
}

/// The command bound to a key event.
pub fn command_for_key(key: Key, kind: KeyKind) -> (command: Command)
    ensures
        command == key_command(key, kind),
{
    match kind {
        KeyKind::Press => match key {
            Key::Char('q') | Key::Esc => Command::Quit,
            Key::Char('j') | Key::Down => Command::MoveDown,
            Key::Char('k') | Key::Up => Command::MoveUp,
            Key::Enter | Key::Char(' ') => Command::Select,
            Key::Char('r') => Command::Refresh,
            _ => Command::Ignore,
        },
        _ => Command::Ignore,
    }
}

/// A row of the profile list. Holding the bound in the type lets every
/// operation of `App` do without a precondition.
struct Cursor {
    row: usize,
}

impl Cursor {
    #[verifier::type_invariant]
    spec fn in_list(&self) -> bool {
        self.row < PROFILE_COUNT
    }

    /// The cursor on `row`.
    fn at(row: usize) -> (cursor: Cursor)
        requires
            row < PROFILE_COUNT,
        ensures
            cursor.row == row,
    {
        Cursor { row }
    }

    /// The row that the cursor is on.
    fn row(&self) -> (row: usize)
        ensures
            row == self.row,
            row < PROFILE_COUNT,
    {
        proof {
            use_type_invariant(self);
        }
        self.row
    }
}

/// The state of the application.
pub struct App {
    battery: Option<BatteryInfo>,
    current_profile: Option<Profile>,
    selected: Cursor,
    list_state: ListState,
    message: Option<String>,
}

/// What an `App` holds.
pub struct AppView {
    pub battery: Option<BatteryView>,
    pub current_profile: Option<Profile>,
    /// The cursor: a row of the profile list.
    pub selected: int,
    /// The row that the list state marks for drawing.
    pub highlighted: Option<int>,
    pub message: Option<Seq<char>>,
}

impl AppView {
    /// What holds of every state: the cursor is a row of the profile list,
    /// and the list state marks that row.
    pub open spec fn valid(self) -> bool {
        &&& 0 <= self.selected < PROFILE_COUNT
        &&& self.highlighted == Some(self.selected)
    }

    /// The state before the first refresh: nothing known, cursor on the
    /// first row, no message.
    pub open spec fn initial() -> AppView {
        AppView {
            battery: None,
            current_profile: None,
            selected: 0,
            highlighted: Some(0),
            message: None,
        }
    }

    /// This state with the cursor on `row`.
    pub open spec fn with_cursor(self, row: int) -> AppView {
        AppView { selected: row, highlighted: Some(row), ..self }
    }
}

/// The state after a refresh that found `readings` and `governor`: snapshot
/// and active profile are derived anew, the cursor goes to the active
/// profile where one is known, the message stays.
pub open spec fn refreshed(
    before: AppView,
    readings: Option<ReadingsView>,
    governor: Option<Seq<char>>,
) -> AppView {
    let current = current_profile_of(governor);
    let renewed = AppView {
        battery: match readings {
            Some(r) => battery_info_of(r),
            None => None,
        },
        current_profile: current,
        ..before
    };
    match current {
        Some(p) => renewed.with_cursor(p.position()),
        None => renewed,
    }
}

/// The state after the cursor went one row up, if there is one.
pub open spec fn moved_up(before: AppView) -> AppView {
    if before.selected > 0 {
        before.with_cursor(before.selected - 1)
    } else {
        before
    }
}

/// The state after the cursor went one row down, if there is one.
pub open spec fn moved_down(before: AppView) -> AppView {
    if before.selected < PROFILE_COUNT - 1 {
        before.with_cursor(before.selected + 1)
    } else {
        before
    }
}

/// The state after the command for the profile at the cursor ended with
/// `failure`: on success that profile is the active one and the message
/// names it, on failure the active profile stays and the message holds the
/// error.
pub open spec fn selection_applied(before: AppView, failure: Option<Seq<char>>) -> AppView {
    let profile = Profile::at(before.selected);
    match failure {
        None => AppView {
            current_profile: Some(profile),
            message: Some("Switched to "@ + profile.name_text()),
            ..before
        },
        Some(text) => AppView { message: Some("Error: "@ + text), ..before },
    }
}

/// The state after a command: only cursor moves change it.
pub open spec fn commanded(before: AppView, command: Command) -> AppView {
    match command {
        Command::MoveDown => moved_down(before),
        Command::MoveUp => moved_up(before),
        _ => before,
    }
}

/// What the event loop is asked to do after a command.
pub open spec fn action_of(before: AppView, command: Command) -> Action {
    match command {
        Command::Quit => Action::Quit,
        Command::Select => Action::Apply(Profile::at(before.selected)),
        Command::Refresh => Action::Reload,
        _ => Action::Continue,
    }
}

/// Every operation keeps a valid state valid.
pub proof fn lemma_valid_preserved(
    v: AppView,
    readings: Option<ReadingsView>,
    governor: Option<Seq<char>>,
    failure: Option<Seq<char>>,
    command: Command,
)
    requires
        v.valid(),
    ensures
        AppView::initial().valid(),
        refreshed(v, readings, governor).valid(),
        moved_up(v).valid(),
        moved_down(v).valid(),
        selection_applied(v, failure).valid(),
        commanded(v, command).valid(),
{
}

/// The cursor stops at both ends of the list and moves by exactly one row
/// everywhere else; nothing but the cursor changes.
pub proof fn lemma_cursor_navigation(v: AppView)
    requires
        v.valid(),
    ensures
        v.selected == 0 ==> moved_up(v) == v,
        v.selected == PROFILE_COUNT - 1 ==> moved_down(v) == v,
        v.selected > 0 ==> moved_up(v) == v.with_cursor(v.selected - 1),
        v.selected < PROFILE_COUNT - 1 ==> moved_down(v) == v.with_cursor(v.selected + 1),
{
}

/// A refresh that finds the governor of profile `p` active, with or without
/// whitespace around the identifier, makes `p` the active profile and puts
/// the cursor on it, wherever the cursor was.
pub proof fn lemma_refresh_moves_cursor(
    before: AppView,
    readings: Option<ReadingsView>,
    governor: Seq<char>,
    p: Profile,
)
    requires
        trimmed(governor) == p.governor_text(),
    ensures
        refreshed(before, readings, Some(governor)).current_profile == Some(p),
        refreshed(before, readings, Some(governor)).selected == p.position(),
        refreshed(before, readings, Some(governor)).highlighted == Some(p.position()),
{
    lemma_governor_round_trip(p);
}

/// A refresh derives snapshot and active profile anew: they are the same
/// whatever state the refresh starts from. It leaves the message alone, and
/// where it finds no known governor it leaves the cursor alone too.
pub proof fn lemma_refresh_renews(
    before: AppView,
    other: AppView,
    readings: Option<ReadingsView>,
    governor: Option<Seq<char>>,
)
    ensures
        refreshed(before, readings, governor).battery == refreshed(
            other,
            readings,
            governor,
        ).battery,
        refreshed(before, readings, governor).current_profile == refreshed(
            other,
            readings,
            governor,
        ).current_profile,
        refreshed(before, readings, governor).message == before.message,
        current_profile_of(governor) is None ==> {
            &&& refreshed(before, readings, governor).selected == before.selected
            &&& refreshed(before, readings, governor).highlighted == before.highlighted
        },
{
}

/// A failed command leaves the active profile as it was and leaves an error
/// message that is not empty. A successful one makes the profile at the
/// cursor the active one and leaves a message that ends with its name.
/// Neither moves the cursor or touches the snapshot, and the new message
/// owes nothing to the one before.
pub proof fn lemma_selection_outcome(before: AppView, failure: Option<Seq<char>>)
    ensures
        selection_applied(before, failure).selected == before.selected,
        selection_applied(before, failure).highlighted == before.highlighted,
        selection_applied(before, failure).battery == before.battery,
        selection_applied(before, failure).message matches Some(m) && m.len() > 0,
        selection_applied(before, failure).message == selection_applied(
            AppView { message: None, ..before },
            failure,
        ).message,
        failure is Some ==> selection_applied(before, failure).current_profile
            == before.current_profile,
        failure is None ==> {
            let after = selection_applied(before, failure);
            let name = Profile::at(before.selected).name_text();
            &&& after.current_profile == Some(Profile::at(before.selected))
            &&& after.message matches Some(m) && m.len() >= name.len() && m.subrange(
                m.len() - name.len(),
                m.len() as int,
            ) == name
        },
{
    reveal_strlit("Error: ");
    reveal_strlit("Switched to ");
}

impl View for App {
    type V = AppView;

    closed spec fn view(&self) -> AppView {
        AppView {
            battery: opt_battery(self.battery),
            current_profile: self.current_profile,
            selected: self.selected.row as int,
            highlighted: match list_selected(self.list_state) {
                Some(row) => Some(row as int),
                None => None,
            },
            message: opt_text(self.message),
        }
    }
}

impl App {
    /// The initial state: cursor on the first profile and no message, then
    /// one refresh.
    pub fn new(readings: Option<&BatteryReadings>, governor: Option<&str>) -> (app: App)
        ensures
            app@.valid(),
            app@ == refreshed(
                AppView::initial(),
                match readings {
                    Some(r) => Some(r@),
                    None => None,
                },
                match governor {
                    Some(g) => Some(g@),
                    None => None,
                },
            ),
            governor matches Some(g) ==> Profile::found_by_governor(g@, app@.current_profile),
    {
        let mut list_state = ListState::default();
        list_state.select(Some(0));
        let mut app = App {
            battery: None,
            current_profile: None,
            selected: Cursor::at(0),
            list_state,
            message: None,
        };
        app.refresh(readings, governor);
        app
    }

    /// Takes in what was read from the system: `readings` of the battery
    /// (`None` where there is no battery) and the text of the active
    /// governor (`None` where it could not be read).
    pub fn refresh(&mut self, readings: Option<&BatteryReadings>, governor: Option<&str>)
        ensures
            final(self)@ == refreshed(
                old(self)@,
                match readings {
                    Some(r) => Some(r@),
                    None => None,
                },
                match governor {
                    Some(g) => Some(g@),
                    None => None,
                },
            ),
            old(self)@.valid() ==> final(self)@.valid(),
            governor matches Some(g) ==> Profile::found_by_governor(
                g@,
                final(self)@.current_profile,
            ),
    {
        self.battery = match readings {
            Some(r) => read_battery_info(r),
            None => None,
        };
        self.current_profile = read_current_governor(governor);
        if let Some(current) = self.current_profile {
            let row = current.index();
            self.selected = Cursor::at(row);
            self.list_state.select(Some(row));
        }
    }

    /// Moves the cursor one row up; on the first row nothing changes.
    pub fn move_up(&mut self)
        ensures
            final(self)@ == moved_up(old(self)@),
            old(self)@.valid() ==> final(self)@.valid(),
    {
        let row = self.selected.row();
        if row > 0 {
            self.selected = Cursor::at(row - 1);
            self.list_state.select(Some(row - 1));
        }
    }

    /// Moves the cursor one row down; on the last row nothing changes.
    pub fn move_down(&mut self)
        ensures
            final(self)@ == moved_down(old(self)@),
            old(self)@.valid() ==> final(self)@.valid(),
    {
        let row = self.selected.row();
        if row < Profile::all().len() - 1 {
            self.selected = Cursor::at(row + 1);
            self.list_state.select(Some(row + 1));
        }
    }

    /// The profile at the cursor.
    pub fn selected_profile(&self) -> (profile: Profile)
        ensures
            profile == Profile::at(self@.selected),
    {
        Profile::all()[self.selected.row()]
    }

    /// Takes in how the privileged command for the profile at the cursor
    /// ended.
    pub fn select_profile(&mut self, outcome: CommandOutcome)
        ensures
            final(self)@ == selection_applied(old(self)@, failure_of(outcome)),
            old(self)@.valid() ==> final(self)@.valid(),
    {
        let profile = self.selected_profile();
        match command_result(outcome) {
            Ok(()) => {
                self.current_profile = Some(profile);
                self.message = Some("Switched to ".to_owned().concat(profile.name()));
            },
            Err(e) => {
                self.message = Some("Error: ".to_owned().concat(e.as_str()));
            },
        }
    }

    /// Handles one key event and says what the event loop has to do next.
    pub fn handle_key(&mut self, key: Key, kind: KeyKind) -> (action: Action)
        ensures
            final(self)@ == commanded(old(self)@, key_command(key, kind)),
            old(self)@.valid() ==> final(self)@.valid(),
            action == action_of(old(self)@, key_command(key, kind)),
    {
        match command_for_key(key, kind) {
            Command::Quit => Action::Quit,
            Command::MoveDown => {
                self.move_down();
                Action::Continue
            },
            Command::MoveUp => {
                self.move_up();
                Action::Continue
            },
            Command::Select => Action::Apply(self.selected_profile()),
            Command::Refresh => Action::Reload,
            Command::Ignore => Action::Continue,
        }
    }

    /// The last battery snapshot; `None` where there is no battery.
    pub fn battery(&self) -> (b: Option<&BatteryInfo>)
        ensures
            self@.battery == match b {
                Some(info) => Some(info@),
                None => None,
            },
    {
        self.battery.as_ref()
    }

    /// The active profile, where it is known.
    pub fn current_profile(&self) -> (p: Option<Profile>)
        ensures
            p == self@.current_profile,
    {
        self.current_profile
    }

    /// The cursor: a row of the profile list.
    pub fn selected(&self) -> (i: usize)
        ensures
            i == self@.selected,
            i < PROFILE_COUNT,
    {
        self.selected.row()
    }

    /// The list state for drawing the profile list. In a valid state its
    /// selected row is the cursor.
    pub fn list_state(&self) -> (state: &ListState)
        ensures
            self@.highlighted == match list_selected(*state) {
                Some(row) => Some(row as int),
                None => None,
            },
    {
        &self.list_state
    }

    /// The message to show, if any.
    pub fn message(&self) -> (m: Option<&str>)
        ensures
            self@.message == match m {
                Some(s) => Some(s@),
                None => None,
            },
    {
        match &self.message {
            Some(s) => Some(s.as_str()),
            None => None,
        }
    }
}

} // verus!
