//! The state of the dashboard: one list per pane, the pane that has focus,
//! and whether the session is to end. Every input event is one transition
//! of this state, made in memory and run to its end before the next.

use crate::event::{spec_tick_due, Event};
use crate::list::ListView;
pub use crate::list::StatefulList;
use crate::record::{BranchRecord, CommitRecord};
use crate::repository::{
    branches, commits, hashes_are_short, reflog, DEFAULT_COMMIT_LIMIT, DEFAULT_REFLOG_LIMIT,
};
use crate::section::BranchKind;
pub use crate::section::Section;
use vstd::prelude::*;

verus! {

/// The mathematical content of an [`App`]: the repository that the session
/// is about, which no event changes, and what the user sees and steers.
pub struct AppView {
    pub repo: git2::Repository,
    pub status: ListView<String>,
    pub commits: ListView<CommitRecord>,
    pub branches: ListView<BranchRecord>,
    pub reflog: ListView<CommitRecord>,
    pub active_section: Section,
    pub should_quit: bool,
}

impl AppView {
    /// Every list is well formed.
    pub open spec fn wf(self) -> bool {
        &&& self.status.wf()
        &&& self.commits.wf()
        &&& self.branches.wf()
        &&& self.reflog.wf()
    }

    /// The cursor of the list that `section` shows.
    pub open spec fn cursor_of(self, section: Section) -> Option<nat> {
        match section {
            Section::Status => self.status.cursor,
            Section::Commits => self.commits.cursor,
            Section::Branches(_) => self.branches.cursor,
            Section::Reflog => self.reflog.cursor,
        }
    }

    /// The number of items of the list that `section` shows.
    pub open spec fn len_of(self, section: Section) -> nat {
        match section {
            Section::Status => self.status.items.len(),
            Section::Commits => self.commits.items.len(),
            Section::Branches(_) => self.branches.items.len(),
            Section::Reflog => self.reflog.items.len(),
        }
    }

    /// The state after a move down: the cursor of the active pane goes one
    /// step forward, and nothing else changes.
    pub open spec fn after_down(self) -> AppView {
        match self.active_section {
            Section::Status => AppView { status: self.status.forward(), ..self },
            Section::Commits => AppView { commits: self.commits.forward(), ..self },
            Section::Branches(_) => AppView { branches: self.branches.forward(), ..self },
            Section::Reflog => AppView { reflog: self.reflog.forward(), ..self },
        }
    }

    /// The state after a move up: the cursor of the active pane goes one
    /// step backward, and nothing else changes.
    pub open spec fn after_up(self) -> AppView {
        match self.active_section {
            Section::Status => AppView { status: self.status.backward(), ..self },
            Section::Commits => AppView { commits: self.commits.backward(), ..self },
            Section::Branches(_) => AppView { branches: self.branches.backward(), ..self },
            Section::Reflog => AppView { reflog: self.reflog.backward(), ..self },
        }
    }

    /// The state after a change of pane: focus moves to the next pane of
    /// the ring, and no list changes.
    pub open spec fn after_tab(self) -> AppView {
        AppView { active_section: self.active_section.spec_advance(), ..self }
    }

    /// The state after a request to quit.
    pub open spec fn after_quit(self) -> AppView {
        AppView { should_quit: true, ..self }
    }

    /// The state after a character key: `q` asks to quit, and every other
    /// character changes nothing.
    pub open spec fn after_key(self, c: char) -> AppView {
        if c == 'q' {
            self.after_quit()
        } else {
            self
        }
    }

    /// The state after one event. Left, right and the tick change nothing.
    pub open spec fn after(self, event: Event) -> AppView {
        match event {
            Event::Up => self.after_up(),
            Event::Down => self.after_down(),
            Event::Tab => self.after_tab(),
            Event::Char(c) => self.after_key(c),
            Event::Left => self,
            Event::Right => self,
            Event::Tick => self,
        }
    }

    /// The state after a run of events, the first of them first.
    pub open spec fn after_all(self, events: Seq<Event>) -> AppView
        decreases events.len(),
    {
        if events.len() == 0 {
            self
        } else {
            self.after_all(events.drop_last()).after(events.last())
        }
    }

    /// The state after one turn of the input loop: the key, where one was
    /// pressed, and then the tick, where it is due.
    pub open spec fn after_turn(self, input: Option<Event>, tick: bool) -> AppView {
        let keyed = match input {
            Some(event) => self.after(event),
            None => self,
        };
        if tick {
            keyed.after(Event::Tick)
        } else {
            keyed
        }
    }
}

/// The five entries that the status pane shows.
pub open spec fn status_entries(items: Seq<String>) -> bool {
    &&& items.len() == 5
    &&& items[0]@ == "Item1"@
    &&& items[1]@ == "Item2"@
    &&& items[2]@ == "Item3"@
    &&& items[3]@ == "Item4"@
    &&& items[4]@ == "Item5"@
}

/// What one turn of the input loop asks of the loop.
#[derive(Clone, Copy, Debug, PartialEq, Eq, Structural)]
pub struct Turn {
    /// A tick was delivered: the tick interval starts anew.
    pub ticked: bool,
    /// The session is over: the loop ends.
    pub quit: bool,
}

/// The state of the dashboard.
///
/// Exactly one pane has focus at any time. Once the session is asked to
/// end, no operation takes that back.
pub struct App {
    repo: git2::Repository,
    should_quit: bool,
    branches: StatefulList<BranchRecord>,
    status: StatefulList<String>,
    commits: StatefulList<CommitRecord>,
    reflog: StatefulList<CommitRecord>,
    active_section: Section,
}

impl View for App {
    type V = AppView;

    closed spec fn view(&self) -> AppView {
        AppView {
            repo: self.repo,
            status: self.status@,
            commits: self.commits@,
            branches: self.branches@,
            reflog: self.reflog@,
            active_section: self.active_section,
            should_quit: self.should_quit,
        }
    }
}

fn status_placeholder() -> (items: Vec<String>)
    ensures
        status_entries(items@),
{
    let mut items: Vec<String> = Vec::new();
    items.push("Item1".to_owned());
    items.push("Item2".to_owned());
    items.push("Item3".to_owned());
    items.push("Item4".to_owned());
    items.push("Item5".to_owned());
    items
}

impl App {
    /// The invariant of the type: every list is well formed.
    #[verifier::type_invariant]
    spec fn lists_are_wf(&self) -> bool {
        self@.wf()
    }

    /// The state at the start of a session over `repo`: the lists hold what
    /// the repository shows at this moment, no list has a cursor, the
    /// status pane has focus.
    ///
    /// The lists are those of [`App::with_lists`] for `commits(&repo,
    /// None)`, `branches(&repo, BranchKind::Local)` and `reflog(&repo,
    /// None)`.
    pub fn new(repo: git2::Repository) -> (app: App)
        ensures
            app@.repo == repo,
            app@.active_section == Section::Status,
            !app@.should_quit,
            app@.status.cursor is None,
            app@.commits.cursor is None,
            app@.branches.cursor is None,
            app@.reflog.cursor is None,
            status_entries(app@.status.items),
            app@.commits.items.len() <= DEFAULT_COMMIT_LIMIT,
            app@.reflog.items.len() <= DEFAULT_REFLOG_LIMIT,
            hashes_are_short(app@.commits.items),
            hashes_are_short(app@.reflog.items),
            app@.wf(),
    {
        let commits = commits(&repo, None);
        let branches = branches(&repo, BranchKind::Local);
        let reflog = reflog(&repo, None);
        App::with_lists(repo, commits, branches, reflog)
    }

    /// The state at the start of a session that shows the given lists: no
    /// list has a cursor, the status pane has focus.
    pub fn with_lists(
        repo: git2::Repository,
        commits: Vec<CommitRecord>,
        branches: Vec<BranchRecord>,
        reflog: Vec<CommitRecord>,
    ) -> (app: App)
        ensures
            app@.repo == repo,
            app@.active_section == Section::Status,
            !app@.should_quit,
            status_entries(app@.status.items),
            app@.status.cursor is None,
            app@.commits == (ListView { items: commits@, cursor: None }),
            app@.branches == (ListView { items: branches@, cursor: None }),
            app@.reflog == (ListView { items: reflog@, cursor: None }),
            app@.wf(),
    {
        App {
            repo,
            should_quit: false,
            branches: StatefulList::with_items(branches),
            status: StatefulList::with_items(status_placeholder()),
            commits: StatefulList::with_items(commits),
            active_section: Section::Status,
            reflog: StatefulList::with_items(reflog),
        }
    }

    /// The repository of this session: the one that the session was
    /// started with, whatever events it has gone through since.
    pub fn repo(&self) -> (repo: &git2::Repository)
        ensures
            *repo == self@.repo,
    {
        &self.repo
    }

    /// Whether the session is over.
    pub fn should_quit(&self) -> (quit: bool)
        ensures
            quit == self@.should_quit,
    {
        self.should_quit
    }

    /// The pane that has focus.
    pub fn active_section(&self) -> (section: Section)
        ensures
            section == self@.active_section,
    {
        self.active_section
    }

    /// The list of the status pane.
    pub fn status(&self) -> (list: &StatefulList<String>)
        ensures
            list@ == self@.status,
    {
        &self.status
    }

    /// The list of the commits pane.
    pub fn commits(&self) -> (list: &StatefulList<CommitRecord>)
        ensures
            list@ == self@.commits,
    {
        &self.commits
    }

    /// The list of the branches pane.
    pub fn branches(&self) -> (list: &StatefulList<BranchRecord>)
        ensures
            list@ == self@.branches,
    {
        &self.branches
    }

    /// The list of the reflog pane.
    pub fn reflog(&self) -> (list: &StatefulList<CommitRecord>)
        ensures
            list@ == self@.reflog,
    {
        &self.reflog
    }

    /// Moves the cursor of the active pane one item up. No other pane
    /// changes.
    pub fn on_up(&mut self)
        ensures
            final(self)@ == old(self)@.after_up(),
            final(self)@.wf(),
    {
        proof {
            use_type_invariant(&*self);
        }
        match self.active_section {
            Section::Status => self.status.previous(),
            Section::Commits => self.commits.previous(),
            Section::Branches(_) => self.branches.previous(),
            Section::Reflog => self.reflog.previous(),
        }
    }

    /// Moves the cursor of the active pane one item down. No other pane
    /// changes.
    pub fn on_down(&mut self)
        ensures
            final(self)@ == old(self)@.after_down(),
            final(self)@.wf(),
    {
        proof {
            use_type_invariant(&*self);
        }
        match self.active_section {
            Section::Status => self.status.next(),
            Section::Commits => self.commits.next(),
            Section::Branches(_) => self.branches.next(),
            Section::Reflog => self.reflog.next(),
        }
    }

    /// Reserved for a move into the active pane; changes nothing.
    pub fn on_right(&mut self)
        ensures
            final(self)@ == old(self)@,
    {
    }

    /// Reserved for a move out of the active pane; changes nothing.
    pub fn on_left(&mut self)
        ensures
            final(self)@ == old(self)@,
    {
    }

    /// Gives focus to the next pane of the ring. No list and no cursor
    /// changes, so that a pane is found as it was left.
    pub fn on_tab(&mut self)
        ensures
            final(self)@ == old(self)@.after_tab(),
    {
        proof {
            use_type_invariant(&*self);
        }
        self.active_section = self.active_section.advance();
    }

    /// Asks for the session to end. Asking again changes nothing.
    pub fn request_quit(&mut self)
        ensures
            final(self)@ == old(self)@.after_quit(),
            final(self)@.should_quit,
    {
        proof {
            use_type_invariant(&*self);
        }
        self.should_quit = true;
    }

    /// Handles a character key: `q` asks for the session to end, and every
    /// other character changes nothing.
    pub fn on_key(&mut self, c: char)
        ensures
            final(self)@ == old(self)@.after_key(c),
            c == 'q' ==> final(self)@.should_quit,
            old(self)@.should_quit ==> final(self)@.should_quit,
    {
        if c == 'q' {
            self.request_quit();
        }
    }

    /// Called once for each tick interval that has passed; changes
    /// nothing.
    pub fn on_tick(&mut self)
        ensures
            final(self)@ == old(self)@,
    {
    }

    /// Handles one event.
    pub fn handle(&mut self, event: Event)
        ensures
            final(self)@ == old(self)@.after(event),
            old(self)@.should_quit ==> final(self)@.should_quit,
            final(self)@.wf(),
    {
        match event {
            Event::Left => self.on_left(),
            Event::Up => self.on_up(),
            Event::Right => self.on_right(),
            Event::Down => self.on_down(),
            Event::Tab => self.on_tab(),
            Event::Char(c) => self.on_key(c),
            Event::Tick => self.on_tick(),
        }
        proof {
            use_type_invariant(&*self);
        }
    }

    /// One turn of the input loop: handles the key that the wait brought,
    /// if it brought one, then delivers the tick if `elapsed` milliseconds
    /// since the last tick make one due, and says what the loop is to do.
    pub fn turn(&mut self, input: Option<Event>, tick_rate: u64, elapsed: u64) -> (turn: Turn)
        ensures
            final(self)@ == old(self)@.after_turn(input, spec_tick_due(tick_rate, elapsed)),
            turn.ticked == spec_tick_due(tick_rate, elapsed),
            turn.quit == final(self)@.should_quit,
            old(self)@.should_quit ==> turn.quit,
    {
        match input {
            Some(event) => self.handle(event),
            None => {},
        }
        let ticked = elapsed >= tick_rate;
        if ticked {
            self.handle(Event::Tick);
        }
        Turn { ticked, quit: self.should_quit }
    }
}

/// Whether an event moves the cursor of the pane that has focus.
pub open spec fn moves_cursor(event: Event) -> bool {
    event == Event::Up || event == Event::Down
}

/// Four changes of pane lead once around the ring: they leave the state as
/// it was, focus and every cursor included, where the pane that has focus
/// is on the ring, as the status pane is.
pub proof fn lemma_four_tabs_close_ring(app: AppView)
    requires
        app.active_section.on_ring(),
    ensures
        app.after_tab().after_tab().after_tab().after_tab() == app,
        app.active_section == Section::Status ==> app.after_all(
            seq![Event::Tab, Event::Tab, Event::Tab, Event::Tab],
        ).active_section == Section::Status,
{
    let tabs = seq![Event::Tab, Event::Tab, Event::Tab, Event::Tab];
    lemma_tabs_move_focus_only(app, tabs);
    reveal_with_fuel(Section::spec_advance_n, 5);
}

/// A run of changes of pane, however long, moves focus as many steps along
/// the ring and changes nothing else.
pub proof fn lemma_tabs_move_focus_only(app: AppView, events: Seq<Event>)
    requires
        forall|k: int| 0 <= k < events.len() ==> events[k] == Event::Tab,
    ensures
        app.after_all(events) == (AppView {
            active_section: app.active_section.spec_advance_n(events.len()),
            ..app
        }),
    decreases events.len(),
{
    if events.len() > 0 {
        lemma_tabs_move_focus_only(app, events.drop_last());
    }
}

/// No event changes the items of a list, and no event makes a well-formed
/// state ill formed.
pub proof fn lemma_event_keeps_items(app: AppView, event: Event)
    ensures
        app.after(event).status.items == app.status.items,
        app.after(event).commits.items == app.commits.items,
        app.after(event).branches.items == app.branches.items,
        app.after(event).reflog.items == app.reflog.items,
        app.wf() ==> app.after(event).wf(),
{
    if app.wf() {
        crate::list::lemma_steps_keep_cursor_in_range(app.status.cursor, app.status.items.len());
        crate::list::lemma_steps_keep_cursor_in_range(app.commits.cursor, app.commits.items.len());
        crate::list::lemma_steps_keep_cursor_in_range(
            app.branches.cursor,
            app.branches.items.len(),
        );
        crate::list::lemma_steps_keep_cursor_in_range(app.reflog.cursor, app.reflog.items.len());
    }
}

/// An event changes the cursor of no pane but the one that has focus, and
/// of that one only where the event is a move up or down.
pub proof fn lemma_event_keeps_other_cursors(app: AppView, event: Event, section: Section)
    requires
        !(moves_cursor(event) && app.active_section.same_list(section)),
    ensures
        app.after(event).cursor_of(section) == app.cursor_of(section),
{
}

/// Leaving a pane and coming back finds its cursor where it was: whatever
/// run of events a session goes through, the cursor of a pane stays as it
/// is as long as no move up or down arrives while that pane has focus.
pub proof fn lemma_cursor_kept_while_away(app: AppView, events: Seq<Event>, section: Section)
    requires
        forall|k: int|
            0 <= k < events.len() && moves_cursor(#[trigger] events[k]) ==> !app.after_all(
                events.take(k),
            ).active_section.same_list(section),
    ensures
        app.after_all(events).cursor_of(section) == app.cursor_of(section),
    decreases events.len(),
{
    if events.len() > 0 {
        let earlier = events.drop_last();
        assert forall|k: int| 0 <= k < earlier.len() && moves_cursor(
            #[trigger] earlier[k],
        ) implies !app.after_all(earlier.take(k)).active_section.same_list(section) by {
            assert(earlier[k] == events[k]);
            assert(earlier.take(k) =~= events.take(k));
        }
        lemma_cursor_kept_while_away(app, earlier, section);
        let last = events.len() - 1;
        assert(events.take(last) =~= earlier);
        assert(events[last] == events.last());
        lemma_event_keeps_other_cursors(app.after_all(earlier), events.last(), section);
    }
}

/// A session stays with its repository: no run of events changes which
/// repository the state is about.
pub proof fn lemma_events_keep_repository(app: AppView, events: Seq<Event>)
    ensures
        app.after_all(events).repo == app.repo,
    decreases events.len(),
{
    if events.len() > 0 {
        lemma_events_keep_repository(app, events.drop_last());
    }
}

/// Once the session is asked to end, no run of events takes that back.
pub proof fn lemma_quit_is_permanent(app: AppView, events: Seq<Event>)
    requires
        app.should_quit,
    ensures
        app.after_all(events).should_quit,
    decreases events.len(),
{
    if events.len() > 0 {
        lemma_quit_is_permanent(app, events.drop_last());
    }
}

/// The key `q` asks for the session to end, whatever the state, and no run
/// of events after it takes that back.
pub proof fn lemma_quit_key_ends_session(app: AppView, events: Seq<Event>)
    ensures
        app.after(Event::Char('q')).should_quit,
        app.after(Event::Char('q')).after_all(events).should_quit,
{
    lemma_quit_is_permanent(app.after(Event::Char('q')), events);
}

} // verus!
