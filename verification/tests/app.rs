use git2::{Repository, Signature, Time};
use guit::app::{App, Section, StatefulList, Turn};
use guit::event::Event;
use guit::record::{BranchRecord, CommitRecord};
use guit::section::BranchKind;

fn scratch(name: &str) -> Repository {
    let stamp = std::time::SystemTime::now()
        .duration_since(std::time::UNIX_EPOCH)
        .unwrap()
        .as_nanos();
    Repository::init(format!("/tmp/guit-app-{}-{}", name, stamp)).unwrap()
}

fn fresh(name: &str) -> App {
    App::new(scratch(name))
}

fn record(n: usize) -> CommitRecord {
    CommitRecord {
        short_hash: format!("{:07x}", n),
        author: "Ada".to_string(),
        summary: format!("Change {}", n),
    }
}

fn stocked(name: &str) -> App {
    App::with_lists(
        scratch(name),
        (0..3).map(record).collect(),
        vec![BranchRecord { name: "main".to_string() }, BranchRecord { name: "dev".to_string() }],
        (0..4).map(record).collect(),
    )
}

fn cursors(app: &App) -> [Option<usize>; 4] {
    let status: &StatefulList<String> = app.status();
    [
        status.selected(),
        app.commits().selected(),
        app.branches().selected(),
        app.reflog().selected(),
    ]
}

#[test]
fn fresh_app_starts_on_status() {
    let app = fresh("start");
    assert_eq!(app.active_section(), Section::Status);
    assert!(!app.should_quit());
    assert_eq!(cursors(&app), [None, None, None, None]);
    assert_eq!(app.status().items(), &vec!["Item1", "Item2", "Item3", "Item4", "Item5"]);
    assert!(app.commits().items().is_empty());
    assert!(app.branches().items().is_empty());
    assert!(app.reflog().items().is_empty());
    assert!(app.repo().is_empty().unwrap());
}

#[test]
fn new_app_shows_the_repository() {
    let repo = scratch("shows");
    let signature = Signature::new("Ada", "ada@example.org", &Time::new(1_000, 0)).unwrap();
    let tree_id = repo.index().unwrap().write_tree().unwrap();
    let id = {
        let tree = repo.find_tree(tree_id).unwrap();
        repo.commit(Some("HEAD"), &signature, &signature, "Begin", &tree, &[]).unwrap()
    };
    let branch = repo.head().unwrap().shorthand().unwrap().to_string();
    let app = App::new(repo);
    assert_eq!(app.commits().len(), 1);
    assert_eq!(app.commits().items()[0].short_hash, id.to_string()[..7]);
    assert_eq!(app.commits().items()[0].summary, "Begin");
    assert_eq!(app.reflog().len(), 1);
    assert_eq!(app.reflog().items()[0].author, "Ada");
    assert_eq!(app.branches().len(), 1);
    assert_eq!(app.branches().items()[0].name, branch);
    assert_eq!(cursors(&app), [None, None, None, None]);
}

#[test]
fn with_lists_keeps_the_lists() {
    let app = stocked("lists");
    assert_eq!(app.active_section(), Section::Status);
    assert!(!app.should_quit());
    assert_eq!(app.status().len(), 5);
    assert_eq!(app.commits().len(), 3);
    assert_eq!(app.commits().items()[2].summary, "Change 2");
    assert_eq!(app.branches().items()[1].name, "dev");
    assert_eq!(app.reflog().len(), 4);
    assert_eq!(cursors(&app), [None, None, None, None]);
}

#[test]
fn down_walks_the_status_list_and_wraps() {
    let mut app = fresh("down");
    let mut seen = Vec::new();
    for _ in 0..6 {
        app.on_down();
        seen.push(app.status().selected());
    }
    assert_eq!(seen, vec![Some(0), Some(1), Some(2), Some(3), Some(4), Some(0)]);
    assert_eq!(app.active_section(), Section::Status);
}

#[test]
fn two_downs_leave_the_cursor_on_the_second_item() {
    let mut app = fresh("two");
    app.on_down();
    app.on_down();
    assert_eq!(app.status().selected(), Some(1));
}

#[test]
fn up_walks_the_status_list_backwards() {
    let mut app = fresh("up");
    let mut seen = Vec::new();
    for _ in 0..4 {
        app.on_up();
        seen.push(app.status().selected());
    }
    assert_eq!(seen, vec![Some(0), Some(4), Some(3), Some(2)]);
}

#[test]
fn moves_on_an_empty_pane_set_no_cursor() {
    let mut app = fresh("empty-pane");
    app.on_tab();
    assert_eq!(app.active_section(), Section::Commits);
    app.on_down();
    app.on_up();
    assert_eq!(cursors(&app), [None, None, None, None]);
}

#[test]
fn tab_follows_the_ring() {
    let mut app = fresh("ring");
    let mut seen = Vec::new();
    for _ in 0..4 {
        app.on_tab();
        seen.push(app.active_section());
    }
    assert_eq!(
        seen,
        vec![
            Section::Commits,
            Section::Branches(BranchKind::Local),
            Section::Reflog,
            Section::Status
        ]
    );
}

#[test]
fn moves_touch_the_active_pane_only() {
    let mut app = stocked("active");
    app.on_down();
    app.on_down();
    assert_eq!(cursors(&app), [Some(1), None, None, None]);
    app.on_tab();
    app.on_down();
    assert_eq!(cursors(&app), [Some(1), Some(0), None, None]);
    app.on_tab();
    app.on_up();
    app.on_up();
    assert_eq!(cursors(&app), [Some(1), Some(0), Some(1), None]);
    app.on_tab();
    app.on_up();
    app.on_up();
    app.on_up();
    assert_eq!(cursors(&app), [Some(1), Some(0), Some(1), Some(2)]);
}

#[test]
fn leaving_a_pane_and_coming_back_keeps_its_cursor() {
    let mut app = stocked("back");
    app.on_down();
    app.on_down();
    app.on_down();
    assert_eq!(app.status().selected(), Some(2));
    app.on_tab();
    app.on_down();
    app.on_tab();
    app.on_down();
    app.on_down();
    app.on_tab();
    app.on_up();
    app.on_tab();
    assert_eq!(app.active_section(), Section::Status);
    assert_eq!(app.status().selected(), Some(2));
    app.on_tab();
    assert_eq!(app.commits().selected(), Some(0));
    app.on_tab();
    assert_eq!(app.branches().selected(), Some(1));
}

#[test]
fn left_right_and_tick_change_nothing() {
    let mut app = stocked("reserved");
    app.on_down();
    app.on_tab();
    app.on_tab();
    assert_eq!(app.active_section(), Section::Branches(BranchKind::Local));
    app.on_right();
    app.on_left();
    app.on_tick();
    assert_eq!(app.active_section(), Section::Branches(BranchKind::Local));
    assert_eq!(cursors(&app), [Some(0), None, None, None]);
    assert!(!app.should_quit());
}

#[test]
fn q_asks_to_quit() {
    let mut app = fresh("quit");
    app.on_key('q');
    assert!(app.should_quit());
}

#[test]
fn other_characters_change_nothing() {
    let mut app = fresh("chars");
    for c in ['Q', 'x', 'j', 'k', 'h', 'l', ' ', '\n', 'é'] {
        app.on_key(c);
    }
    assert!(!app.should_quit());
    assert_eq!(app.active_section(), Section::Status);
    assert_eq!(cursors(&app), [None, None, None, None]);
}

#[test]
fn quit_is_never_taken_back() {
    let mut app = stocked("permanent");
    app.on_key('q');
    app.on_up();
    assert!(app.should_quit());
    app.on_down();
    assert!(app.should_quit());
    app.on_tab();
    assert!(app.should_quit());
    app.on_left();
    app.on_right();
    app.on_tick();
    assert!(app.should_quit());
    app.on_key('x');
    assert!(app.should_quit());
    app.on_key('q');
    assert!(app.should_quit());
    app.request_quit();
    assert!(app.should_quit());
    for event in [Event::Up, Event::Down, Event::Tab, Event::Char('a'), Event::Tick] {
        app.handle(event);
        assert!(app.should_quit());
    }
    let turn = app.turn(Some(Event::Tab), 250, 0);
    assert!(turn.quit);
    assert!(app.should_quit());
}

#[test]
fn request_quit_is_idempotent() {
    let mut app = fresh("idempotent");
    app.request_quit();
    assert!(app.should_quit());
    app.request_quit();
    assert!(app.should_quit());
    assert_eq!(app.active_section(), Section::Status);
}

#[test]
fn handle_dispatches_events() {
    let mut app = stocked("handle");
    app.handle(Event::Down);
    app.handle(Event::Down);
    app.handle(Event::Up);
    assert_eq!(app.status().selected(), Some(0));
    app.handle(Event::Tab);
    assert_eq!(app.active_section(), Section::Commits);
    app.handle(Event::Left);
    app.handle(Event::Right);
    app.handle(Event::Tick);
    app.handle(Event::Char('j'));
    assert_eq!(cursors(&app), [Some(0), None, None, None]);
    assert!(!app.should_quit());
    app.handle(Event::Char('q'));
    assert!(app.should_quit());
}

#[test]
fn turn_reports_tick_and_quit() {
    let mut app = stocked("turn");
    assert_eq!(app.turn(None, 250, 100), Turn { ticked: false, quit: false });
    assert_eq!(app.turn(Some(Event::Down), 250, 249), Turn { ticked: false, quit: false });
    assert_eq!(app.status().selected(), Some(0));
    assert_eq!(app.turn(None, 250, 250), Turn { ticked: true, quit: false });
    assert_eq!(app.turn(Some(Event::Tab), 250, 400), Turn { ticked: true, quit: false });
    assert_eq!(app.active_section(), Section::Commits);
    assert_eq!(app.turn(Some(Event::Char('q')), 250, 10), Turn { ticked: false, quit: true });
    assert_eq!(app.turn(None, 250, 300), Turn { ticked: true, quit: true });
}

#[test]
fn app_keeps_its_repository() {
    let repo = scratch("keeps");
    let path = repo.path().to_path_buf();
    let mut app = App::new(repo);
    assert_eq!(app.repo().path(), path.as_path());
    app.on_down();
    app.on_tab();
    app.on_key('q');
    app.on_tick();
    assert_eq!(app.repo().path(), path.as_path());
}
