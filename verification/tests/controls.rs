use clank::controls::{AppMode, Command, Controls, Input, Key, StatsView};

fn press(key: Key) -> Input {
    Input::Key { key, ctrl: false, pressed: true }
}

#[test]
fn quit_keys_work_in_every_mode() {
    let mut c = Controls::new();
    assert_eq!(c.handle_event(press(Key::Esc)), Command::Quit);
    c.handle_event(press(Key::Char('>')));
    assert_eq!(c.mode, AppMode::Stats);
    assert_eq!(
        c.handle_event(Input::Key { key: Key::Char('c'), ctrl: true, pressed: true }),
        Command::Quit
    );
    assert_eq!(c.mode, AppMode::Stats);
}

#[test]
fn typing_mode_commands() {
    let mut c = Controls::new();
    assert_eq!(c.handle_event(press(Key::Char('a'))), Command::Type('a'));
    assert_eq!(c.handle_event(press(Key::Char('c'))), Command::Type('c'));
    assert_eq!(c.handle_event(press(Key::Tab)), Command::NextLesson);
    assert_eq!(c.handle_event(press(Key::Backspace)), Command::Backspace);
    assert!(c.dirty);
    assert_eq!(c.handle_event(press(Key::Left)), Command::Continue);
    assert!(!c.dirty);
}

#[test]
fn stats_mode_views_and_scroll() {
    let mut c = Controls::new();
    c.handle_event(press(Key::Char('<')));
    assert_eq!(c.mode, AppMode::Stats);
    c.handle_event(press(Key::Char('n')));
    assert_eq!(c.stats_view, StatsView::Accuracy);
    c.handle_event(press(Key::Char('p')));
    assert_eq!(c.stats_view, StatsView::Wpm);
    c.handle_event(press(Key::Up));
    assert_eq!(c.matrix_scroll, (0, 0));
    c.handle_event(press(Key::Down));
    c.handle_event(press(Key::Right));
    c.handle_event(press(Key::Right));
    c.handle_event(press(Key::Left));
    assert_eq!(c.matrix_scroll, (1, 1));
    assert_eq!(c.handle_event(press(Key::Char('x'))), Command::Continue);
    assert!(!c.dirty);
    c.handle_event(press(Key::Char('>')));
    assert_eq!(c.mode, AppMode::Typing);
    assert_eq!(c.matrix_scroll, (1, 1));
}

#[test]
fn releases_and_resizes() {
    let mut c = Controls::new();
    c.dirty = false;
    assert_eq!(
        c.handle_event(Input::Key { key: Key::Esc, ctrl: false, pressed: false }),
        Command::Continue
    );
    assert!(!c.dirty);
    assert_eq!(c.handle_event(Input::Resize), Command::Continue);
    assert!(c.dirty);
    c.dirty = false;
    assert_eq!(c.handle_event(Input::Other), Command::Continue);
    assert!(!c.dirty);
}

#[test]
fn view_cycle() {
    assert_eq!(StatsView::Wpm.next(), StatsView::Accuracy);
    assert_eq!(StatsView::Accuracy.next(), StatsView::Wpm);
    assert_eq!(StatsView::Wpm.prev(), StatsView::Accuracy);
    assert_eq!(StatsView::Wpm.next().prev(), StatsView::Wpm);
}
