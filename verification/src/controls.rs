//! Key controls of the trainer: which screen is shown, which statistic the
//! stats screen shows, its scroll position, and what each key asks the
//! program to do.

use vstd::prelude::*;

verus! {

/// The screen on show.
#[derive(Debug, Clone, Copy, PartialEq, Eq)]
pub enum AppMode {
    Typing,
    Stats,
}

/// The statistic the digram matrix of the stats screen shows.
#[derive(Debug, Clone, Copy, PartialEq, Eq)]
pub enum StatsView {
    Wpm,
    Accuracy,
}

impl StatsView {
    pub open spec fn following(self) -> StatsView {
        match self {
            StatsView::Wpm => StatsView::Accuracy,
            StatsView::Accuracy => StatsView::Wpm,
        }
    }

    pub open spec fn preceding(self) -> StatsView {
        match self {
            StatsView::Wpm => StatsView::Accuracy,
            StatsView::Accuracy => StatsView::Wpm,
        }
    }

    /// The next view in the cycle.
    pub fn next(self) -> (r: StatsView)
        ensures
            r == self.following(),
    {
        match self {
            StatsView::Wpm => StatsView::Accuracy,
            StatsView::Accuracy => StatsView::Wpm,
        }
    }

    /// The previous view in the cycle.
    pub fn prev(self) -> (r: StatsView)
        ensures
            r == self.preceding(),
    {
        match self {
            StatsView::Wpm => StatsView::Accuracy,
            StatsView::Accuracy => StatsView::Wpm,
        }
    }
}

/// A key as the controls see it.
#[derive(Debug, Clone, Copy, PartialEq, Eq)]
pub enum Key {
    Esc,
    Char(char),
    Tab,
    Backspace,
    Left,
    Right,
    Up,
    Down,
    Other,
}

/// A terminal event as the controls see it.
#[derive(Debug, Clone, Copy, PartialEq, Eq)]
pub enum Input {
    /// A key event; `pressed` is true for a press or a repeat, false for a
    /// release; `ctrl` tells whether Control was held.
    Key { key: Key, ctrl: bool, pressed: bool },
    /// The terminal was resized.
    Resize,
    /// Any other event.
    Other,
}

/// What the program must do after an event.
#[derive(Debug, Clone, Copy, PartialEq, Eq)]
pub enum Command {
    /// Exit (the model is saved on the way out).
    Quit,
    /// Nothing beyond what the controls changed.
    Continue,
    /// Skip to a fresh lesson.
    NextLesson,
    /// Clear an unresolved mistake or step back.
    Backspace,
    /// Type this key in the lesson.
    Type(char),
}

/// The state of the controls.
#[derive(Debug, Clone, Copy)]
pub struct Controls {
    pub mode: AppMode,
    pub stats_view: StatsView,
    /// Horizontal and vertical scroll of the digram matrix.
    pub matrix_scroll: (u16, u16),
    /// Whether the screen must be redrawn.
    pub dirty: bool,
}

/// True when `key` with `ctrl` quits in every mode: Esc, or Ctrl-C.
pub open spec fn is_quit_key(key: Key, ctrl: bool) -> bool {
    key == Key::Esc || (key == Key::Char('c') && ctrl)
}

/// True when `key` toggles between the typing and the stats screen.
pub open spec fn is_toggle_key(key: Key) -> bool {
    key == Key::Char('<') || key == Key::Char('>')
}

pub open spec fn dec(x: u16) -> u16 {
    if x == 0 {
        0
    } else {
        (x - 1) as u16
    }
}

pub open spec fn inc(x: u16) -> u16 {
    if x == u16::MAX {
        x
    } else {
        (x + 1) as u16
    }
}

impl Controls {
    /// The stats screen's response to `key`: the state it leaves and
    /// whether the key did anything.
    pub open spec fn stats_key(self, key: Key) -> (Controls, bool) {
        let (x, y) = self.matrix_scroll;
        if is_toggle_key(key) {
            (Controls { mode: AppMode::Typing, ..self }, true)
        } else if key == Key::Char('n') {
            (Controls { stats_view: self.stats_view.following(), ..self }, true)
        } else if key == Key::Char('p') {
            (Controls { stats_view: self.stats_view.preceding(), ..self }, true)
        } else if key == Key::Left {
            (Controls { matrix_scroll: (dec(x), y), ..self }, true)
        } else if key == Key::Right {
            (Controls { matrix_scroll: (inc(x), y), ..self }, true)
        } else if key == Key::Up {
            (Controls { matrix_scroll: (x, dec(y)), ..self }, true)
        } else if key == Key::Down {
            (Controls { matrix_scroll: (x, inc(y)), ..self }, true)
        } else {
            (self, false)
        }
    }

    /// The typing screen's response to `key`: the command it gives and
    /// whether the key did anything.
    pub open spec fn typing_key(self, key: Key) -> (Controls, Command, bool) {
        if is_toggle_key(key) {
            (Controls { mode: AppMode::Stats, ..self }, Command::Continue, true)
        } else {
            match key {
                Key::Tab => (self, Command::NextLesson, true),
                Key::Backspace => (self, Command::Backspace, true),
                Key::Char(c) => (self, Command::Type(c), true),
                _ => (self, Command::Continue, false),
            }
        }
    }

    /// The state and command that event `ev` leads to from `self`.
    pub open spec fn on_event(self, ev: Input) -> (Controls, Command) {
        match ev {
            Input::Key { key, ctrl, pressed } => if !pressed {
                (self, Command::Continue)
            } else if is_quit_key(key, ctrl) {
                (self, Command::Quit)
            } else {
                match self.mode {
                    AppMode::Stats => {
                        let (next, acted) = self.stats_key(key);
                        (Controls { dirty: acted, ..next }, Command::Continue)
                    },
                    AppMode::Typing => {
                        let (next, cmd, acted) = self.typing_key(key);
                        (Controls { dirty: acted, ..next }, cmd)
                    },
                }
            },
            Input::Resize => (Controls { dirty: true, ..self }, Command::Continue),
            Input::Other => (self, Command::Continue),
        }
    }

    /// The controls at start-up: the typing screen, needing a draw.
    pub fn new() -> (r: Controls)
        ensures
            r.mode == AppMode::Typing,
            r.stats_view == StatsView::Wpm,
            r.matrix_scroll == (0u16, 0u16),
            r.dirty,
    {
        Controls { mode: AppMode::Typing, stats_view: StatsView::Wpm, matrix_scroll: (0, 0), dirty: true }
    }

    /// Handles one terminal event and says what the program must do next.
    pub fn handle_event(&mut self, ev: Input) -> (cmd: Command)
        ensures
            (*final(self), cmd) == old(self).on_event(ev),
    {
        match ev {
            Input::Key { key, ctrl, pressed } => {
                if !pressed {
                    return Command::Continue;
                }
                // Global quit shortcuts work in every mode.
                let is_c = match key {
                    Key::Char(k) => k == 'c',
                    _ => false,
                };
                let is_esc = match key {
                    Key::Esc => true,
                    _ => false,
                };
                if is_esc || (is_c && ctrl) {
                    return Command::Quit;
                }
                self.dirty = true;
                let toggle = match key {
                    Key::Char(k) => k == '<' || k == '>',
                    _ => false,
                };
                match self.mode {
                    AppMode::Stats => {
                        if toggle {
                            self.mode = AppMode::Typing;
                        } else {
                            match key {
                                Key::Char('n') => self.stats_view = self.stats_view.next(),
                                Key::Char('p') => self.stats_view = self.stats_view.prev(),
                                Key::Left => self.matrix_scroll.0 = self.matrix_scroll.0.saturating_sub(
                                    1,
                                ),
                                Key::Right => self.matrix_scroll.0 = self.matrix_scroll.0.saturating_add(
                                    1,
                                ),
                                Key::Up => self.matrix_scroll.1 = self.matrix_scroll.1.saturating_sub(
                                    1,
                                ),
                                Key::Down => self.matrix_scroll.1 = self.matrix_scroll.1.saturating_add(
                                    1,
                                ),
                                _ => self.dirty = false,
                            }
                        }
                        Command::Continue
                    },
                    AppMode::Typing => {
                        if toggle {
                            self.mode = AppMode::Stats;
                            Command::Continue
                        } else {
                            match key {
                                Key::Tab => Command::NextLesson,
                                Key::Backspace => Command::Backspace,
                                Key::Char(c) => Command::Type(c),
                                _ => {
                                    self.dirty = false;
                                    Command::Continue
                                },
                            }
                        }
                    },
                }
            },
            Input::Resize => {
                self.dirty = true;
                Command::Continue
            },
            Input::Other => Command::Continue,
        }
    }
}

/// Esc and Ctrl-C quit from every screen and change nothing.
pub proof fn law_quit_everywhere(c: Controls, key: Key, ctrl: bool)
    requires
        is_quit_key(key, ctrl),
    ensures
        c.on_event(Input::Key { key, ctrl, pressed: true }) == (c, Command::Quit),
{
}

/// A released key changes nothing and asks for nothing.
pub proof fn law_release_ignored(c: Controls, key: Key, ctrl: bool)
    ensures
        c.on_event(Input::Key { key, ctrl, pressed: false }) == (c, Command::Continue),
{
}

/// Toggling twice returns to the screen one started on, with the view and
/// the scroll position unchanged.
pub proof fn law_toggle_round_trip(c: Controls, key: Key)
    requires
        is_toggle_key(key),
    ensures
        ({
            let ev = Input::Key { key, ctrl: false, pressed: true };
            let (c1, cmd1) = c.on_event(ev);
            let (c2, cmd2) = c1.on_event(ev);
            &&& c1.mode != c.mode
            &&& c2.mode == c.mode
            &&& c2.stats_view == c.stats_view
            &&& c2.matrix_scroll == c.matrix_scroll
            &&& cmd1 == Command::Continue
            &&& cmd2 == Command::Continue
        }),
{
}

/// Stepping the stats view forward and back returns to where it was.
pub proof fn law_view_cycle(v: StatsView)
    ensures
        v.following().preceding() == v,
        v.preceding().following() == v,
        v.following() != v,
{
}

/// On the stats screen the arrows scroll the digram matrix by one step:
/// Left and Right move only the horizontal offset (`matrix_scroll.0`), Up and
/// Down only the vertical one (`matrix_scroll.1`), stopping at 0 and at the
/// largest `u16`; the screen, the view and the command stay as they were.
pub proof fn law_arrows_scroll(c: Controls, ctrl: bool)
    requires
        c.mode == AppMode::Stats,
    ensures
        ({
            let (x, y) = c.matrix_scroll;
            let left = c.on_event(Input::Key { key: Key::Left, ctrl, pressed: true });
            let right = c.on_event(Input::Key { key: Key::Right, ctrl, pressed: true });
            let up = c.on_event(Input::Key { key: Key::Up, ctrl, pressed: true });
            let down = c.on_event(Input::Key { key: Key::Down, ctrl, pressed: true });
            &&& left.0.matrix_scroll == ((if x > 0 { x - 1 } else { 0 }) as u16, y)
            &&& right.0.matrix_scroll == ((if x < u16::MAX { x + 1 } else { x as int }) as u16, y)
            &&& up.0.matrix_scroll == (x, (if y > 0 { y - 1 } else { 0 }) as u16)
            &&& down.0.matrix_scroll == (x, (if y < u16::MAX { y + 1 } else { y as int }) as u16)
            &&& left.0.mode == AppMode::Stats && right.0.mode == AppMode::Stats
            &&& up.0.mode == AppMode::Stats && down.0.mode == AppMode::Stats
            &&& left.0.stats_view == c.stats_view && down.0.stats_view == c.stats_view
            &&& left.1 == Command::Continue && right.1 == Command::Continue
            &&& up.1 == Command::Continue && down.1 == Command::Continue
            &&& left.0.dirty && right.0.dirty && up.0.dirty && down.0.dirty
        }),
{
}

/// On the typing screen, Tab skips to a fresh lesson, Backspace asks for a
/// backspace, and any other character but the toggles (and Ctrl-C) is typed;
/// none of them changes the screen, the view or the scroll.
pub proof fn law_typing_commands(c: Controls, ch: char, ctrl: bool)
    requires
        c.mode == AppMode::Typing,
    ensures
        ({
            let tab = c.on_event(Input::Key { key: Key::Tab, ctrl, pressed: true });
            let back = c.on_event(Input::Key { key: Key::Backspace, ctrl, pressed: true });
            let typed = c.on_event(Input::Key { key: Key::Char(ch), ctrl, pressed: true });
            &&& tab.1 == Command::NextLesson
            &&& back.1 == Command::Backspace
            &&& tab.0.mode == AppMode::Typing && back.0.mode == AppMode::Typing
            &&& tab.0.matrix_scroll == c.matrix_scroll && back.0.matrix_scroll == c.matrix_scroll
            &&& (ch != '<' && ch != '>' && !(ch == 'c' && ctrl)) ==> {
                &&& typed.1 == Command::Type(ch)
                &&& typed.0.mode == AppMode::Typing
                &&& typed.0.stats_view == c.stats_view
                &&& typed.0.matrix_scroll == c.matrix_scroll
                &&& typed.0.dirty
            }
            &&& (ch == '<' || ch == '>') ==> typed.0.mode == AppMode::Stats && typed.1
                == Command::Continue
        }),
{
}

/// On the stats screen, `n` and `p` switch the matrix to the other statistic
/// (WPM and accuracy alternate), leaving the screen and the scroll as they
/// were; no key there asks to type.
pub proof fn law_stats_view_keys(c: Controls, key: Key, ctrl: bool)
    requires
        c.mode == AppMode::Stats,
    ensures
        ({
            let n = c.on_event(Input::Key { key: Key::Char('n'), ctrl: false, pressed: true });
            let p = c.on_event(Input::Key { key: Key::Char('p'), ctrl: false, pressed: true });
            &&& n.0.stats_view != c.stats_view
            &&& p.0.stats_view != c.stats_view
            &&& n.0.mode == AppMode::Stats && p.0.mode == AppMode::Stats
            &&& n.0.matrix_scroll == c.matrix_scroll && p.0.matrix_scroll == c.matrix_scroll
            &&& c.on_event(Input::Key { key, ctrl, pressed: true }).1 == Command::Continue
                || c.on_event(Input::Key { key, ctrl, pressed: true }).1 == Command::Quit
        }),
{
}

} // verus!
