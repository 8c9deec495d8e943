//! What the keys do to a session.

use vstd::prelude::*;
use crate::app::App;

verus! {

/// The key that was used, as far as the session tells keys apart.
#[derive(Clone, Copy, Debug, PartialEq, Eq, Structural)]
pub enum KeyCode {
    Esc,
    Char(char),
    Other,
}

#[derive(Clone, Copy, Debug, PartialEq, Eq, Structural)]
pub enum KeyEventKind {
    Press,
    Repeat,
    Release,
}

/// One event of the keyboard. `control` says that the control key, and no
/// other modifier, was held.
#[derive(Clone, Copy, Debug, PartialEq, Eq, Structural)]
pub struct KeyEvent {
    pub code: KeyCode,
    pub control: bool,
    pub kind: KeyEventKind,
}

impl KeyEvent {
    /// The event is of the character `c`.
    pub open spec fn is_char(self, c: char) -> bool {
        self.code == KeyCode::Char(c)
    }

    /// The event is the release of the character `c`.
    pub open spec fn releases(self, c: char) -> bool {
        self.is_char(c) && self.kind == KeyEventKind::Release
    }

    /// The event is the press of the character `c`.
    pub open spec fn presses(self, c: char) -> bool {
        self.is_char(c) && self.kind == KeyEventKind::Press
    }

    /// The event asks to leave: escape or `q` in any form, or `c` together
    /// with the control key.
    pub open spec fn asks_to_quit(self) -> bool {
        ||| self.code == KeyCode::Esc
        ||| self.is_char('q')
        ||| ((self.is_char('c') || self.is_char('C')) && self.control)
    }
}

/// Applies one keyboard event to the session: a request to leave sets
/// `should_quit`; the release of `r` seeds the grid anew and resets the cycle
/// count, that of `p` pauses or resumes, that of `b` switches the border
/// policy. Every other event leaves the session as it is.
pub fn handle_key_events(key_event: KeyEvent, app: &mut App)
    requires
        old(app).grids.wf(),
    ensures
        key_event.asks_to_quit() ==> *final(app) == (App { should_quit: true, ..*old(app) }),
        key_event.releases('r') ==> old(app).restarts_as(*final(app)),
        key_event.releases('p') ==> *final(app) == old(app).with_player_switched(),
        key_event.releases('b') ==> *final(app) == old(app).with_border_switched(),
        !key_event.asks_to_quit() && !key_event.releases('r') && !key_event.releases('p')
            && !key_event.releases('b') ==> *final(app) == *old(app),
{
    match key_event.code {
        KeyCode::Esc | KeyCode::Char('q') => {
            app.quit();
        },
        KeyCode::Char('c') | KeyCode::Char('C') => {
            if key_event.control {
                app.quit();
            }
        },
        KeyCode::Char('r') => {
            if key_event.kind == KeyEventKind::Release {
                app.randomize_cells();
                app.cycle_count = 0;
            }
        },
        KeyCode::Char('p') => {
            if key_event.kind == KeyEventKind::Release {
                app.player_state.switch();
            }
        },
        KeyCode::Char('b') => {
            if key_event.kind == KeyEventKind::Release {
                app.border_policy.switch();
            }
        },
        _ => {},
    }
}

/// Applies what was read from the keyboard, if anything, to the session, and
/// tells whether to leave. Only a key that is pressed counts: `q` asks to
/// leave, `r` seeds the grid anew and resets the cycle count, `p` pauses or
/// resumes, `b` switches the border policy.
pub fn handle_events(key_event: Option<KeyEvent>, app: &mut App) -> (quit: bool)
    requires
        old(app).grids.wf(),
    ensures
        quit <==> (key_event matches Some(key) && key.presses('q')),
        key_event matches Some(key) && key.presses('r') ==> old(app).restarts_as(*final(app)),
        key_event matches Some(key) && key.presses('p') ==> *final(app)
            == old(app).with_player_switched(),
        key_event matches Some(key) && key.presses('b') ==> *final(app)
            == old(app).with_border_switched(),
        !(key_event matches Some(key) && (key.presses('r') || key.presses('p') || key.presses(
            'b',
        ))) ==> *final(app) == *old(app),
{
    match key_event {
        Some(key) => {
            if key.kind == KeyEventKind::Press {
                match key.code {
                    KeyCode::Char('q') => true,
                    KeyCode::Char('r') => {
                        app.randomize_cells();
                        app.cycle_count = 0;
                        false
                    },
                    KeyCode::Char('p') => {
                        app.player_state.switch();
                        false
                    },
                    KeyCode::Char('b') => {
                        app.border_policy.switch();
                        false
                    },
                    _ => false,
                }
            } else {
                false
            }
        },
        None => false,
    }
}

} // verus!
