//! The stage: the state that key presses and frame ticks change.

use vstd::prelude::*;
use crate::key::Key;

verus! {

/// What the display remembers between events.
#[derive(Clone, Copy, Debug, PartialEq, Eq, Structural)]
pub struct Stage {
    /// The character selected by the last key press that counted: a letter, or
    /// a space after the space bar or the enter key.
    pub current_char: char,
    /// With a space selected: `true` shows the loaded picture, `false` the
    /// plain coloured quad.
    pub show_alternate_image: bool,
    /// Whether the on-screen keyboard has been asked for since the last press
    /// of the G key.
    pub keyboard_visible: bool,
}

impl Stage {
    /// The state at startup.
    pub open spec fn initial() -> Stage {
        Stage { current_char: 'a', show_alternate_image: true, keyboard_visible: false }
    }

    /// The selected character is an ASCII letter or a space.
    pub open spec fn wf(self) -> bool {
        ||| self.current_char == ' '
        ||| 'A' <= self.current_char <= 'Z'
        ||| 'a' <= self.current_char <= 'z'
    }

    /// The state after a key event. A repeat of a held key changes nothing, and
    /// neither does a key that is no letter, space or enter.
    pub open spec fn after_key(self, key: Key, shift: bool, repeat: bool) -> Stage {
        if repeat {
            self
        } else if key == Key::Space {
            Stage { current_char: ' ', show_alternate_image: true, ..self }
        } else if key == Key::Enter {
            Stage { current_char: ' ', show_alternate_image: false, ..self }
        } else if key.is_letter() {
            Stage {
                current_char: key.typed(shift).unwrap(),
                keyboard_visible: if key == Key::G {
                    false
                } else {
                    self.keyboard_visible
                },
                ..self
            }
        } else {
            self
        }
    }

    /// Whether the next tick asks the platform to show the on-screen keyboard.
    pub open spec fn wants_keyboard(self) -> bool {
        !self.keyboard_visible && self.current_char == 'g'
    }

    /// The state after a frame tick.
    pub open spec fn after_tick(self) -> Stage {
        if self.wants_keyboard() {
            Stage { keyboard_visible: true, ..self }
        } else {
            self
        }
    }

    /// The state after `count` frame ticks in a row, with no key event between
    /// them.
    pub open spec fn after_ticks(self, count: nat) -> Stage
        decreases count,
    {
        if count == 0 {
            self
        } else {
            self.after_tick().after_ticks((count - 1) as nat)
        }
    }

    /// How many of `count` frame ticks in a row ask for the keyboard.
    pub open spec fn keyboard_requests(self, count: nat) -> nat
        decreases count,
    {
        if count == 0 {
            0
        } else {
            (if self.wants_keyboard() {
                1nat
            } else {
                0nat
            }) + self.after_tick().keyboard_requests((count - 1) as nat)
        }
    }

    /// The stage at startup: the letter `a` selected, the picture chosen, no
    /// keyboard asked for yet.
    pub fn new() -> (stage: Stage)
        ensures
            stage == Stage::initial(),
            stage.wf(),
    {
        Stage { current_char: 'a', show_alternate_image: true, keyboard_visible: false }
    }

    /// Takes a key event. Returns whether the press is to be reported on the
    /// diagnostic stream: every press that is no repeat is.
    pub fn key_down_event(&mut self, key: Key, shift: bool, repeat: bool) -> (reported: bool)
        ensures
            *final(self) == old(self).after_key(key, shift, repeat),
            reported == !repeat,
            old(self).wf() ==> final(self).wf(),
    {
        if repeat {
            return false;
        }
        match key {
            Key::Space => {
                self.current_char = ' ';
                self.show_alternate_image = true;
            },
            Key::Enter => {
                self.current_char = ' ';
                self.show_alternate_image = false;
            },
            _ => {
                match key.letter(shift) {
                    Some(c) => {
                        self.current_char = c;
                        if key == Key::G {
                            self.keyboard_visible = false;
                        }
                    },
                    None => {},
                }
            },
        }
        true
    }

    /// Takes a frame tick, before the frame is drawn. Returns whether the
    /// caller must now ask the platform to show the on-screen keyboard.
    pub fn update(&mut self) -> (show_keyboard: bool)
        ensures
            show_keyboard == old(self).wants_keyboard(),
            *final(self) == old(self).after_tick(),
            old(self).wf() ==> final(self).wf(),
    {
        if !self.keyboard_visible && self.current_char == 'g' {
            self.keyboard_visible = true;
            true
        } else {
            false
        }
    }
}

/// A press of a letter key without shift selects its upper-case letter, and
/// with shift its lower-case letter. Nothing but the G key touches the
/// keyboard flag, and no letter key touches the picture flag.
pub proof fn law_letter_press(stage: Stage, key: Key, shift: bool)
    requires
        key.is_letter(),
    ensures
        stage.after_key(key, false, false).current_char == key.upper().unwrap(),
        stage.after_key(key, true, false).current_char == key.lower().unwrap(),
        stage.after_key(key, shift, false).show_alternate_image == stage.show_alternate_image,
        key != Key::G ==> stage.after_key(key, shift, false).keyboard_visible
            == stage.keyboard_visible,
{
}

/// A press of the G key always clears the keyboard flag. With shift held the
/// selected character is then `g`, so the next tick asks for the keyboard, sets
/// the flag, and the tick after it asks no more. Without shift the selected
/// character is `G`, and no tick asks.
pub proof fn law_g_rearms_keyboard(stage: Stage, shift: bool)
    ensures
        !stage.after_key(Key::G, shift, false).keyboard_visible,
        stage.after_key(Key::G, true, false).wants_keyboard(),
        stage.after_key(Key::G, true, false).after_tick().keyboard_visible,
        !stage.after_key(Key::G, true, false).after_tick().wants_keyboard(),
        !stage.after_key(Key::G, false, false).wants_keyboard(),
{
}

/// A tick asks for the keyboard at most once in a row: after any tick the
/// stage wants none, and a further tick changes nothing.
pub proof fn law_tick_is_one_shot(stage: Stage)
    ensures
        !stage.after_tick().wants_keyboard(),
        stage.after_tick().after_tick() == stage.after_tick(),
        stage.after_tick().current_char == stage.current_char,
        stage.after_tick().show_alternate_image == stage.show_alternate_image,
{
}

/// However many ticks follow one another with no key event between them, the
/// keyboard is asked for once if the first tick wants it and never otherwise,
/// and the state after them is the state after the first.
pub proof fn law_ticks_ask_once(stage: Stage, count: nat)
    requires
        count >= 1,
    ensures
        stage.keyboard_requests(count) == (if stage.wants_keyboard() {
            1nat
        } else {
            0nat
        }),
        stage.after_ticks(count) == stage.after_tick(),
        stage.current_char == 'g' ==> stage.after_ticks(count).keyboard_visible,
        stage.current_char == 'g' ==> stage.keyboard_requests(count) == (if stage.keyboard_visible {
            0nat
        } else {
            1nat
        }),
    decreases count,
{
    if count > 1 {
        law_ticks_ask_once(stage.after_tick(), (count - 1) as nat);
    } else {
        assert(stage.after_tick().after_ticks(0) == stage.after_tick());
        assert(stage.after_tick().keyboard_requests(0) == 0);
    }
}

/// The space bar selects a space with the picture, the enter key a space
/// without it, whatever shift says; a second press of either changes nothing.
pub proof fn law_space_and_enter(stage: Stage, shift: bool, again: bool)
    ensures
        stage.after_key(Key::Space, shift, false).current_char == ' ',
        stage.after_key(Key::Space, shift, false).show_alternate_image,
        stage.after_key(Key::Enter, shift, false).current_char == ' ',
        !stage.after_key(Key::Enter, shift, false).show_alternate_image,
        stage.after_key(Key::Space, shift, false).keyboard_visible == stage.keyboard_visible,
        stage.after_key(Key::Enter, shift, false).keyboard_visible == stage.keyboard_visible,
        stage.after_key(Key::Space, shift, false).after_key(Key::Space, again, false)
            == stage.after_key(Key::Space, shift, false),
        stage.after_key(Key::Enter, shift, false).after_key(Key::Enter, again, false)
            == stage.after_key(Key::Enter, shift, false),
{
}

/// A repeat of a held key leaves the whole state as it was.
pub proof fn law_repeat_is_ignored(stage: Stage, key: Key, shift: bool)
    ensures
        stage.after_key(key, shift, true) == stage,
{
}

/// A key that is no letter, space or enter leaves the whole state as it was.
pub proof fn law_other_key_is_ignored(stage: Stage, key: Key, shift: bool, repeat: bool)
    requires
        !key.is_letter(),
        key != Key::Space,
        key != Key::Enter,
    ensures
        stage.after_key(key, shift, repeat) == stage,
{
}

/// Every state reached from startup by key events and ticks holds a letter or
/// a space.
pub proof fn law_events_keep_wf(stage: Stage, key: Key, shift: bool, repeat: bool)
    requires
        stage.wf(),
    ensures
        Stage::initial().wf(),
        stage.after_key(key, shift, repeat).wf(),
        stage.after_tick().wf(),
{
}

} // verus!
