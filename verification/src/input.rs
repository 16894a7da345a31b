//! The per-frame input snapshot.
//!
//! The host captures pointer position, button and key edges, the optional
//! character typed this frame, and the wheel delta once per frame; the
//! whole widget tree reads the same immutable snapshot, so one widget's
//! input handling can never affect another's within a frame.

use vstd::prelude::*;
use crate::geometry::in_coord;

verus! {

/// Number of key slots in the snapshot.
pub const KEY_SLOTS: usize = 256;

// Key indices used by the library itself.  The host maps its native
// key codes onto these slots before building the snapshot.
pub const KEY_A: usize = 10;
pub const KEY_LCONTROL: usize = 100;
pub const KEY_RCONTROL: usize = 101;
pub const KEY_LSHIFT: usize = 102;
pub const KEY_RSHIFT: usize = 103;
pub const KEY_LALT: usize = 104;
pub const KEY_RALT: usize = 105;
pub const KEY_F2: usize = 112;
pub const KEY_F3: usize = 113;

/// Everything the engine may read about input during one frame.
/// `mouse_clicked` is the held state of the left button;
/// `mouse_just_clicked` is true only on the frame of the press edge.
#[derive(Clone, Copy, Debug)]
pub struct InputState {
    pub mouse_x: i64,
    pub mouse_y: i64,
    pub mouse_clicked: bool,
    pub mouse_just_clicked: bool,
    pub keys_pressed: [bool; 256],
    pub keys_just_pressed: [bool; 256],
    pub char_input: Option<char>,
    pub scroll_delta: i64,
}

impl InputState {
    /// Key vectors have exactly [`KEY_SLOTS`] entries and the pointer
    /// coordinates and wheel delta are in the coordinate range.
    pub open spec fn wf(self) -> bool {
        &&& self.keys_pressed@.len() == KEY_SLOTS
        &&& self.keys_just_pressed@.len() == KEY_SLOTS
        &&& in_coord(self.mouse_x)
        &&& in_coord(self.mouse_y)
        &&& in_coord(self.scroll_delta)
    }

    /// Is the key in slot `key` held down?  Out-of-range slots read as
    /// released.
    pub fn key_down(&self, key: usize) -> (r: bool)
        ensures
            r == (key < self.keys_pressed@.len() && self.keys_pressed@[key as int]),
    {
        if key < self.keys_pressed.len() {
            self.keys_pressed[key]
        } else {
            false
        }
    }

    /// Did the key in slot `key` go down this frame?  Out-of-range slots
    /// read as quiet.
    pub fn key_just_pressed(&self, key: usize) -> (r: bool)
        ensures
            r == (key < self.keys_just_pressed@.len() && self.keys_just_pressed@[key as int]),
    {
        if key < self.keys_just_pressed.len() {
            self.keys_just_pressed[key]
        } else {
            false
        }
    }

    /// Is either control key held?
    pub fn ctrl(&self) -> (r: bool)
        ensures
            r == ((KEY_LCONTROL < self.keys_pressed@.len() && self.keys_pressed@[KEY_LCONTROL as int])
                || (KEY_RCONTROL < self.keys_pressed@.len() && self.keys_pressed@[
                KEY_RCONTROL as int])),
    {
        self.key_down(KEY_LCONTROL) || self.key_down(KEY_RCONTROL)
    }

    /// Is either shift key held?
    pub fn shift(&self) -> (r: bool)
        ensures
            r == ((KEY_LSHIFT < self.keys_pressed@.len() && self.keys_pressed@[KEY_LSHIFT as int])
                || (KEY_RSHIFT < self.keys_pressed@.len() && self.keys_pressed@[KEY_RSHIFT as int])),
    {
        self.key_down(KEY_LSHIFT) || self.key_down(KEY_RSHIFT)
    }

    /// Is either alt key held?
    pub fn alt(&self) -> (r: bool)
        ensures
            r == ((KEY_LALT < self.keys_pressed@.len() && self.keys_pressed@[KEY_LALT as int])
                || (KEY_RALT < self.keys_pressed@.len() && self.keys_pressed@[KEY_RALT as int])),
    {
        self.key_down(KEY_LALT) || self.key_down(KEY_RALT)
    }
}

impl Default for InputState {
    /// The quiet snapshot: pointer at the origin, nothing pressed, no
    /// character, no wheel movement.
    fn default() -> (s: Self)
        ensures
            s.mouse_x == 0 && s.mouse_y == 0,
            !s.mouse_clicked && !s.mouse_just_clicked,
            s.keys_pressed@ == Seq::new(KEY_SLOTS as nat, |i: int| false),
            s.keys_just_pressed@ == Seq::new(KEY_SLOTS as nat, |i: int| false),
            s.char_input is None,
            s.scroll_delta == 0,
            s.wf(),
    {
        let keys_pressed: [bool; 256] = [false; 256];
        let keys_just_pressed: [bool; 256] = [false; 256];
        proof {
            assert(keys_pressed@ =~= Seq::new(KEY_SLOTS as nat, |i: int| false));
            assert(keys_just_pressed@ =~= Seq::new(KEY_SLOTS as nat, |i: int| false));
        }
        InputState {
            mouse_x: 0,
            mouse_y: 0,
            mouse_clicked: false,
            mouse_just_clicked: false,
            keys_pressed,
            keys_just_pressed,
            char_input: None,
            scroll_delta: 0,
        }
    }
}

} // verus!
