//! Input state between frames: held keys, and whether the mouse steers the
//! camera or is free.

use vstd::prelude::*;

verus! {

/// Number of key codes tracked.
pub const KEY_COUNT: usize = 255;

/// Whether the mouse steers the camera (cursor hidden and grabbed) or moves
/// a free cursor.
#[derive(Clone, Copy, PartialEq, Eq, Structural, Debug)]
pub enum InputMode {
    Cam3d,
    Mouse,
}

impl InputMode {
    /// The other mode.
    pub fn invert(&self) -> (r: InputMode)
        ensures
            r != *self,
    {
        match self {
            InputMode::Cam3d => InputMode::Mouse,
            InputMode::Mouse => InputMode::Cam3d,
        }
    }
}

/// Keys held, input mode, and the frame and quit flags.
pub struct InputState {
    main: bool,
    quit: bool,
    mode: InputMode,
    key_held: Vec<bool>,
}

impl InputState {
    pub closed spec fn main_flag(&self) -> bool {
        self.main
    }

    pub closed spec fn quit_flag(&self) -> bool {
        self.quit
    }

    pub closed spec fn mode_spec(&self) -> InputMode {
        self.mode
    }

    pub closed spec fn keys(&self) -> Seq<bool> {
        self.key_held@
    }

    pub open spec fn wf(&self) -> bool {
        self.keys().len() == KEY_COUNT
    }

    /// No key held, camera mode, no frame pending, no quit.
    pub fn new() -> (r: InputState)
        ensures
            r.wf(),
            r.mode_spec() == InputMode::Cam3d,
            !r.main_flag(),
            !r.quit_flag(),
            forall|k: int| 0 <= k < KEY_COUNT ==> !r.keys()[k],
    {
        InputState {
            main: false,
            quit: false,
            mode: InputMode::Cam3d,
            key_held: vec![false; KEY_COUNT],
        }
    }

    /// The current input mode.
    pub fn mode(&self) -> (r: InputMode)
        ensures
            r == self.mode_spec(),
    {
        self.mode
    }

    /// All events of a frame have arrived.
    pub fn events_cleared(&mut self)
        ensures
            final(self).main_flag(),
            final(self).quit_flag() == old(self).quit_flag(),
            final(self).mode_spec() == old(self).mode_spec(),
            final(self).keys() == old(self).keys(),
    {
        self.main = true;
    }

    /// The window is closing.
    pub fn request_quit(&mut self)
        ensures
            final(self).quit_flag(),
            final(self).main_flag() == old(self).main_flag(),
            final(self).mode_spec() == old(self).mode_spec(),
            final(self).keys() == old(self).keys(),
    {
        self.quit = true;
    }

    /// Key `key` was pressed or released. Escape in camera mode frees the
    /// mouse; the new mode is returned when it changed.
    pub fn key_event(&mut self, key: usize, pressed: bool, escape: bool) -> (r: Option<InputMode>)
        requires
            old(self).wf(),
            key < KEY_COUNT,
        ensures
            final(self).wf(),
            final(self).keys() == old(self).keys().update(key as int, pressed),
            final(self).main_flag() == old(self).main_flag(),
            final(self).quit_flag() == old(self).quit_flag(),
            escape && old(self).mode_spec() == InputMode::Cam3d ==> r == Some(InputMode::Mouse)
                && final(self).mode_spec() == InputMode::Mouse,
            !(escape && old(self).mode_spec() == InputMode::Cam3d) ==> r == None::<InputMode>
                && final(self).mode_spec() == old(self).mode_spec(),
    {
        let mut changed: Option<InputMode> = None;
        if escape && self.mode == InputMode::Cam3d {
            self.mode = InputMode::Mouse;
            changed = Some(InputMode::Mouse);
        }
        self.key_held.set(key, pressed);
        changed
    }

    /// A mouse button was pressed or released. A left click on the free
    /// cursor hands the mouse back to the camera; the new mode is returned
    /// when it changed.
    pub fn mouse_button(&mut self, left: bool, pressed: bool) -> (r: Option<InputMode>)
        ensures
            final(self).keys() == old(self).keys(),
            final(self).main_flag() == old(self).main_flag(),
            final(self).quit_flag() == old(self).quit_flag(),
            left && pressed && old(self).mode_spec() == InputMode::Mouse ==> r == Some(
                InputMode::Cam3d,
            ) && final(self).mode_spec() == InputMode::Cam3d,
            !(left && pressed && old(self).mode_spec() == InputMode::Mouse) ==> r
                == None::<InputMode> && final(self).mode_spec() == old(self).mode_spec(),
    {
        if left && pressed && self.mode == InputMode::Mouse {
            self.mode = InputMode::Cam3d;
            Some(InputMode::Cam3d)
        } else {
            None
        }
    }

    /// The frame's input was consumed.
    pub fn reset(&mut self)
        ensures
            !final(self).main_flag(),
            final(self).quit_flag() == old(self).quit_flag(),
            final(self).mode_spec() == old(self).mode_spec(),
            final(self).keys() == old(self).keys(),
    {
        self.main = false;
    }

    /// Whether the frame's input should be handled now: a frame is ready or
    /// the window is closing.
    pub fn main(&self) -> (r: bool)
        ensures
            r == (self.main_flag() || self.quit_flag()),
    {
        self.main || self.quit
    }

    pub fn quit(&self) -> (r: bool)
        ensures
            r == self.quit_flag(),
    {
        self.quit
    }

    pub fn key_held(&self, key: usize) -> (r: bool)
        requires
            self.wf(),
            key < KEY_COUNT,
        ensures
            r == self.keys()[key as int],
    {
        self.key_held[key]
    }

    /// The movement asked for by three pairs of keys (forward and back, left
    /// and right, up and down): +1, -1 or 0 on each axis, and nothing while
    /// the mouse is free.
    pub fn move_axes(&self, keys: &[usize; 6]) -> (r: (i32, i32, i32))
        requires
            self.wf(),
            forall|i: int| 0 <= i < 6 ==> keys@[i] < KEY_COUNT,
        ensures
            self.mode_spec() == InputMode::Mouse ==> r == (0i32, 0i32, 0i32),
            self.mode_spec() == InputMode::Cam3d ==> r == (
                axis(self.keys(), keys@[0] as int, keys@[1] as int),
                axis(self.keys(), keys@[2] as int, keys@[3] as int),
                axis(self.keys(), keys@[4] as int, keys@[5] as int),
            ),
    {
        match self.mode {
            InputMode::Cam3d => (
                self.key_held[keys[0]] as i32 - self.key_held[keys[1]] as i32,
                self.key_held[keys[2]] as i32 - self.key_held[keys[3]] as i32,
                self.key_held[keys[4]] as i32 - self.key_held[keys[5]] as i32,
            ),
            InputMode::Mouse => (0, 0, 0),
        }
    }
}

/// +1 when only the first key is held, -1 when only the second is, else 0.
pub open spec fn axis(held: Seq<bool>, plus: int, minus: int) -> i32 {
    if held[plus] == held[minus] {
        0i32
    } else if held[plus] {
        1i32
    } else {
        -1i32
    }
}

} // verus!
