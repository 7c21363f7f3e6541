use vstd::prelude::*;
use std::collections::HashSet;
use crate::engine::event::{Event, MouseButton, KEY_ESCAPE};

verus! {

broadcast use vstd::std_specs::hash::group_hash_axioms;

/// The keyboard and mouse as the game sees them: the keys held, the keys
/// that went down during the current frame, the mouse motion of the frame
/// in pixels, the left button, and whether Escape has asked to quit.
pub struct InputState {
    pub keys_down: HashSet<i32>,
    pub keys_pressed: HashSet<i32>,
    pub mouse_delta: (i64, i64),
    pub mouse_left: bool,
    pub quit_requested: bool,
}

/// What the event loop does after an event has been recorded.
#[derive(Copy, Clone, Debug, PartialEq, Eq, Structural)]
pub enum PollStep {
    /// Stop: the window was closed.
    Quit,
    /// Go on with a window of this size.
    Resize(u32, u32),
    /// Go on.
    Continue,
}

/// `a + b`, held to the range of `i64`.
pub open spec fn clamped_sum(a: i64, b: i32) -> i64 {
    if a + b > i64::MAX {
        i64::MAX
    } else if a + b < i64::MIN {
        i64::MIN
    } else {
        (a + b) as i64
    }
}

/// Whether `event` is a first key-down of Escape.
pub open spec fn presses_escape(event: Event) -> bool {
    match event {
        Event::KeyDown { keycode: Some(k), repeat: false } => k == KEY_ESCAPE,
        _ => false,
    }
}

fn add_clamped(a: i64, b: i32) -> (r: i64)
    ensures
        r == clamped_sum(a, b),
{
    match a.checked_add(b as i64) {
        Some(s) => s,
        None => if b > 0 {
            i64::MAX
        } else {
            i64::MIN
        },
    }
}

impl Default for InputState {
    fn default() -> (s: Self)
        ensures
            s.keys_down@ == Set::<i32>::empty(),
            s.keys_pressed@ == Set::<i32>::empty(),
            s.mouse_delta == (0i64, 0i64),
            !s.mouse_left,
            !s.quit_requested,
    {
        InputState {
            keys_down: HashSet::new(),
            keys_pressed: HashSet::new(),
            mouse_delta: (0, 0),
            mouse_left: false,
            quit_requested: false,
        }
    }
}

impl InputState {
    /// Whether `key` is held.
    pub fn key_down(&self, key: i32) -> (r: bool)
        ensures
            r == self.keys_down@.contains(key),
    {
        self.keys_down.contains(&key)
    }

    /// Whether `key` went down during the current frame.
    pub fn key_pressed(&self, key: i32) -> (r: bool)
        ensures
            r == self.keys_pressed@.contains(key),
    {
        self.keys_pressed.contains(&key)
    }

    /// Forgets the presses and the mouse motion of the frame that ends.
    pub fn end_frame(&mut self)
        ensures
            final(self).keys_pressed@ == Set::<i32>::empty(),
            final(self).mouse_delta == (0i64, 0i64),
            final(self).keys_down@ == old(self).keys_down@,
            final(self).mouse_left == old(self).mouse_left,
            final(self).quit_requested == old(self).quit_requested,
    {
        self.keys_pressed.clear();
        self.mouse_delta = (0, 0);
    }

    /// Records what `event` says about the keyboard and the mouse, and says
    /// how the event loop goes on: a first key-down (not a repeat) holds the
    /// key and counts as a press, Escape also asks to quit; a key-up releases
    /// the key; mouse motion adds up; the left button is tracked; a window
    /// close stops the loop; a size change is passed on.
    pub fn record_event(&mut self, event: &Event) -> (step: PollStep)
        ensures
            step == (match event {
                Event::Quit => PollStep::Quit,
                Event::SizeChanged { w, h } => PollStep::Resize(*w as u32, *h as u32),
                _ => PollStep::Continue,
            }),
            final(self).keys_down@ == (match event {
                Event::KeyDown { keycode: Some(k), repeat: false } => old(self).keys_down@.insert(*k),
                Event::KeyUp { keycode: Some(k) } => old(self).keys_down@.remove(*k),
                _ => old(self).keys_down@,
            }),
            final(self).keys_pressed@ == (match event {
                Event::KeyDown { keycode: Some(k), repeat: false } => old(self).keys_pressed@.insert(*k),
                _ => old(self).keys_pressed@,
            }),
            final(self).quit_requested == (old(self).quit_requested || presses_escape(*event)),
            final(self).mouse_delta == (match event {
                Event::MouseMotion { xrel, yrel } => (
                    clamped_sum(old(self).mouse_delta.0, *xrel),
                    clamped_sum(old(self).mouse_delta.1, *yrel),
                ),
                _ => old(self).mouse_delta,
            }),
            final(self).mouse_left == (match event {
                Event::MouseButtonDown { mouse_btn: MouseButton::Left, .. } => true,
                Event::MouseButtonUp { mouse_btn: MouseButton::Left } => false,
                _ => old(self).mouse_left,
            }),
    {
        match event {
            Event::Quit => PollStep::Quit,
            Event::KeyDown { keycode: Some(key), repeat: false } => {
                self.keys_down.insert(*key);
                self.keys_pressed.insert(*key);
                if *key == KEY_ESCAPE {
                    self.quit_requested = true;
                }
                PollStep::Continue
            },
            Event::KeyUp { keycode: Some(key) } => {
                self.keys_down.remove(key);
                PollStep::Continue
            },
            Event::MouseMotion { xrel, yrel } => {
                let dx = add_clamped(self.mouse_delta.0, *xrel);
                let dy = add_clamped(self.mouse_delta.1, *yrel);
                self.mouse_delta = (dx, dy);
                PollStep::Continue
            },
            Event::MouseButtonDown { mouse_btn: MouseButton::Left, .. } => {
                self.mouse_left = true;
                PollStep::Continue
            },
            Event::MouseButtonUp { mouse_btn: MouseButton::Left } => {
                self.mouse_left = false;
                PollStep::Continue
            },
            Event::SizeChanged { w, h } => PollStep::Resize(*w as u32, *h as u32),
            _ => PollStep::Continue,
        }
    }
}

} // verus!
