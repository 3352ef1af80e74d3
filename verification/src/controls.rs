//! Edge-triggered key state, decoupled from the window event stream.
//!
//! Each logical action keeps two booleans: whether its key was held at the
//! end of the previous frame and whether it is held now. Every derived
//! predicate (`down`, `up`, `just_down`, `just_up`) is computed from those
//! two alone. A frame begins by copying `this_frame` into `last_frame`,
//! then folds the frame's raw key events into `this_frame`.

use vstd::prelude::*;

verus! {

/// A raw key, already narrowed to the keys the game reacts to. The host
/// maps every other key code to `Other`, which every routine ignores.
#[derive(Clone, Copy, Debug, PartialEq, Eq, Structural)]
pub enum Key {
    W,
    A,
    S,
    D,
    Up,
    Down,
    Left,
    Right,
    B,
    Escape,
    Other,
}

/// A raw key transition reported by the window.
#[derive(Clone, Copy, Debug, PartialEq, Eq, Structural)]
pub enum KeyAction {
    Press,
    Release,
    Repeat,
}

/// One logical action's state across two frames.
#[derive(Clone, Copy, Debug, PartialEq, Eq, Structural)]
pub struct Control {
    pub last_frame: bool,
    pub this_frame: bool,
}

impl Control {
    /// The key is held this frame.
    pub open spec fn spec_down(self) -> bool {
        self.this_frame
    }

    /// The key is not held this frame.
    pub open spec fn spec_up(self) -> bool {
        !self.this_frame
    }

    /// The key went from released to held since the previous frame.
    pub open spec fn spec_just_down(self) -> bool {
        self.this_frame && !self.last_frame
    }

    /// The key went from held to released since the previous frame.
    pub open spec fn spec_just_up(self) -> bool {
        !self.this_frame && self.last_frame
    }

    /// State at the start of a frame: the previous frame's state is
    /// remembered, clearing both edges until a new event arrives.
    pub open spec fn spec_frame_start(self) -> Control {
        Control { last_frame: self.this_frame, this_frame: self.this_frame }
    }

    /// State after folding in one raw key transition.
    pub open spec fn spec_after_input(self, action: KeyAction) -> Control {
        match action {
            KeyAction::Press => Control { this_frame: true, ..self },
            KeyAction::Release => Control { this_frame: false, ..self },
            KeyAction::Repeat => self,
        }
    }

    pub fn new() -> (c: Control)
        ensures
            c == (Control { last_frame: false, this_frame: false }),
    {
        Control { last_frame: false, this_frame: false }
    }

    pub fn down(&self) -> (r: bool)
        ensures
            r == self.spec_down(),
    {
        self.this_frame
    }

    pub fn up(&self) -> (r: bool)
        ensures
            r == self.spec_up(),
    {
        !self.this_frame
    }

    pub fn just_down(&self) -> (r: bool)
        ensures
            r == self.spec_just_down(),
    {
        self.this_frame && !self.last_frame
    }

    pub fn just_up(&self) -> (r: bool)
        ensures
            r == self.spec_just_up(),
    {
        !self.this_frame && self.last_frame
    }

    /// Frame-start bookkeeping: forget the edge by aligning the remembered
    /// state with the current one.
    pub fn check_just_down(&mut self)
        ensures
            *final(self) == old(self).spec_frame_start(),
    {
        self.last_frame = self.this_frame;
    }

    /// Fold one raw key transition into the current frame's state.
    pub fn process_input(&mut self, action: KeyAction)
        ensures
            *final(self) == old(self).spec_after_input(action),
    {
        match action {
            KeyAction::Press => {
                self.this_frame = true;
            }
            KeyAction::Release => {
                self.this_frame = false;
            }
            KeyAction::Repeat => {}
        }
    }
}

/// The fixed set of logical actions the game tracks.
#[derive(Clone, Copy, Debug, PartialEq, Eq, Structural)]
pub struct Controls {
    pub up: Control,
    pub down: Control,
    pub left: Control,
    pub right: Control,
    pub debug: Control,
}

/// Which tracked control a key feeds, if any. `Escape` is deliberately
/// unmapped: the host treats it as a close request, not as a control.
pub open spec fn spec_key_target(key: Key) -> Option<KeySlot> {
    match key {
        Key::W | Key::Up => Some(KeySlot::Up),
        Key::S | Key::Down => Some(KeySlot::Down),
        Key::A | Key::Left => Some(KeySlot::Left),
        Key::D | Key::Right => Some(KeySlot::Right),
        Key::B => Some(KeySlot::Debug),
        Key::Escape | Key::Other => None,
    }
}

/// Names one field of `Controls`.
#[derive(Clone, Copy, Debug, PartialEq, Eq, Structural)]
pub enum KeySlot {
    Up,
    Down,
    Left,
    Right,
    Debug,
}

impl Controls {
    /// All controls at frame start.
    pub open spec fn spec_frame_start(self) -> Controls {
        Controls {
            up: self.up.spec_frame_start(),
            down: self.down.spec_frame_start(),
            left: self.left.spec_frame_start(),
            right: self.right.spec_frame_start(),
            debug: self.debug.spec_frame_start(),
        }
    }

    /// All controls after routing one key event; unmapped keys change
    /// nothing.
    pub open spec fn spec_after_key(self, key: Key, action: KeyAction) -> Controls {
        match spec_key_target(key) {
            Some(KeySlot::Up) => Controls { up: self.up.spec_after_input(action), ..self },
            Some(KeySlot::Down) => Controls { down: self.down.spec_after_input(action), ..self },
            Some(KeySlot::Left) => Controls { left: self.left.spec_after_input(action), ..self },
            Some(KeySlot::Right) => Controls {
                right: self.right.spec_after_input(action),
                ..self
            },
            Some(KeySlot::Debug) => Controls {
                debug: self.debug.spec_after_input(action),
                ..self
            },
            None => self,
        }
    }

    /// Every control released, with no pending edge.
    pub open spec fn new_spec() -> Controls {
        Controls {
            up: Control::new_spec(),
            down: Control::new_spec(),
            left: Control::new_spec(),
            right: Control::new_spec(),
            debug: Control::new_spec(),
        }
    }

    pub fn new() -> (c: Controls)
        ensures
            c == Controls::new_spec(),
    {
        Controls {
            up: Control::new(),
            down: Control::new(),
            left: Control::new(),
            right: Control::new(),
            debug: Control::new(),
        }
    }

    /// Run every control's frame-start bookkeeping.
    pub fn begin_frame(&mut self)
        ensures
            *final(self) == old(self).spec_frame_start(),
    {
        self.up.check_just_down();
        self.down.check_just_down();
        self.left.check_just_down();
        self.right.check_just_down();
        self.debug.check_just_down();
    }

    /// Route one raw key event to the control it drives; unmapped keys are
    /// ignored.
    pub fn process_key(&mut self, key: Key, action: KeyAction)
        ensures
            *final(self) == old(self).spec_after_key(key, action),
    {
        match key {
            Key::W | Key::Up => self.up.process_input(action),
            Key::S | Key::Down => self.down.process_input(action),
            Key::A | Key::Left => self.left.process_input(action),
            Key::D | Key::Right => self.right.process_input(action),
            Key::B => self.debug.process_input(action),
            Key::Escape | Key::Other => {}
        }
    }
}

impl Control {
    /// The released, edge-free state `Control::new` returns.
    pub open spec fn new_spec() -> Control {
        Control { last_frame: false, this_frame: false }
    }
}

/// A control after a whole frame: frame-start bookkeeping, then the
/// frame's raw events in order.
pub open spec fn spec_run_frame(c: Control, actions: Seq<KeyAction>) -> Control {
    spec_run_events(c.spec_frame_start(), actions)
}

/// Fold raw events into a control, oldest first.
pub open spec fn spec_run_events(c: Control, actions: Seq<KeyAction>) -> Control
    decreases actions.len(),
{
    if actions.len() == 0 {
        c
    } else {
        spec_run_events(c.spec_after_input(actions[0]), actions.drop_first())
    }
}

/// Events never touch the remembered previous-frame state.
proof fn lemma_run_events_keeps_last_frame(c: Control, actions: Seq<KeyAction>)
    ensures
        spec_run_events(c, actions).last_frame == c.last_frame,
    decreases actions.len(),
{
    if actions.len() > 0 {
        lemma_run_events_keeps_last_frame(c.spec_after_input(actions[0]), actions.drop_first());
    }
}

/// Edge flags are exactly the frame-to-frame transitions: after any frame,
/// `just_down` holds if and only if the control is down now and was up at
/// the end of the previous frame, and `just_up` dually. So a press out of
/// the released state shows `just_down` for exactly the one frame in which
/// it happened, a release out of the held state shows `just_up` for exactly
/// one frame, and `down`/`up` are stable across frames without events.
pub proof fn lemma_edge_detection(c: Control, actions: Seq<KeyAction>)
    ensures
        spec_run_frame(c, actions).spec_just_down() == (spec_run_frame(c, actions).spec_down()
            && !c.spec_down()),
        spec_run_frame(c, actions).spec_just_up() == (!spec_run_frame(c, actions).spec_down()
            && c.spec_down()),
        actions.len() == 0 ==> spec_run_frame(c, actions).spec_down() == c.spec_down(),
{
    lemma_run_events_keeps_last_frame(c.spec_frame_start(), actions);
}

/// The one-frame pulse, spelled out over two consecutive frames: a press
/// edge raises `just_down` for its own frame, and the flag falls again on
/// the next frame whatever that frame's events do, as long as the key
/// stays held.
pub proof fn lemma_just_down_one_frame(
    c: Control,
    first: Seq<KeyAction>,
    second: Seq<KeyAction>,
)
    requires
        !c.spec_down(),
        spec_run_frame(c, first).spec_down(),
        spec_run_frame(spec_run_frame(c, first), second).spec_down(),
    ensures
        spec_run_frame(c, first).spec_just_down(),
        !spec_run_frame(spec_run_frame(c, first), second).spec_just_down(),
{
    lemma_edge_detection(c, first);
    lemma_edge_detection(spec_run_frame(c, first), second);
}

} // verus!
