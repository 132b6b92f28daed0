//! Per-frame input snapshots built from discrete platform events.
use vstd::prelude::*;

verus! {

/// The state of one digital control within a frame's accumulation window.
#[derive(Clone, Copy, Debug, PartialEq, Eq, Structural)]
pub struct ButtonState {
    /// Number of press edges seen since the window began; a release clears it.
    pub half_transition_count: u32,
    /// Whether the control is held at the end of the window.
    pub ended_down: bool,
}

/// `n + 1`, held at `u32::MAX`.
pub open spec fn bumped(n: u32) -> u32 {
    if n == u32::MAX { n } else { (n + 1) as u32 }
}

impl ButtonState {
    /// A control that is up and has seen no edge.
    pub fn released() -> (r: ButtonState)
        ensures
            r == (ButtonState { half_transition_count: 0, ended_down: false }),
    {
        ButtonState { half_transition_count: 0, ended_down: false }
    }

    /// Records a press edge.
    pub fn press(&mut self)
        ensures
            final(self).ended_down,
            final(self).half_transition_count == bumped(old(self).half_transition_count),
    {
        self.ended_down = true;
        self.half_transition_count = self.half_transition_count.saturating_add(1);
    }

    /// Records a release edge; a release clears the transition count.
    pub fn release(&mut self)
        ensures
            *final(self) == (ButtonState { half_transition_count: 0, ended_down: false }),
    {
        self.ended_down = false;
        self.half_transition_count = 0;
    }
}

/// The digital controls that the input model tracks.
#[derive(Clone, Copy, Debug, PartialEq, Eq, Structural)]
pub enum Control {
    Forward,
    Back,
    StrafeLeft,
    StrafeRight,
    AuxA,
    AuxB,
    MouseButton,
}

/// A transition of a digital control.
#[derive(Clone, Copy, Debug, PartialEq, Eq, Structural)]
pub enum Edge {
    Press,
    Release,
}

/// How mouse motion events are read.
#[derive(Clone, Copy, Debug, PartialEq, Eq, Structural)]
pub enum CursorMode {
    /// Motion events carry deltas, summed over a frame and cleared at its start.
    Relative,
    /// Motion events carry the cursor position; the look offset is the
    /// difference between two frames' positions.
    Absolute,
}

/// One event from the platform layer.
///
/// Mouse coordinates are in pixels; a scroll amount is in thousandths of a
/// wheel step.
#[derive(Clone, Copy, Debug, PartialEq, Eq, Structural)]
pub enum Event {
    Button { control: Control, edge: Edge },
    MouseMotion { x: i32, y: i32 },
    Scroll { dy: i64 },
    Quit,
}

/// `v` held inside the range of `i32`.
pub open spec fn saturate_i32(v: int) -> i32 {
    if v > i32::MAX {
        i32::MAX
    } else if v < i32::MIN {
        i32::MIN
    } else {
        v as i32
    }
}

/// `b` after one edge.
pub open spec fn button_after(b: ButtonState, edge: Edge) -> ButtonState {
    match edge {
        Edge::Press => ButtonState {
            half_transition_count: bumped(b.half_transition_count),
            ended_down: true,
        },
        Edge::Release => ButtonState { half_transition_count: 0, ended_down: false },
    }
}

/// `b` as the next frame starts: the level is kept, the edge count cleared.
pub open spec fn button_carried(b: ButtonState) -> ButtonState {
    ButtonState { half_transition_count: 0, ended_down: b.ended_down }
}

/// The input snapshot of one frame.
#[derive(Clone, Copy, Debug, PartialEq, Eq, Structural)]
pub struct Input {
    pub up: ButtonState,
    pub down: ButtonState,
    pub left: ButtonState,
    pub right: ButtonState,
    pub left_bracket: ButtonState,
    pub right_bracket: ButtonState,
    pub mouse_left: ButtonState,
    /// Summed motion (relative mode) or last cursor position (absolute mode).
    pub mouse_x: i32,
    pub mouse_y: i32,
    /// The latest wheel amount of this frame, in thousandths of a step.
    pub mouse_scroll: i64,
    /// Time since the previous frame, in microseconds.
    pub delta_time: u64,
    pub cursor_mode: CursorMode,
    /// Whether a quit event has been seen.
    pub quit: bool,
}

/// The camera work that one frame's input asks for.
#[derive(Clone, Copy, Debug, PartialEq, Eq, Structural)]
pub struct FrameActions {
    pub move_forward: bool,
    pub move_backward: bool,
    pub move_left: bool,
    pub move_right: bool,
    /// Scroll amount to zoom by, when the scroll value changed.
    pub zoom: Option<i64>,
    /// Look offset, when the mouse moved.
    pub look: Option<LookOffset>,
}

/// A look offset in pixels: `dx` to the right, `dy` upwards.
#[derive(Clone, Copy, Debug, PartialEq, Eq, Structural)]
pub struct LookOffset {
    pub dx: i64,
    pub dy: i64,
}

impl Input {
    pub open spec fn button_spec(self, c: Control) -> ButtonState {
        match c {
            Control::Forward => self.up,
            Control::Back => self.down,
            Control::StrafeLeft => self.left,
            Control::StrafeRight => self.right,
            Control::AuxA => self.left_bracket,
            Control::AuxB => self.right_bracket,
            Control::MouseButton => self.mouse_left,
        }
    }

    /// `self` with the state of control `c` replaced by `b`.
    pub open spec fn with_button(self, c: Control, b: ButtonState) -> Input {
        match c {
            Control::Forward => Input { up: b, ..self },
            Control::Back => Input { down: b, ..self },
            Control::StrafeLeft => Input { left: b, ..self },
            Control::StrafeRight => Input { right: b, ..self },
            Control::AuxA => Input { left_bracket: b, ..self },
            Control::AuxB => Input { right_bracket: b, ..self },
            Control::MouseButton => Input { mouse_left: b, ..self },
        }
    }

    /// The snapshot after one event.
    pub open spec fn after(self, e: Event) -> Input {
        match e {
            Event::Button { control, edge } => self.with_button(
                control,
                button_after(self.button_spec(control), edge),
            ),
            Event::MouseMotion { x, y } => match self.cursor_mode {
                CursorMode::Relative => Input {
                    mouse_x: saturate_i32(self.mouse_x + x),
                    mouse_y: saturate_i32(self.mouse_y + y),
                    ..self
                },
                CursorMode::Absolute => Input { mouse_x: x, mouse_y: y, ..self },
            },
            Event::Scroll { dy } => Input { mouse_scroll: dy, ..self },
            Event::Quit => Input { quit: true, ..self },
        }
    }

    /// The snapshot after the events of `es`, in order.
    pub open spec fn after_all(self, es: Seq<Event>) -> Input
        decreases es.len(),
    {
        if es.len() == 0 {
            self
        } else {
            self.after_all(es.drop_last()).after(es.last())
        }
    }

    /// The snapshot that the next frame starts from.
    pub open spec fn next_frame_spec(self, delta_time: u64) -> Input {
        Input {
            up: button_carried(self.up),
            down: button_carried(self.down),
            left: button_carried(self.left),
            right: button_carried(self.right),
            left_bracket: button_carried(self.left_bracket),
            right_bracket: button_carried(self.right_bracket),
            mouse_left: button_carried(self.mouse_left),
            mouse_x: match self.cursor_mode {
                CursorMode::Relative => 0,
                CursorMode::Absolute => self.mouse_x,
            },
            mouse_y: match self.cursor_mode {
                CursorMode::Relative => 0,
                CursorMode::Absolute => self.mouse_y,
            },
            mouse_scroll: 0,
            delta_time,
            cursor_mode: self.cursor_mode,
            quit: self.quit,
        }
    }

    /// A first snapshot in absolute cursor mode, with the cursor at
    /// `(mouse_x, mouse_y)`.
    pub fn new(mouse_x: i32, mouse_y: i32) -> (r: Input)
        ensures
            r == Input::initial(CursorMode::Absolute, mouse_x, mouse_y),
    {
        Input::with_mode(CursorMode::Absolute, mouse_x, mouse_y)
    }

    pub open spec fn initial(mode: CursorMode, mouse_x: i32, mouse_y: i32) -> Input {
        Input {
            up: ButtonState { half_transition_count: 0, ended_down: false },
            down: ButtonState { half_transition_count: 0, ended_down: false },
            left: ButtonState { half_transition_count: 0, ended_down: false },
            right: ButtonState { half_transition_count: 0, ended_down: false },
            left_bracket: ButtonState { half_transition_count: 0, ended_down: false },
            right_bracket: ButtonState { half_transition_count: 0, ended_down: false },
            mouse_left: ButtonState { half_transition_count: 0, ended_down: false },
            mouse_x,
            mouse_y,
            mouse_scroll: 0,
            delta_time: 0,
            cursor_mode: mode,
            quit: false,
        }
    }

    /// A first snapshot: every control up, no scroll, no time elapsed.
    pub fn with_mode(mode: CursorMode, mouse_x: i32, mouse_y: i32) -> (r: Input)
        ensures
            r == Input::initial(mode, mouse_x, mouse_y),
    {
        Input {
            up: ButtonState::released(),
            down: ButtonState::released(),
            left: ButtonState::released(),
            right: ButtonState::released(),
            left_bracket: ButtonState::released(),
            right_bracket: ButtonState::released(),
            mouse_left: ButtonState::released(),
            mouse_x,
            mouse_y,
            mouse_scroll: 0,
            delta_time: 0,
            cursor_mode: mode,
            quit: false,
        }
    }

    /// The state of control `c`.
    pub fn button(&self, c: Control) -> (r: ButtonState)
        ensures
            r == self.button_spec(c),
    {
        match c {
            Control::Forward => self.up,
            Control::Back => self.down,
            Control::StrafeLeft => self.left,
            Control::StrafeRight => self.right,
            Control::AuxA => self.left_bracket,
            Control::AuxB => self.right_bracket,
            Control::MouseButton => self.mouse_left,
        }
    }

    fn button_mut(&mut self, c: Control) -> (r: &mut ButtonState)
        ensures
            *r == old(self).button_spec(c),
            *final(self) == old(self).with_button(c, *final(r)),
    {
        match c {
            Control::Forward => &mut self.up,
            Control::Back => &mut self.down,
            Control::StrafeLeft => &mut self.left,
            Control::StrafeRight => &mut self.right,
            Control::AuxA => &mut self.left_bracket,
            Control::AuxB => &mut self.right_bracket,
            Control::MouseButton => &mut self.mouse_left,
        }
    }

    /// Applies one platform event to this frame's snapshot.
    pub fn apply(&mut self, e: Event)
        ensures
            *final(self) == old(self).after(e),
    {
        match e {
            Event::Button { control, edge } => {
                let b = self.button_mut(control);
                match edge {
                    Edge::Press => b.press(),
                    Edge::Release => b.release(),
                }
            },
            Event::MouseMotion { x, y } => match self.cursor_mode {
                CursorMode::Relative => {
                    self.mouse_x = saturating_add_i32(self.mouse_x, x);
                    self.mouse_y = saturating_add_i32(self.mouse_y, y);
                },
                CursorMode::Absolute => {
                    self.mouse_x = x;
                    self.mouse_y = y;
                },
            },
            Event::Scroll { dy } => {
                self.mouse_scroll = dy;
            },
            Event::Quit => {
                self.quit = true;
            },
        }
    }
}

impl Input {
    /// Applies the events of `events` to this frame's snapshot, in order.
    pub fn apply_all(&mut self, events: &Vec<Event>)
        ensures
            *final(self) == old(self).after_all(events@),
    {
        let n = events.len();
        let mut i: usize = 0;
        while i < n
            invariant
                n == events@.len(),
                i <= n,
                *self == old(self).after_all(events@.take(i as int)),
            decreases n - i,
        {
            proof {
                assert(events@.take(i + 1).drop_last() =~= events@.take(i as int));
            }
            self.apply(events[i]);
            i = i + 1;
        }
        proof {
            assert(events@.take(n as int) =~= events@);
        }
    }

    /// The snapshot that the next frame starts from: every control keeps its
    /// level and loses its edge count, the scroll amount is cleared, relative
    /// motion is cleared, an absolute cursor position is kept.
    pub fn next_frame(&self, delta_time: u64) -> (r: Input)
        ensures
            r == self.next_frame_spec(delta_time),
    {
        let relative = match self.cursor_mode {
            CursorMode::Relative => true,
            CursorMode::Absolute => false,
        };
        Input {
            up: self.up.carried(),
            down: self.down.carried(),
            left: self.left.carried(),
            right: self.right.carried(),
            left_bracket: self.left_bracket.carried(),
            right_bracket: self.right_bracket.carried(),
            mouse_left: self.mouse_left.carried(),
            mouse_x: if relative { 0 } else { self.mouse_x },
            mouse_y: if relative { 0 } else { self.mouse_y },
            mouse_scroll: 0,
            delta_time,
            cursor_mode: self.cursor_mode,
            quit: self.quit,
        }
    }
}

impl ButtonState {
    /// This control as the next frame starts.
    pub fn carried(&self) -> (r: ButtonState)
        ensures
            r == button_carried(*self),
    {
        ButtonState { half_transition_count: 0, ended_down: self.ended_down }
    }
}

/// The look offset between the snapshots `prev` and `cur`, if the mouse moved.
pub open spec fn look_spec(prev: Input, cur: Input) -> Option<LookOffset> {
    match cur.cursor_mode {
        CursorMode::Relative => if cur.mouse_x != 0 || cur.mouse_y != 0 {
            Some(LookOffset { dx: cur.mouse_x as i64, dy: -cur.mouse_y as i64 })
        } else {
            None
        },
        CursorMode::Absolute => if prev.mouse_x != cur.mouse_x || prev.mouse_y != cur.mouse_y {
            Some(
                LookOffset {
                    dx: (cur.mouse_x - prev.mouse_x) as i64,
                    dy: (prev.mouse_y - cur.mouse_y) as i64,
                },
            )
        } else {
            None
        },
    }
}

/// What the frame with snapshot `cur`, following `prev`, asks of the camera:
/// held movement controls move it, a changed scroll value zooms by the new
/// value, mouse motion turns it.
pub open spec fn frame_actions_spec(prev: Input, cur: Input) -> FrameActions {
    FrameActions {
        move_forward: cur.up.ended_down,
        move_backward: cur.down.ended_down,
        move_left: cur.left.ended_down,
        move_right: cur.right.ended_down,
        zoom: if prev.mouse_scroll != cur.mouse_scroll {
            Some(cur.mouse_scroll)
        } else {
            None
        },
        look: look_spec(prev, cur),
    }
}

/// Compares the snapshots of two consecutive frames and decides what the
/// camera is to do in the second.
pub fn frame_actions(prev: &Input, cur: &Input) -> (r: FrameActions)
    ensures
        r == frame_actions_spec(*prev, *cur),
{
    let look = match cur.cursor_mode {
        CursorMode::Relative => if cur.mouse_x != 0 || cur.mouse_y != 0 {
            Some(LookOffset { dx: cur.mouse_x as i64, dy: -(cur.mouse_y as i64) })
        } else {
            None
        },
        CursorMode::Absolute => if prev.mouse_x != cur.mouse_x || prev.mouse_y != cur.mouse_y {
            Some(
                LookOffset {
                    dx: cur.mouse_x as i64 - prev.mouse_x as i64,
                    dy: prev.mouse_y as i64 - cur.mouse_y as i64,
                },
            )
        } else {
            None
        },
    };
    FrameActions {
        move_forward: cur.up.ended_down,
        move_backward: cur.down.ended_down,
        move_left: cur.left.ended_down,
        move_right: cur.right.ended_down,
        zoom: if prev.mouse_scroll != cur.mouse_scroll {
            Some(cur.mouse_scroll)
        } else {
            None
        },
        look,
    }
}

/// A press followed by a release of the same control leaves it up with no
/// transitions counted, whatever it was before.
pub proof fn lemma_press_then_release(inp: Input, c: Control)
    ensures
        ({
            let es = seq![
                Event::Button { control: c, edge: Edge::Press },
                Event::Button { control: c, edge: Edge::Release },
            ];
            inp.after_all(es).button_spec(c) == ButtonState {
                half_transition_count: 0,
                ended_down: false,
            }
        }),
{
    let es = seq![
        Event::Button { control: c, edge: Edge::Press },
        Event::Button { control: c, edge: Edge::Release },
    ];
    assert(es.drop_last().drop_last() =~= Seq::<Event>::empty());
    lemma_with_button_reads_back(inp.after_all(es.drop_last()), c, ButtonState {
        half_transition_count: 0,
        ended_down: false,
    });
}

/// Three presses of a control in a new frame, with no release between them,
/// leave it down with three transitions counted.
pub proof fn lemma_three_presses(prev: Input, delta_time: u64, c: Control)
    ensures
        ({
            let p = Event::Button { control: c, edge: Edge::Press };
            prev.next_frame_spec(delta_time).after_all(seq![p, p, p]).button_spec(c)
                == ButtonState { half_transition_count: 3, ended_down: true }
        }),
{
    let p = Event::Button { control: c, edge: Edge::Press };
    let es = seq![p, p, p];
    let start = prev.next_frame_spec(delta_time);
    assert(start.button_spec(c).half_transition_count == 0);
    let i1 = start.after(p);
    lemma_with_button_reads_back(start, c, button_after(start.button_spec(c), Edge::Press));
    let i2 = i1.after(p);
    lemma_with_button_reads_back(i1, c, button_after(i1.button_spec(c), Edge::Press));
    lemma_with_button_reads_back(i2, c, button_after(i2.button_spec(c), Edge::Press));
    assert(start.after_all(seq![p]) == i1) by {
        assert(seq![p].drop_last() =~= Seq::<Event>::empty());
        assert(seq![p].last() == p);
        assert(start.after_all(Seq::<Event>::empty()) == start);
    }
    assert(start.after_all(seq![p, p]) == i2) by {
        assert(seq![p, p].drop_last() =~= seq![p]);
        assert(seq![p, p].last() == p);
    }
    assert(es.drop_last() =~= seq![p, p]);
    assert(es.last() == p);
    assert(start.after_all(es) == i2.after(p));
}

/// Within a frame the latest scroll event wins: scroll amounts are not summed.
pub proof fn lemma_scroll_overwrites(inp: Input, first: i64, second: i64)
    ensures
        inp.after_all(seq![Event::Scroll { dy: first }, Event::Scroll { dy: second }]).mouse_scroll
            == second,
{
    let es = seq![Event::Scroll { dy: first }, Event::Scroll { dy: second }];
    assert(es.drop_last().drop_last() =~= Seq::<Event>::empty());
}

proof fn lemma_with_button_reads_back(inp: Input, c: Control, b: ButtonState)
    ensures
        inp.with_button(c, b).button_spec(c) == b,
{
}

fn saturating_add_i32(a: i32, b: i32) -> (r: i32)
    ensures
        r == saturate_i32(a + b),
{
    let s: i64 = a as i64 + b as i64;
    if s > i32::MAX as i64 {
        i32::MAX
    } else if s < i32::MIN as i64 {
        i32::MIN
    } else {
        s as i32
    }
}

} // verus!
