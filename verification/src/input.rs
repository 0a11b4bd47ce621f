//! Input history buffer: one raw controller sample per slot per frame,
//! an append-only, truncatable sequence of recorded frames, and the derived
//! edge-triggered logical view of a frame relative to its predecessor.
//!
//! Analog axes are fixed-point integers: sticks range over the signed raw
//! units delivered by an adapter, triggers over its unsigned units. The
//! device-specific byte decoding that produces them is not part of the core.

use vstd::prelude::*;

verus! {

/// One frame's raw readings for one controller slot. Immutable once recorded.
#[derive(Clone, Copy, Debug, PartialEq, Eq, Structural)]
pub struct ControllerInput {
    pub plugged_in: bool,

    pub a: bool,
    pub b: bool,
    pub x: bool,
    pub y: bool,
    pub left: bool,
    pub right: bool,
    pub down: bool,
    pub up: bool,
    pub start: bool,
    pub z: bool,
    pub r: bool,
    pub l: bool,

    pub stick_x: i16,
    pub stick_y: i16,
    pub c_stick_x: i16,
    pub c_stick_y: i16,
    pub r_trigger: i16,
    pub l_trigger: i16,
}

/// A digital button as seen by the game: current level plus the
/// off-to-on edge relative to the previous recorded frame.
#[derive(Clone, Copy, Debug, PartialEq, Eq, Structural)]
pub struct Button {
    /// on
    pub value: bool,
    /// off -> on this frame
    pub press: bool,
}

/// An analog stick axis: current value plus the change since the
/// previous recorded frame.
#[derive(Clone, Copy, Debug, PartialEq, Eq, Structural)]
pub struct Stick {
    pub value: i16,
    pub diff: i32,
}

/// An analog trigger: current value plus the change since the
/// previous recorded frame.
#[derive(Clone, Copy, Debug, PartialEq, Eq, Structural)]
pub struct Trigger {
    pub value: i16,
    pub diff: i32,
}

/// Derived per-slot view of one frame: never stored, always recomputable
/// from the two adjacent raw samples.
#[derive(Clone, Copy, Debug, PartialEq, Eq, Structural)]
pub struct PlayerInput {
    pub plugged_in: bool,

    pub a: Button,
    pub b: Button,
    pub x: Button,
    pub y: Button,
    pub left: Button,
    pub right: Button,
    pub down: Button,
    pub up: Button,
    pub start: Button,
    pub z: Button,
    pub r: Button,
    pub l: Button,

    pub stick_x: Stick,
    pub stick_y: Stick,
    pub c_stick_x: Stick,
    pub c_stick_y: Stick,
    pub r_trigger: Trigger,
    pub l_trigger: Trigger,
}

/// Requesting logical input or a snapshot beyond the recorded range.
#[derive(Clone, Copy, Debug, PartialEq, Eq, Structural)]
pub struct OutOfRange;

/// The defined neutral raw sample: unplugged, no buttons, centered axes.
pub open spec fn neutral_sample() -> ControllerInput {
    ControllerInput {
        plugged_in: false,
        a: false,
        b: false,
        x: false,
        y: false,
        left: false,
        right: false,
        down: false,
        up: false,
        start: false,
        z: false,
        r: false,
        l: false,
        stick_x: 0i16,
        stick_y: 0i16,
        c_stick_x: 0i16,
        c_stick_y: 0i16,
        r_trigger: 0i16,
        l_trigger: 0i16,
    }
}

/// A row of neutral samples, one per controller slot.
pub open spec fn neutral_row(count: nat) -> Seq<ControllerInput> {
    Seq::new(count, |i: int| neutral_sample())
}

/// The all-neutral derived view: no level, no edge, centered axes.
pub open spec fn neutral_input() -> PlayerInput {
    PlayerInput {
        plugged_in: false,
        a: Button { value: false, press: false },
        b: Button { value: false, press: false },
        x: Button { value: false, press: false },
        y: Button { value: false, press: false },
        left: Button { value: false, press: false },
        right: Button { value: false, press: false },
        down: Button { value: false, press: false },
        up: Button { value: false, press: false },
        start: Button { value: false, press: false },
        z: Button { value: false, press: false },
        r: Button { value: false, press: false },
        l: Button { value: false, press: false },
        stick_x: Stick { value: 0i16, diff: 0i32 },
        stick_y: Stick { value: 0i16, diff: 0i32 },
        c_stick_x: Stick { value: 0i16, diff: 0i32 },
        c_stick_y: Stick { value: 0i16, diff: 0i32 },
        r_trigger: Trigger { value: 0i16, diff: 0i32 },
        l_trigger: Trigger { value: 0i16, diff: 0i32 },
    }
}

/// A button edge: pressed this frame iff on now and off on the previous frame.
pub open spec fn spec_button(cur: bool, prev: bool) -> Button {
    Button { value: cur, press: cur && !prev }
}

/// A stick axis delta relative to the previous frame.
pub open spec fn spec_stick(cur: i16, prev: i16) -> Stick {
    Stick { value: cur, diff: (cur - prev) as i32 }
}

/// A trigger delta relative to the previous frame.
pub open spec fn spec_trigger(cur: i16, prev: i16) -> Trigger {
    Trigger { value: cur, diff: (cur - prev) as i32 }
}

/// The derived view of one slot: edges and deltas against the previous
/// sample; an unplugged slot yields the neutral view regardless of its
/// stale raw values, so disconnects never produce phantom presses.
pub open spec fn spec_logical_one(cur: ControllerInput, prev: ControllerInput) -> PlayerInput {
    if cur.plugged_in {
        PlayerInput {
            plugged_in: true,
            a: spec_button(cur.a, prev.a),
            b: spec_button(cur.b, prev.b),
            x: spec_button(cur.x, prev.x),
            y: spec_button(cur.y, prev.y),
            left: spec_button(cur.left, prev.left),
            right: spec_button(cur.right, prev.right),
            down: spec_button(cur.down, prev.down),
            up: spec_button(cur.up, prev.up),
            start: spec_button(cur.start, prev.start),
            z: spec_button(cur.z, prev.z),
            r: spec_button(cur.r, prev.r),
            l: spec_button(cur.l, prev.l),
            stick_x: spec_stick(cur.stick_x, prev.stick_x),
            stick_y: spec_stick(cur.stick_y, prev.stick_y),
            c_stick_x: spec_stick(cur.c_stick_x, prev.c_stick_x),
            c_stick_y: spec_stick(cur.c_stick_y, prev.c_stick_y),
            r_trigger: spec_trigger(cur.r_trigger, prev.r_trigger),
            l_trigger: spec_trigger(cur.l_trigger, prev.l_trigger),
        }
    } else {
        neutral_input()
    }
}

/// The derived view of a whole frame, slot by slot.
pub open spec fn spec_logical_row(
    cur: Seq<ControllerInput>,
    prev: Seq<ControllerInput>,
) -> Seq<PlayerInput> {
    Seq::new(cur.len(), |i: int| spec_logical_one(cur[i], prev[i]))
}

/// The derived view of recorded frame `frame`: computed from the samples at
/// `frame` and `frame - 1`; the frame before the first has no recorded
/// predecessor, so its place is taken by the defined neutral row.
pub open spec fn spec_logical(
    samples: Seq<Seq<ControllerInput>>,
    count: nat,
    frame: int,
) -> Seq<PlayerInput> {
    spec_logical_row(
        samples[frame],
        if frame == 0 {
            neutral_row(count)
        } else {
            samples[frame - 1]
        },
    )
}

/// A captured row normalized to the configured slot count: extra entries are
/// dropped, missing slots are filled with the neutral sample.
pub open spec fn spec_normalize(row: Seq<ControllerInput>, count: nat) -> Seq<ControllerInput> {
    Seq::new(count, |i: int| if i < row.len() { row[i] } else { neutral_sample() })
}

/// Whether any slot of a row holds the start button down.
pub open spec fn spec_any_start(row: Seq<ControllerInput>) -> bool {
    exists|k: int| 0 <= k < row.len() && row[k].start
}

/// The mathematical state of the input history buffer.
#[verifier::ext_equal]
pub ghost struct InputView {
    /// One recorded row per frame; `samples[f]` is frame `f`'s row.
    pub samples: Seq<Seq<ControllerInput>>,
    /// The row captured for the tick in progress, not yet committed.
    pub current: Seq<ControllerInput>,
    /// The fixed number of controller slots.
    pub count: nat,
    /// Whether start was held on the previous menu-level poll.
    pub prev_start: bool,
}

/// Start-edge detection at the menu level: true on the frame start goes down.
pub open spec fn spec_start_press(i: InputView) -> bool {
    !i.prev_start && spec_any_start(i.current)
}

/// The buffer after a menu-level start poll: the held level is remembered.
pub open spec fn spec_after_start_poll(i: InputView) -> InputView {
    InputView { prev_start: spec_any_start(i.current), ..i }
}

/// The buffer after committing the captured row as frame `frame`: any
/// previously recorded rows at indices at or beyond `frame` are discarded
/// first, so recording never leaves a stale future behind.
pub open spec fn spec_record(i: InputView, frame: int) -> InputView {
    InputView { samples: i.samples.take(frame).push(i.current), ..i }
}

/// The input history buffer. It owns every recorded sample; nothing outside
/// the core mutates a row once committed.
pub struct Input {
    empty_inputs: Vec<ControllerInput>,
    current_inputs: Vec<ControllerInput>,
    game_inputs: Vec<Vec<ControllerInput>>,
    prev_start: bool,
}

impl View for Input {
    type V = InputView;

    closed spec fn view(&self) -> InputView {
        InputView {
            samples: self.game_inputs@.map_values(|v: Vec<ControllerInput>| v@),
            current: self.current_inputs@,
            count: self.empty_inputs@.len(),
            prev_start: self.prev_start,
        }
    }
}

/// Every row, recorded or captured, spans exactly the configured slots.
pub open spec fn wf_input(i: InputView) -> bool {
    &&& i.current.len() == i.count
    &&& forall|f: int| 0 <= f < i.samples.len() ==> (#[trigger] i.samples[f]).len() == i.count
}

impl ControllerInput {
    /// The defined neutral sample as a value.
    pub fn empty() -> (r: ControllerInput)
        ensures
            r == neutral_sample(),
    {
        ControllerInput {
            plugged_in: false,
            a: false,
            b: false,
            x: false,
            y: false,
            left: false,
            right: false,
            down: false,
            up: false,
            start: false,
            z: false,
            r: false,
            l: false,
            stick_x: 0i16,
            stick_y: 0i16,
            c_stick_x: 0i16,
            c_stick_y: 0i16,
            r_trigger: 0i16,
            l_trigger: 0i16,
        }
    }
}

impl PlayerInput {
    /// The all-neutral derived view as a value.
    pub fn empty() -> (r: PlayerInput)
        ensures
            r == neutral_input(),
    {
        PlayerInput {
            plugged_in: false,
            a: Button { value: false, press: false },
            b: Button { value: false, press: false },
            x: Button { value: false, press: false },
            y: Button { value: false, press: false },
            left: Button { value: false, press: false },
            right: Button { value: false, press: false },
            down: Button { value: false, press: false },
            up: Button { value: false, press: false },
            start: Button { value: false, press: false },
            z: Button { value: false, press: false },
            r: Button { value: false, press: false },
            l: Button { value: false, press: false },
            stick_x: Stick { value: 0i16, diff: 0i32 },
            stick_y: Stick { value: 0i16, diff: 0i32 },
            c_stick_x: Stick { value: 0i16, diff: 0i32 },
            c_stick_y: Stick { value: 0i16, diff: 0i32 },
            r_trigger: Trigger { value: 0i16, diff: 0i32 },
            l_trigger: Trigger { value: 0i16, diff: 0i32 },
        }
    }
}

/// The derived view of one slot, computed from its sample and the
/// corresponding sample of the previous frame.
fn logical_one(cur: &ControllerInput, prev: &ControllerInput) -> (r: PlayerInput)
    ensures
        r == spec_logical_one(*cur, *prev),
{
    if cur.plugged_in {
        PlayerInput {
            plugged_in: true,
            a: Button { value: cur.a, press: cur.a && !prev.a },
            b: Button { value: cur.b, press: cur.b && !prev.b },
            x: Button { value: cur.x, press: cur.x && !prev.x },
            y: Button { value: cur.y, press: cur.y && !prev.y },
            left: Button { value: cur.left, press: cur.left && !prev.left },
            right: Button { value: cur.right, press: cur.right && !prev.right },
            down: Button { value: cur.down, press: cur.down && !prev.down },
            up: Button { value: cur.up, press: cur.up && !prev.up },
            start: Button { value: cur.start, press: cur.start && !prev.start },
            z: Button { value: cur.z, press: cur.z && !prev.z },
            r: Button { value: cur.r, press: cur.r && !prev.r },
            l: Button { value: cur.l, press: cur.l && !prev.l },
            stick_x: Stick {
                value: cur.stick_x,
                diff: cur.stick_x as i32 - prev.stick_x as i32,
            },
            stick_y: Stick {
                value: cur.stick_y,
                diff: cur.stick_y as i32 - prev.stick_y as i32,
            },
            c_stick_x: Stick {
                value: cur.c_stick_x,
                diff: cur.c_stick_x as i32 - prev.c_stick_x as i32,
            },
            c_stick_y: Stick {
                value: cur.c_stick_y,
                diff: cur.c_stick_y as i32 - prev.c_stick_y as i32,
            },
            r_trigger: Trigger {
                value: cur.r_trigger,
                diff: cur.r_trigger as i32 - prev.r_trigger as i32,
            },
            l_trigger: Trigger {
                value: cur.l_trigger,
                diff: cur.l_trigger as i32 - prev.l_trigger as i32,
            },
        }
    } else {
        PlayerInput::empty()
    }
}

impl Input {
    /// A fresh buffer for `controller_count` slots: nothing recorded, the
    /// captured row neutral, no start held.
    pub fn new(controller_count: usize) -> (r: Input)
        ensures
            wf_input(r@),
            r.wf(),
            r@.count == controller_count,
            r@.samples.len() == 0,
            r@.current == neutral_row(controller_count as nat),
            r@.prev_start == false,
    {
        let mut empty_inputs: Vec<ControllerInput> = Vec::new();
        let mut current_inputs: Vec<ControllerInput> = Vec::new();
        let mut i: usize = 0;
        while i < controller_count
            invariant
                i <= controller_count,
                empty_inputs@.len() == i,
                current_inputs@.len() == i,
                forall|j: int| 0 <= j < i ==> empty_inputs@[j] == neutral_sample(),
                forall|j: int| 0 <= j < i ==> current_inputs@[j] == neutral_sample(),
            decreases controller_count - i,
        {
            empty_inputs.push(ControllerInput::empty());
            current_inputs.push(ControllerInput::empty());
            i = i + 1;
        }
        let r = Input { empty_inputs, current_inputs, game_inputs: Vec::new(), prev_start: false };
        proof {
            assert(r@.current =~= neutral_row(controller_count as nat));
            assert(r.empty_inputs@ =~= neutral_row(controller_count as nat));
        }
        r
    }

    /// The slots are fixed in number, the neutral template really is neutral,
    /// and every row spans exactly the configured slots.
    pub closed spec fn wf(&self) -> bool {
        &&& wf_input(self@)
        &&& self.empty_inputs@ == neutral_row(self@.count)
    }

    /// A well-formed buffer has well-formed rows.
    pub proof fn lemma_wf(&self)
        requires
            self.wf(),
        ensures
            wf_input(self@),
    {
    }

    /// The number of controller slots this buffer was configured for.
    pub fn controller_count(&self) -> (r: usize)
        ensures
            r == self@.count,
    {
        self.empty_inputs.len()
    }

    /// Install the row captured for this tick. A short row (a capture fault,
    /// a missing device) is filled out with neutral samples and an overlong
    /// one cut, so a slow or absent controller never stalls the frame clock.
    pub fn update(&mut self, inputs: &Vec<ControllerInput>)
        requires
            old(self).wf(),
        ensures
            final(self).wf(),
            final(self)@ == (InputView {
                current: spec_normalize(inputs@, old(self)@.count),
                ..old(self)@
            }),
    {
        let count = self.empty_inputs.len();
        let mut current: Vec<ControllerInput> = Vec::new();
        let mut i: usize = 0;
        while i < count
            invariant
                i <= count,
                count == self@.count,
                current@.len() == i,
                forall|j: int|
                    0 <= j < i ==> current@[j] == spec_normalize(inputs@, count as nat)[j],
            decreases count - i,
        {
            if i < inputs.len() {
                current.push(inputs[i]);
            } else {
                current.push(ControllerInput::empty());
            }
            i = i + 1;
        }
        proof {
            assert(current@ =~= spec_normalize(inputs@, self@.count));
        }
        self.current_inputs = current;
        proof {
            assert(self@ =~= (InputView {
                current: spec_normalize(inputs@, old(self)@.count),
                ..old(self)@
            }));
        }
    }

    /// Clear all recorded history, as at the start of a new match.
    pub fn reset_history(&mut self)
        requires
            old(self).wf(),
        ensures
            final(self).wf(),
            final(self)@ == (InputView { samples: Seq::<Seq<ControllerInput>>::empty(), ..old(self)@ }),
    {
        self.game_inputs = Vec::new();
        proof {
            assert(self@ =~= (InputView {
                samples: Seq::<Seq<ControllerInput>>::empty(),
                ..old(self)@
            }));
        }
    }

    /// Commit the captured row as frame `frame`, discarding any previously
    /// recorded rows at indices at or beyond `frame` first: recording never
    /// happens in the past, so a stale future is invalidated before the new
    /// latest frame is appended. Afterwards exactly frames `0 ..= frame` are
    /// recorded.
    pub fn game_update(&mut self, frame: usize)
        requires
            old(self).wf(),
            frame <= old(self)@.samples.len(),
        ensures
            final(self).wf(),
            final(self)@ == spec_record(old(self)@, frame as int),
            final(self)@.samples.len() == frame + 1,
    {
        self.game_inputs.truncate(frame);
        let row = copy_row(&self.current_inputs);
        self.game_inputs.push(row);
        proof {
            assert(self@.samples =~= spec_record(old(self)@, frame as int).samples);
            assert(self@ =~= spec_record(old(self)@, frame as int));
        }
    }

    /// The derived per-slot view of recorded frame `frame`, recomputed from
    /// the raw samples at `frame` and `frame - 1`. Succeeds exactly on
    /// recorded frames; a frame beyond the last recorded one is a range
    /// fault signalled to the caller.
    pub fn players(&self, frame: usize) -> (r: Result<Vec<PlayerInput>, OutOfRange>)
        requires
            self.wf(),
        ensures
            r is Ok <==> frame < self@.samples.len(),
            r is Ok ==> r->Ok_0@ == spec_logical(self@.samples, self@.count, frame as int),
    {
        if frame >= self.game_inputs.len() {
            return Err(OutOfRange);
        }
        let cur = &self.game_inputs[frame];
        let prev = if frame == 0 {
            &self.empty_inputs
        } else {
            &self.game_inputs[frame - 1]
        };
        let mut result: Vec<PlayerInput> = Vec::new();
        let count = cur.len();
        let ghost gcur = self@.samples[frame as int];
        let ghost gprev = if frame == 0 {
            neutral_row(self@.count)
        } else {
            self@.samples[frame as int - 1]
        };
        let mut i: usize = 0;
        while i < count
            invariant
                i <= count,
                count == gcur.len(),
                gprev.len() == gcur.len(),
                cur@ == gcur,
                prev@ == gprev,
                result@.len() == i,
                forall|j: int|
                    0 <= j < i ==> result@[j] == spec_logical_row(gcur, gprev)[j],
            decreases count - i,
        {
            result.push(logical_one(&cur[i], &prev[i]));
            i = i + 1;
        }
        proof {
            assert(result@ =~= spec_logical_row(gcur, gprev));
        }
        Ok(result)
    }

    /// Start-press edge at the menu level: true exactly when some slot holds
    /// start down now and none did on the previous poll. Uses its own edge
    /// state, separate from the recorded game history.
    pub fn start_pressed(&mut self) -> (r: bool)
        requires
            old(self).wf(),
        ensures
            final(self).wf(),
            r == spec_start_press(old(self)@),
            final(self)@ == spec_after_start_poll(old(self)@),
    {
        let held = self.start_held();
        let pressed = !self.prev_start && held;
        self.prev_start = held;
        proof {
            assert(self@ =~= spec_after_start_poll(old(self)@));
        }
        pressed
    }

    /// Whether any slot of the captured row holds start down.
    fn start_held(&self) -> (r: bool)
        ensures
            r == spec_any_start(self@.current),
    {
        let mut i: usize = 0;
        let n = self.current_inputs.len();
        while i < n
            invariant
                i <= n,
                n == self@.current.len(),
                forall|k: int| 0 <= k < i ==> !self@.current[k].start,
            decreases n - i,
        {
            if self.current_inputs[i].start {
                return true;
            }
            i = i + 1;
        }
        false
    }

    /// The raw row recorded for frame `frame`, read-only — enough, together
    /// with the match configuration, to persist a replay that deterministic
    /// re-simulation reconstructs — or nothing when the frame is outside
    /// the recorded range.
    pub fn sample(&self, frame: usize) -> (r: Option<&Vec<ControllerInput>>)
        ensures
            frame < self@.samples.len() ==> r is Some && r->0@ == self@.samples[frame as int],
            frame >= self@.samples.len() ==> r is None,
    {
        if frame < self.game_inputs.len() {
            Some(&self.game_inputs[frame])
        } else {
            None
        }
    }

    /// The index of the last recorded frame, or nothing before any frame
    /// has been recorded.
    pub fn last_frame(&self) -> (r: Option<usize>)
        ensures
            self@.samples.len() == 0 ==> r is None,
            self@.samples.len() > 0 ==> r == Some((self@.samples.len() - 1) as usize),
    {
        let n = self.game_inputs.len();
        if n == 0 {
            None
        } else {
            Some(n - 1)
        }
    }
}

/// An element-for-element copy of one row of samples.
fn copy_row(v: &Vec<ControllerInput>) -> (r: Vec<ControllerInput>)
    ensures
        r@ == v@,
{
    let mut r: Vec<ControllerInput> = Vec::new();
    let n = v.len();
    let mut i: usize = 0;
    while i < n
        invariant
            i <= n,
            n == v@.len(),
            r@.len() == i,
            forall|j: int| 0 <= j < i ==> r@[j] == v@[j],
        decreases n - i,
    {
        r.push(v[i]);
        i = i + 1;
    }
    proof {
        assert(r@ =~= v@);
    }
    r
}

} // verus!
