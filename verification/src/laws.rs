//! The core's guarantees, stated and proved once and for all: determinism
//! of simulation, correctness of edge detection, the neutral boundary
//! before the first frame, preservation of the snapshot/input alignment,
//! the backward-then-forward round trip, and bookmark recall.

use vstd::prelude::*;
use crate::game::{
    GameView, aligned, coherent, ready, spec_jump_frame, spec_mark_frame, spec_os_none,
    spec_step, spec_step_replay_backwards, spec_step_replay_forwards, spec_step_row,
};
use crate::input::{
    ControllerInput, InputView, spec_any_start, spec_logical, spec_normalize,
};
use crate::package::Package;

verus! {

/// A whole run of ticks: each entry of `script` is the row captured for one
/// tick, installed and then fed through one step of the state machine with
/// no operator command.
pub open spec fn spec_run(
    g: GameView,
    i: InputView,
    pkg: Package,
    script: Seq<Seq<ControllerInput>>,
) -> (GameView, InputView)
    decreases script.len(),
{
    if script.len() == 0 {
        (g, i)
    } else {
        let i0 = InputView { current: spec_normalize(script[0], i.count), ..i };
        let r = spec_step(g, i0, pkg, spec_os_none());
        spec_run(r.0, r.1, pkg, script.skip(1))
    }
}

/// Determinism: the whole per-tick transition is a mathematical function of
/// the previous state and the captured input, so simulating one recorded
/// input sequence twice from the same initial configuration yields the
/// identical snapshot history — bit for bit, including every intermediate
/// state.
pub proof fn lemma_determinism(
    g1: GameView,
    i1: InputView,
    g2: GameView,
    i2: InputView,
    pkg: Package,
    script: Seq<Seq<ControllerInput>>,
)
    requires
        g1 == g2,
        i1 == i2,
    ensures
        spec_run(g1, i1, pkg, script) == spec_run(g2, i2, pkg, script),
        spec_run(g1, i1, pkg, script).0.hist == spec_run(g2, i2, pkg, script).0.hist,
{
}

/// Edge detection: a button's press flag on a recorded frame `f` is true
/// exactly when its raw value is down on `f` and was up on `f - 1` (or `f`
/// is the first frame), for a plugged-in controller.
pub proof fn lemma_edge_detection(
    samples: Seq<Seq<ControllerInput>>,
    count: nat,
    f: int,
    slot: int,
)
    requires
        0 <= f < samples.len(),
        forall|t: int| 0 <= t < samples.len() ==> (#[trigger] samples[t]).len() == count,
        0 <= slot < count,
        samples[f][slot].plugged_in,
    ensures
        ({
            let li = spec_logical(samples, count, f)[slot];
            let cur = samples[f][slot];
            &&& li.a.press == (cur.a && !(f > 0 && samples[f - 1][slot].a))
            &&& li.b.press == (cur.b && !(f > 0 && samples[f - 1][slot].b))
            &&& li.x.press == (cur.x && !(f > 0 && samples[f - 1][slot].x))
            &&& li.y.press == (cur.y && !(f > 0 && samples[f - 1][slot].y))
            &&& li.left.press == (cur.left && !(f > 0 && samples[f - 1][slot].left))
            &&& li.right.press == (cur.right && !(f > 0 && samples[f - 1][slot].right))
            &&& li.down.press == (cur.down && !(f > 0 && samples[f - 1][slot].down))
            &&& li.up.press == (cur.up && !(f > 0 && samples[f - 1][slot].up))
            &&& li.start.press == (cur.start && !(f > 0 && samples[f - 1][slot].start))
            &&& li.z.press == (cur.z && !(f > 0 && samples[f - 1][slot].z))
            &&& li.r.press == (cur.r && !(f > 0 && samples[f - 1][slot].r))
            &&& li.l.press == (cur.l && !(f > 0 && samples[f - 1][slot].l))
        }),
{
}

/// Disconnect safety: an unplugged slot reports the all-neutral view on
/// every recorded frame, whatever stale raw values its sample holds — a
/// disconnect or reconnect never produces a phantom press or delta.
pub proof fn lemma_unplugged_is_neutral(
    samples: Seq<Seq<ControllerInput>>,
    count: nat,
    f: int,
    slot: int,
)
    requires
        0 <= f < samples.len(),
        forall|t: int| 0 <= t < samples.len() ==> (#[trigger] samples[t]).len() == count,
        0 <= slot < count,
        !samples[f][slot].plugged_in,
    ensures
        spec_logical(samples, count, f)[slot] == crate::input::neutral_input(),
{
}

/// Neutral boundary before the first frame: the conceptual frame before
/// frame 0 is the defined neutral sample, so frame 0's presses derive from
/// its own raw values alone, and every stick and trigger delta equals the
/// raw frame-0 value measured against zero — nothing leaks in from before
/// the match. An unplugged slot reports the all-neutral view.
pub proof fn lemma_neutral_frame_boundary(
    samples: Seq<Seq<ControllerInput>>,
    count: nat,
    slot: int,
)
    requires
        samples.len() > 0,
        samples[0].len() == count,
        0 <= slot < count,
    ensures
        ({
            let li = spec_logical(samples, count, 0)[slot];
            let cur = samples[0][slot];
            cur.plugged_in ==> {
                &&& li.a.press == cur.a
                &&& li.b.press == cur.b
                &&& li.x.press == cur.x
                &&& li.y.press == cur.y
                &&& li.left.press == cur.left
                &&& li.right.press == cur.right
                &&& li.down.press == cur.down
                &&& li.up.press == cur.up
                &&& li.start.press == cur.start
                &&& li.z.press == cur.z
                &&& li.r.press == cur.r
                &&& li.l.press == cur.l
                &&& li.stick_x.diff == cur.stick_x as i32
                &&& li.stick_y.diff == cur.stick_y as i32
                &&& li.c_stick_x.diff == cur.c_stick_x as i32
                &&& li.c_stick_y.diff == cur.c_stick_y as i32
                &&& li.l_trigger.diff == cur.l_trigger as i32
                &&& li.r_trigger.diff == cur.r_trigger as i32
            }
        }),
        !samples[0][slot].plugged_in ==> spec_logical(samples, count, 0)[slot]
            == crate::input::neutral_input(),
{
}

/// Snapshot/input alignment: one tick from any state where the two
/// histories are in lockstep leaves them in lockstep — so at every point
/// between ticks, `len(SnapshotHistory) == len(InputHistory)`.
pub proof fn lemma_snapshot_input_alignment(
    g: GameView,
    i: InputView,
    pkg: Package,
    os: crate::game::OsInput,
)
    requires
        ready(g, i, pkg),
        crate::input::wf_input(i),
    ensures
        aligned(spec_step(g, i, pkg, os).0, spec_step(g, i, pkg, os).1),
{
    crate::game::lemma_step_preserves_ready(g, i, pkg, os);
}

/// `k` backward replay ticks with no operator command: the cursor moves
/// back `k` frames, the live entities become the snapshot there, and
/// neither history changes.
pub open spec fn spec_replay_back_n(g: GameView, i: InputView, k: nat) -> (GameView, InputView)
    decreases k,
{
    if k == 0 {
        (g, i)
    } else {
        let r = spec_step_replay_backwards(g, i, spec_os_none());
        spec_replay_back_n(r.0, r.1, (k - 1) as nat)
    }
}

/// `k` forward replay ticks with no operator command.
pub open spec fn spec_replay_fwd_n(g: GameView, i: InputView, pkg: Package, k: nat) -> (
    GameView,
    InputView,
)
    decreases k,
{
    if k == 0 {
        (g, i)
    } else {
        let r = spec_step_replay_forwards(g, i, pkg, spec_os_none());
        spec_replay_fwd_n(r.0, r.1, pkg, (k - 1) as nat)
    }
}

proof fn lemma_back_n_props(g: GameView, i: InputView, k: nat)
    requires
        0 <= g.current_frame < g.hist.len(),
        g.players == g.hist[g.current_frame],
        k <= g.current_frame,
        !spec_any_start(i.current),
    ensures
        ({
            let b = spec_replay_back_n(g, i, k);
            &&& b.0.hist == g.hist
            &&& b.0.current_frame == g.current_frame - k
            &&& b.0.players == g.hist[g.current_frame - k]
            &&& b.0.controllers == g.controllers
            &&& b.0.fighters == g.fighters
            &&& b.0.stage == g.stage
            &&& b.1.samples == i.samples
            &&& b.1.count == i.count
            &&& b.1.current == i.current
        }),
    decreases k,
{
    if k > 0 {
        let r = spec_step_replay_backwards(g, i, spec_os_none());
        lemma_back_n_props(r.0, r.1, (k - 1) as nat);
    }
}

proof fn lemma_fwd_n_props(g: GameView, i: InputView, pkg: Package, k: nat)
    requires
        coherent(g, i, pkg),
        aligned(g, i),
        0 <= g.current_frame,
        g.current_frame + k < g.hist.len(),
        g.players == g.hist[g.current_frame],
        !spec_any_start(i.current),
    ensures
        ({
            let f = spec_replay_fwd_n(g, i, pkg, k);
            &&& f.0.hist == g.hist
            &&& f.0.current_frame == g.current_frame + k
            &&& f.0.players == g.hist[g.current_frame + k]
            &&& f.1.samples == i.samples
        }),
    decreases k,
{
    if k > 0 {
        let r = spec_step_replay_forwards(g, i, pkg, spec_os_none());
        let cf1 = g.current_frame + 1;
        let li = spec_logical(i.samples, i.count, cf1);
        assert(r.0.players == spec_step_row(
            g.hist[g.current_frame],
            li,
            g.controllers,
            g.fighters,
            pkg,
            g.stage,
        ));
        assert(r.0.players == g.hist[cf1]);
        assert(r.0.hist =~= g.hist);
        assert(coherent(r.0, r.1, pkg));
        lemma_fwd_n_props(r.0, r.1, pkg, (k - 1) as nat);
    }
}

/// Backward-then-forward round trip: from a coherent history paused at
/// frame `N`, stepping backward `k` times and then forward `k` times — with
/// no new live input recorded in between — reproduces exactly the world
/// snapshot that was at frame `N`, and leaves both histories untouched.
/// Coherence (each stored snapshot is the step of its predecessor under the
/// recorded input) is exactly what uninterrupted live play establishes.
pub proof fn lemma_backward_forward_round_trip(g: GameView, i: InputView, pkg: Package, k: nat)
    requires
        coherent(g, i, pkg),
        aligned(g, i),
        0 <= g.current_frame < g.hist.len(),
        g.players == g.hist[g.current_frame],
        k <= g.current_frame,
        !spec_any_start(i.current),
    ensures
        ({
            let b = spec_replay_back_n(g, i, k);
            let f = spec_replay_fwd_n(b.0, b.1, pkg, k);
            &&& f.0.players == g.players
            &&& f.0.hist == g.hist
            &&& f.0.current_frame == g.current_frame
            &&& f.1.samples == i.samples
        }),
{
    lemma_back_n_props(g, i, k);
    let b = spec_replay_back_n(g, i, k);
    assert(coherent(b.0, b.1, pkg));
    lemma_fwd_n_props(b.0, b.1, pkg, k);
}

/// Uninterrupted live play establishes the coherence that replay relies on:
/// a live tick taken at the end of history — with the live entities equal to
/// the last stored snapshot — appends a snapshot that is exactly the step of
/// its predecessor, and disturbs no earlier frame's coherence.
pub proof fn lemma_live_extends_coherence(
    g: GameView,
    i: InputView,
    pkg: Package,
    os: crate::game::OsInput,
)
    requires
        coherent(g, i, pkg),
        aligned(g, i),
        g.current_frame == g.hist.len(),
        g.current_frame > 0 ==> g.players == g.hist[g.current_frame - 1],
    ensures
        ({
            let r = crate::game::spec_step_local(g, i, pkg, os);
            coherent(r.0, r.1, pkg)
        }),
{
    let r = crate::game::spec_step_local(g, i, pkg, os);
    let cf = g.current_frame;
    assert forall|t: int| 1 <= t < r.0.hist.len() implies (#[trigger] r.0.hist[t])
        == spec_step_row(
        r.0.hist[t - 1],
        spec_logical(r.1.samples, r.1.count, t),
        r.0.controllers,
        r.0.fighters,
        pkg,
        r.0.stage,
    ) by {
        if t < cf {
            assert(r.0.hist[t] == g.hist[t]);
            assert(r.0.hist[t - 1] == g.hist[t - 1]);
            assert(r.1.samples[t] == i.samples[t]);
            if t > 0 {
                assert(r.1.samples[t - 1] == i.samples[t - 1]);
            }
        } else {
            assert(t == cf);
            assert(r.0.hist[cf - 1] == g.hist[cf - 1]);
        }
    }
}

/// Bookmark recall: bookmarking the current frame and jumping to it at once
/// (no truncation in between) restores a snapshot bit-identical to the one
/// stored for that frame — whether the jump restores it or, at the end of
/// history, leaves the identical live entities in place.
pub proof fn lemma_bookmark_jump(g: GameView)
    requires
        0 <= g.current_frame < g.hist.len(),
        g.players == g.hist[g.current_frame],
    ensures
        spec_jump_frame(spec_mark_frame(g)).players == g.hist[g.current_frame],
        spec_jump_frame(spec_mark_frame(g)).players == g.players,
{
}

} // verus!
