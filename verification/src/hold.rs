//! The per-button hold state machine.
//!
//! One machine is bound to one button's key code and skip direction. It
//! consumes input events read from that button's device, filtered by the
//! host's "is interactive" query, and decides which channel operation
//! (grab or ungrab) to perform. While held, the caller polls a one-shot
//! timeout; when it fires, the machine clears its hold flag and reports the
//! skip direction to emit — deliberately without ungrabbing, so the device
//! stays silenced until a genuine release event arrives.

use vstd::prelude::*;

verus! {

/// How long a button must stay held before the hold turns into a skip
/// action, in milliseconds.
pub const HOLD_TIMEOUT_MS: u64 = 700;

/// The high-level action a long hold turns into.
#[derive(PartialEq, Eq, Structural, Clone, Copy, Debug)]
pub enum SkipDirection {
    Forward,
    Backward,
}

/// An exclusivity toggle the caller must apply to the button's channel.
#[derive(PartialEq, Eq, Structural, Clone, Copy, Debug)]
pub enum ChannelOp {
    Grab,
    Ungrab,
}

/// The machine: the button's key code, the direction its hold emits, and
/// whether the button is currently held.
#[derive(PartialEq, Eq, Structural, Clone, Copy, Debug)]
pub struct HoldMachine {
    pub code: u16,
    pub dir: SkipDirection,
    pub held: bool,
}

/// An event takes part in the transition table only when the host is not
/// interactive and the event carries this machine's own key code.
pub open spec fn event_relevant(m: HoldMachine, code: u16, interactive: bool) -> bool {
    !interactive && code == m.code
}

/// The transition table on one input event. A press (value 1) enters or
/// re-enters `held`; a release (value 0) leaves it; key-repeat and any
/// other value, an alien code, or an interactive host leave the machine
/// untouched. A release acts also when the hold flag was already cleared
/// by a timeout: the flag and the device's grab are out of sync over that
/// window, and only the genuine release closes it.
pub open spec fn event_step(m: HoldMachine, code: u16, value: i32, interactive: bool) -> HoldMachine {
    if event_relevant(m, code, interactive) {
        if value == 1 {
            HoldMachine { code: m.code, dir: m.dir, held: true }
        } else if value == 0 {
            HoldMachine { code: m.code, dir: m.dir, held: false }
        } else {
            m
        }
    } else {
        m
    }
}

/// The channel operation the same event demands: grab on every press (also
/// a re-press while already held), ungrab on every release, nothing
/// otherwise.
pub open spec fn event_action(m: HoldMachine, code: u16, value: i32, interactive: bool) -> Option<
    ChannelOp,
> {
    if event_relevant(m, code, interactive) {
        if value == 1 {
            Some(ChannelOp::Grab)
        } else if value == 0 {
            Some(ChannelOp::Ungrab)
        } else {
            None
        }
    } else {
        None
    }
}

impl HoldMachine {
    /// A machine for one button, initially idle.
    pub fn new(code: u16, dir: SkipDirection) -> (m: HoldMachine)
        ensures
            m.code == code,
            m.dir == dir,
            !m.held,
    {
        HoldMachine { code, dir, held: false }
    }

    /// Feed one input event to the machine and learn which channel
    /// operation to perform. While the host is interactive every event is
    /// ignored outright: no transition, no operation.
    pub fn on_event(&mut self, code: u16, value: i32, interactive: bool) -> (op: Option<ChannelOp>)
        ensures
            *final(self) == event_step(*old(self), code, value, interactive),
            op == event_action(*old(self), code, value, interactive),
            interactive ==> *final(self) == *old(self) && op.is_none(),
    {
        if interactive || code != self.code {
            return None;
        }
        if value == 1 {
            self.held = true;
            Some(ChannelOp::Grab)
        } else if value == 0 {
            self.held = false;
            Some(ChannelOp::Ungrab)
        } else {
            None
        }
    }

    /// The hold timeout fired: clear the hold flag and report the skip
    /// direction to emit, exactly once per hold. The device is deliberately
    /// not ungrabbed; only a later genuine release event does that.
    pub fn on_timeout(&mut self) -> (dir: SkipDirection)
        requires
            old(self).held,
        ensures
            *final(self) == (HoldMachine { code: old(self).code, dir: old(self).dir, held: false }),
            dir == old(self).dir,
    {
        self.held = false;
        self.dir
    }
}

/// One serviced source of the event loop, as seen by a single button's
/// pipeline: an input event, or the hold timeout firing.
pub enum HoldInput {
    Key { code: u16, value: i32, interactive: bool },
    TimerFired,
}

/// The state after servicing one input. Timer firing mirrors `on_timeout`:
/// the hold flag clears.
pub open spec fn input_step(m: HoldMachine, inp: HoldInput) -> HoldMachine {
    match inp {
        HoldInput::Key { code, value, interactive } => event_step(m, code, value, interactive),
        HoldInput::TimerFired => HoldMachine { code: m.code, dir: m.dir, held: false },
    }
}

/// The state after servicing a whole sequence of inputs, first to last.
pub open spec fn run(m: HoldMachine, inputs: Seq<HoldInput>) -> HoldMachine
    decreases inputs.len(),
{
    if inputs.len() == 0 {
        m
    } else {
        run(input_step(m, inputs[0]), inputs.skip(1))
    }
}

/// A trace the event loop can produce: the timeout is polled only while its
/// button is held, so `TimerFired` can occur only in a held state.
pub open spec fn trace_valid(m: HoldMachine, inputs: Seq<HoldInput>) -> bool
    decreases inputs.len(),
{
    inputs.len() == 0 || {
        &&& (inputs[0] is TimerFired ==> m.held)
        &&& trace_valid(input_step(m, inputs[0]), inputs.skip(1))
    }
}

/// How many skip actions a trace emits: one per timer firing.
pub open spec fn skip_count(inputs: Seq<HoldInput>) -> nat
    decreases inputs.len(),
{
    if inputs.len() == 0 {
        0
    } else {
        (match inputs[0] {
            HoldInput::TimerFired => 1 as nat,
            _ => 0 as nat,
        }) + skip_count(inputs.skip(1))
    }
}

/// The channel operation one serviced input demands: the timer demands
/// none (it deliberately leaves the device grabbed), an event demands what
/// the transition table says.
pub open spec fn input_op(m: HoldMachine, inp: HoldInput) -> Option<ChannelOp> {
    match inp {
        HoldInput::Key { code, value, interactive } => event_action(m, code, value, interactive),
        HoldInput::TimerFired => None,
    }
}

/// The channel's grab state after a trace of serviced inputs, starting
/// from grab state `g`, as the demanded operations leave it.
pub open spec fn grab_after(g: bool, m: HoldMachine, inputs: Seq<HoldInput>) -> bool
    decreases inputs.len(),
{
    if inputs.len() == 0 {
        g
    } else {
        let g1 = match input_op(m, inputs[0]) {
            Some(ChannelOp::Grab) => true,
            Some(ChannelOp::Ungrab) => false,
            None => g,
        };
        grab_after(g1, input_step(m, inputs[0]), inputs.skip(1))
    }
}

/// Grab tracks the hold flag from above: whenever the machine ends up
/// held, the device ends up grabbed, on any trace. The converse direction
/// deliberately lapses between a timeout, which clears the flag without
/// ungrabbing, and the following genuine release.
pub proof fn lemma_held_implies_grabbed(g: bool, m: HoldMachine, inputs: Seq<HoldInput>)
    requires
        m.held ==> g,
    ensures
        run(m, inputs).held ==> grab_after(g, m, inputs),
    decreases inputs.len(),
{
    if inputs.len() > 0 {
        let m1 = input_step(m, inputs[0]);
        let g1 = match input_op(m, inputs[0]) {
            Some(ChannelOp::Grab) => true,
            Some(ChannelOp::Ungrab) => false,
            None => g,
        };
        assert(m1.held ==> g1);
        lemma_held_implies_grabbed(g1, m1, inputs.skip(1));
    }
}

/// The input is a non-interactive press of button `btn`.
pub open spec fn is_press_for(btn: u16, inp: HoldInput) -> bool {
    match inp {
        HoldInput::Key { code, value, interactive } => code == btn && value == 1 && !interactive,
        HoldInput::TimerFired => false,
    }
}

/// An idle machine stays idle, and no skip action fires, on any valid trace
/// that contains no press of its button.
pub proof fn lemma_idle_without_press(m: HoldMachine, inputs: Seq<HoldInput>)
    requires
        !m.held,
        trace_valid(m, inputs),
        forall|i: int| 0 <= i < inputs.len() ==> !is_press_for(m.code, #[trigger] inputs[i]),
    ensures
        !run(m, inputs).held,
        skip_count(inputs) == 0,
    decreases inputs.len(),
{
    if inputs.len() > 0 {
        let m1 = input_step(m, inputs[0]);
        assert(!is_press_for(m.code, inputs[0]));
        assert(!m1.held && m1.code == m.code);
        assert forall|i: int| 0 <= i < inputs.skip(1).len() implies !is_press_for(
            m1.code,
            #[trigger] inputs.skip(1)[i],
        ) by {
            assert(inputs.skip(1)[i] == inputs[i + 1]);
        }
        lemma_idle_without_press(m1, inputs.skip(1));
    }
}

/// Timeout exactly once: starting idle, a press of the button followed by
/// the timer firing, with no further press of the button, emits exactly one
/// skip action on any valid trace, however long it goes on, and leaves the
/// hold flag clear.
pub proof fn lemma_timeout_fires_exactly_once(m: HoldMachine, inputs: Seq<HoldInput>)
    requires
        !m.held,
        inputs.len() >= 2,
        is_press_for(m.code, inputs[0]),
        inputs[1] == HoldInput::TimerFired,
        forall|i: int| 2 <= i < inputs.len() ==> !is_press_for(m.code, #[trigger] inputs[i]),
        trace_valid(m, inputs),
    ensures
        skip_count(inputs) == 1,
        !run(m, inputs).held,
{
    let m1 = input_step(m, inputs[0]);
    assert(m1.held && m1.code == m.code && m1.dir == m.dir);
    let tail1 = inputs.skip(1);
    assert(tail1[0] == inputs[1]);
    let m2 = input_step(m1, tail1[0]);
    assert(!m2.held && m2.code == m.code);
    let tail2 = tail1.skip(1);
    assert(trace_valid(m1, tail1));
    assert(trace_valid(m2, tail2));
    assert forall|i: int| 0 <= i < tail2.len() implies !is_press_for(
        m2.code,
        #[trigger] tail2[i],
    ) by {
        assert(tail2[i] == tail1[i + 1]);
        assert(tail1[i + 1] == inputs[i + 2]);
    }
    lemma_idle_without_press(m2, tail2);
    assert(skip_count(inputs) == skip_count(tail1));
    assert(skip_count(tail1) == 1 + skip_count(tail2));
    assert(run(m, inputs) == run(m1, tail1));
    assert(run(m1, tail1) == run(m2, tail2));
}

/// The state after a sequence of events all carrying this machine's own
/// code while the host is never interactive, first to last.
pub open spec fn run_keys(m: HoldMachine, values: Seq<i32>) -> HoldMachine
    decreases values.len(),
{
    if values.len() == 0 {
        m
    } else {
        event_step(run_keys(m, values.drop_last()), m.code, values.last(), false)
    }
}

/// A press with no later release or press is pending: the most recent
/// press/release event in the sequence is a press. Other values (such as
/// key-repeat) are transparent.
pub open spec fn press_pending(values: Seq<i32>) -> bool
    decreases values.len(),
{
    if values.len() == 0 {
        false
    } else if values.last() == 1 {
        true
    } else if values.last() == 0 {
        false
    } else {
        press_pending(values.drop_last())
    }
}

/// Processing events never changes which button a machine is bound to.
pub proof fn lemma_run_keys_identity(m: HoldMachine, values: Seq<i32>)
    ensures
        run_keys(m, values).code == m.code,
        run_keys(m, values).dir == m.dir,
    decreases values.len(),
{
    if values.len() > 0 {
        lemma_run_keys_identity(m, values.drop_last());
    }
}

/// Hold invariant: over any sequence of this button's own events with the
/// host never interactive, starting idle, the hold flag is set exactly when
/// the most recent press/release event was a press; and every press demands
/// a grab and lands the machine in the held state.
pub proof fn lemma_hold_invariant(m: HoldMachine, values: Seq<i32>)
    requires
        !m.held,
    ensures
        run_keys(m, values).held == press_pending(values),
        forall|i: int|
            0 <= i < values.len() && values[i] == 1 ==> event_action(
                #[trigger] run_keys(m, values.take(i)),
                m.code,
                values[i],
                false,
            ) == Some(ChannelOp::Grab) && event_step(
                run_keys(m, values.take(i)),
                m.code,
                values[i],
                false,
            ).held,
    decreases values.len(),
{
    if values.len() > 0 {
        lemma_hold_invariant(m, values.drop_last());
        lemma_run_keys_identity(m, values.drop_last());
        assert forall|i: int|
            0 <= i < values.len() && values[i] == 1 implies event_action(
            #[trigger] run_keys(m, values.take(i)),
            m.code,
            values[i],
            false,
        ) == Some(ChannelOp::Grab) && event_step(
            run_keys(m, values.take(i)),
            m.code,
            values[i],
            false,
        ).held by {
            lemma_run_keys_identity(m, values.take(i));
        }
    }
}

} // verus!
