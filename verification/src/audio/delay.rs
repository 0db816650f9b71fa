//! The echo: a ring of past frames that are mixed back into the signal.

use std::collections::VecDeque;
use vstd::prelude::*;
use crate::arith::{follows, gives, total, Model, Op};
use crate::audio::effect::{unit_clamped, Effect};
use crate::audio::frame::Frame;
use crate::scalar::Scalar;

verus! {

/// An echo with `cycles` taps that lie `len` frames apart. The ring starts
/// out with `len * cycles` silent frames.
#[derive(Debug)]
pub struct Delay {
    buffer: VecDeque<Frame>,
    len: usize,
    cycles: usize,
    decay: Scalar,
}

/// What a [`Delay`] holds: the ring, oldest frame first, and the parameters.
pub struct DelayState {
    pub buffer: Seq<Frame>,
    pub len: nat,
    pub cycles: nat,
    pub decay: Scalar,
}

impl DelayState {
    /// The state of a new echo: a ring of `len * cycles` silent frames.
    pub open spec fn fresh(len: nat, cycles: nat, decay: Scalar) -> DelayState {
        DelayState { buffer: Seq::new(len * cycles, |i: int| Frame::silence()), len, cycles, decay }
    }

    /// The echo does nothing: a spacing of zero, no taps, or a decay of zero.
    pub open spec fn bypassed(self) -> bool {
        self.len == 0 || self.cycles == 0 || self.decay.is_zero()
    }

    /// What tap `i` adds, under a model of the arithmetic: the frame `i * len`
    /// places from the front of the ring, scaled by the decay raised to
    /// `cycles - i`; silence where the ring is too short to hold that place.
    pub open spec fn tap(self, model: Model, i: nat) -> Frame {
        if i * self.len < self.buffer.len() {
            let n = model(Op::Count((self.cycles - i) as usize));
            let w = model(Op::Pow(self.decay, n));
            Frame::scaled(model, self.buffer[(i * self.len) as int], w)
        } else {
            Frame::silence()
        }
    }

    /// `start` with the first `n` taps added, tap 0 first, under a model of
    /// the arithmetic.
    pub open spec fn mixed(self, model: Model, start: Frame, n: nat) -> Frame
        decreases n,
    {
        if n == 0 {
            start
        } else {
            Frame::sum(
                model,
                self.mixed(model, start, (n - 1) as nat),
                self.tap(model, (n - 1) as nat),
            )
        }
    }

    /// What goes out for an incoming frame `f`, under a model of the
    /// arithmetic: `f` itself from a bypassed echo, else `f` with every tap
    /// added.
    pub open spec fn output(self, model: Model, f: Frame) -> Frame {
        if self.bypassed() {
            f
        } else {
            self.mixed(model, f, self.cycles)
        }
    }

    /// The next frame of the tail, under a model of the arithmetic: nothing
    /// from an empty ring, else every tap added to silence.
    pub open spec fn tail(self, model: Model) -> Option<Frame> {
        if self.buffer.len() == 0 {
            None
        } else {
            Some(self.mixed(model, Frame::silence(), self.cycles))
        }
    }

    /// Under an evaluator that follows a model, a mix is the model's.
    pub proof fn lemma_mixes_follow<E: Fn(Op) -> Scalar>(
        self,
        unit: &E,
        model: Model,
        start: Frame,
        n: nat,
        acc: Frame,
    )
        requires
            follows(unit, model),
            self.mixes(unit, start, n, acc),
        ensures
            acc == self.mixed(model, start, n),
        decreases n,
    {
        if n > 0 {
            let (prev, term) = choose|prev: Frame, term: Frame|
                {
                    &&& self.mixes(unit, start, (n - 1) as nat, prev)
                    &&& self.tap_adds(unit, (n - 1) as nat, term)
                    &&& #[trigger] Frame::is_sum(unit, prev, term, acc)
                };
            self.lemma_mixes_follow(unit, model, start, (n - 1) as nat, prev);
            assert(term == self.tap(model, (n - 1) as nat));
        }
    }

    /// `term` is what tap `i` adds: the frame `i * len` places from the front
    /// of the ring, scaled by the decay raised to `cycles - i`; silence where
    /// the ring is too short to hold that place.
    pub open spec fn tap_adds<E: Fn(Op) -> Scalar>(self, unit: &E, i: nat, term: Frame) -> bool {
        if i * self.len < self.buffer.len() {
            exists|n: Scalar, w: Scalar|
                {
                    &&& #[trigger] gives(unit, Op::Count((self.cycles - i) as usize), n)
                    &&& #[trigger] gives(unit, Op::Pow(self.decay, n), w)
                    &&& Frame::is_scaled(unit, self.buffer[(i * self.len) as int], w, term)
                }
        } else {
            term == Frame::silence()
        }
    }

    /// `acc` is `start` with the first `n` taps added, tap 0 first.
    pub open spec fn mixes<E: Fn(Op) -> Scalar>(
        self,
        unit: &E,
        start: Frame,
        n: nat,
        acc: Frame,
    ) -> bool
        decreases n,
    {
        if n == 0 {
            acc == start
        } else {
            exists|prev: Frame, term: Frame|
                {
                    &&& self.mixes(unit, start, (n - 1) as nat, prev)
                    &&& self.tap_adds(unit, (n - 1) as nat, term)
                    &&& #[trigger] Frame::is_sum(unit, prev, term, acc)
                }
        }
    }

    /// A mix of `n` taps, one more tap and their sum make a mix of `n + 1`
    /// taps.
    pub proof fn lemma_mix_step<E: Fn(Op) -> Scalar>(
        self,
        unit: &E,
        start: Frame,
        n: nat,
        prev: Frame,
        term: Frame,
        acc: Frame,
    )
        requires
            self.mixes(unit, start, n, prev),
            self.tap_adds(unit, n, term),
            Frame::is_sum(unit, prev, term, acc),
        ensures
            self.mixes(unit, start, n + 1, acc),
    {
        assert(self.mixes(unit, start, ((n + 1) - 1) as nat, prev));
        assert(self.tap_adds(unit, ((n + 1) - 1) as nat, term));
    }

    /// The state after `f` went in at the back and the oldest frame left.
    pub open spec fn pushed(self, f: Frame) -> DelayState {
        DelayState { buffer: self.buffer.push(f).drop_first(), ..self }
    }

    /// The state after the oldest frame left.
    pub open spec fn popped(self) -> DelayState {
        DelayState { buffer: self.buffer.drop_first(), ..self }
    }

    /// The state after one incoming frame, whatever the evaluator answers.
    pub open spec fn fed(self, f: Frame) -> DelayState {
        if self.bypassed() {
            self
        } else {
            self.pushed(f)
        }
    }

    /// The state after a run of incoming frames.
    pub open spec fn fed_all(self, frames: Seq<Frame>) -> DelayState
        decreases frames.len(),
    {
        if frames.len() == 0 {
            self
        } else {
            self.fed_all(frames.drop_last()).fed(frames.last())
        }
    }

    /// One step of the signal path: `f` comes in, `out` goes out and `next`
    /// is the state left behind. A bypassed echo hands `f` on and keeps its
    /// state; any other mixes every tap onto `f` and then admits `f`.
    pub open spec fn processes<E: Fn(Op) -> Scalar>(
        self,
        unit: &E,
        f: Frame,
        out: Frame,
        next: DelayState,
    ) -> bool {
        &&& next == self.fed(f)
        &&& if self.bypassed() {
            out == f
        } else {
            self.mixes(unit, f, self.cycles, out)
        }
    }

    /// One step of the tail: nothing comes in. An empty ring gives `None`
    /// and stays; any other gives the taps mixed onto silence and loses its
    /// oldest frame.
    pub open spec fn drains<E: Fn(Op) -> Scalar>(
        self,
        unit: &E,
        out: Option<Frame>,
        next: DelayState,
    ) -> bool {
        if self.buffer.len() == 0 {
            out is None && next == self
        } else {
            &&& out is Some
            &&& self.mixes(unit, Frame::silence(), self.cycles, out->0)
            &&& next == self.popped()
        }
    }
}

/// Feeding frames never changes the length of the ring.
pub proof fn lemma_feeding_keeps_length(d: DelayState, frames: Seq<Frame>)
    ensures
        d.fed_all(frames).buffer.len() == d.buffer.len(),
    decreases frames.len(),
{
    if frames.len() > 0 {
        lemma_feeding_keeps_length(d, frames.drop_last());
    }
}

/// The last `k` of the frames, oldest first, with silence in front where
/// there are fewer.
pub open spec fn latest(frames: Seq<Frame>, k: nat) -> Seq<Frame> {
    if frames.len() >= k {
        frames.skip(frames.len() - k)
    } else {
        Seq::new((k - frames.len()) as nat, |i: int| Frame::silence()) + frames
    }
}

/// An echo that is not bypassed holds the latest frames it was fed, as many
/// as its ring has places: tap `i` reads the frame that came in
/// `len * (cycles - i)` frames before the one at hand.
pub proof fn lemma_ring_holds_latest(len: nat, cycles: nat, decay: Scalar, frames: Seq<Frame>)
    requires
        !DelayState::fresh(len, cycles, decay).bypassed(),
    ensures
        DelayState::fresh(len, cycles, decay).fed_all(frames).buffer == latest(
            frames,
            len * cycles,
        ),
    decreases frames.len(),
{
    let start = DelayState::fresh(len, cycles, decay);
    let ring = len * cycles;
    assert(ring >= 1) by (nonlinear_arith)
        requires
            len >= 1,
            cycles >= 1,
            ring == len * cycles,
    ;
    if frames.len() == 0 {
        assert(start.buffer =~= latest(frames, ring));
    } else {
        let before = frames.drop_last();
        lemma_ring_holds_latest(len, cycles, decay, before);
        let held = start.fed_all(before);
        assert(held.decay == decay && held.len == len && held.cycles == cycles) by {
            lemma_feeding_keeps_parameters(start, before);
        }
        assert(held.pushed(frames.last()).buffer =~= latest(frames, ring));
    }
}

/// An echo with one tap repeats what came in `len` frames earlier: once at
/// least `len` frames were fed, the outgoing frame is the incoming one plus
/// that earlier frame scaled by the decay raised to one.
pub proof fn lemma_single_tap_repeats(
    model: Model,
    len: nat,
    decay: Scalar,
    frames: Seq<Frame>,
    f: Frame,
)
    requires
        len >= 1,
        !decay.is_zero(),
        frames.len() >= len,
    ensures
        DelayState::fresh(len, 1, decay).fed_all(frames).output(model, f) == Frame::sum(
            model,
            f,
            Frame::scaled(
                model,
                frames[frames.len() - len],
                model(Op::Pow(decay, model(Op::Count(1)))),
            ),
        ),
{
    let start = DelayState::fresh(len, 1, decay);
    let held = start.fed_all(frames);
    lemma_ring_holds_latest(len, 1, decay, frames);
    lemma_feeding_keeps_parameters(start, frames);
    assert(held.buffer.len() == len);
    assert(held.buffer[0] == frames[frames.len() - len]);
    assert(0 * held.len == 0);
    assert(held.mixed(model, f, 0) == f);
    assert(held.mixed(model, f, 1) == Frame::sum(
        model,
        held.mixed(model, f, 0),
        held.tap(model, 0),
    ));
}

/// Feeding frames never changes the parameters.
pub proof fn lemma_feeding_keeps_parameters(d: DelayState, frames: Seq<Frame>)
    ensures
        d.fed_all(frames).len == d.len,
        d.fed_all(frames).cycles == d.cycles,
        d.fed_all(frames).decay == d.decay,
    decreases frames.len(),
{
    if frames.len() > 0 {
        lemma_feeding_keeps_parameters(d, frames.drop_last());
    }
}

/// An echo made without spacing or without taps hands every frame on
/// unchanged, keeps its state, and has no tail.
pub proof fn lemma_degenerate_is_passthrough<E: Fn(Op) -> Scalar>(
    unit: &E,
    len: nat,
    cycles: nat,
    decay: Scalar,
    f: Frame,
    out: Frame,
    next: DelayState,
    tail: Option<Frame>,
    after: DelayState,
)
    requires
        len == 0 || cycles == 0,
        DelayState::fresh(len, cycles, decay).processes(unit, f, out, next),
        next.drains(unit, tail, after),
    ensures
        out == f,
        next == DelayState::fresh(len, cycles, decay),
        tail is None,
{
    assert(len * cycles == 0) by (nonlinear_arith)
        requires
            len == 0 || cycles == 0,
    ;
}

/// After any run of incoming frames, an echo made with a ring of
/// `len * cycles` frames gives exactly that many frames of tail: while
/// `states` and `outs` record successive steps of the tail, the first
/// `len * cycles` outputs are frames and the next one is `None`.
pub proof fn lemma_tail_has_ring_length<E: Fn(Op) -> Scalar>(
    unit: &E,
    len: nat,
    cycles: nat,
    decay: Scalar,
    frames: Seq<Frame>,
    states: Seq<DelayState>,
    outs: Seq<Option<Frame>>,
)
    requires
        outs.len() == len * cycles + 1,
        states.len() == outs.len() + 1,
        states[0] == DelayState::fresh(len, cycles, decay).fed_all(frames),
        forall|k: int|
            0 <= k < outs.len() ==> (#[trigger] states[k]).drains(unit, outs[k], states[k + 1]),
    ensures
        forall|k: int| 0 <= k < len * cycles ==> (#[trigger] outs[k]) is Some,
        outs[(len * cycles) as int] is None,
{
    let ring = len * cycles;
    lemma_feeding_keeps_length(DelayState::fresh(len, cycles, decay), frames);
    assert forall|k: int| 0 <= k <= ring implies (#[trigger] states[k]).buffer.len() == ring
        - k by {
        lemma_tail_shrinks(unit, states, outs, k);
    }
    assert forall|k: int| 0 <= k < ring implies (#[trigger] outs[k]) is Some by {
        assert(states[k].buffer.len() == ring - k);
        assert(states[k].drains(unit, outs[k], states[k + 1]));
    }
    assert(states[ring as int].buffer.len() == 0);
    assert(states[ring as int].drains(unit, outs[ring as int], states[ring as int + 1]));
}

/// Each step of the tail shortens a ring that is not yet empty by one frame.
proof fn lemma_tail_shrinks<E: Fn(Op) -> Scalar>(
    unit: &E,
    states: Seq<DelayState>,
    outs: Seq<Option<Frame>>,
    k: int,
)
    requires
        states.len() == outs.len() + 1,
        forall|j: int|
            0 <= j < outs.len() ==> (#[trigger] states[j]).drains(unit, outs[j], states[j + 1]),
        0 <= k <= states[0].buffer.len(),
        k < states.len(),
    ensures
        states[k].buffer.len() == states[0].buffer.len() - k,
    decreases k,
{
    if k > 0 {
        lemma_tail_shrinks(unit, states, outs, k - 1);
        assert(states[k - 1].drains(unit, outs[k - 1], states[k - 1 + 1]));
    }
}

impl View for Delay {
    type V = DelayState;

    closed spec fn view(&self) -> DelayState {
        DelayState {
            buffer: self.buffer@,
            len: self.len as nat,
            cycles: self.cycles as nat,
            decay: self.decay,
        }
    }
}

impl Delay {
    /// An echo of `cycles` taps, `len` frames apart, each weaker than the
    /// one before by the factor `decay`. The factor is clamped to the range
    /// from zero to one; one that is not a number counts as zero.
    pub fn new(len: usize, cycles: usize, decay: Scalar) -> (d: Delay)
        requires
            len * cycles <= usize::MAX,
        ensures
            d@ == DelayState::fresh(len as nat, cycles as nat, unit_clamped(decay)),
            !d@.decay.is_nan(),
            0 <= d@.decay.rank() <= crate::scalar::ONE,
    {
        let decay = decay.max(Scalar::zero()).min(Scalar::one());
        let size: usize = len * cycles;
        let mut buffer: VecDeque<Frame> = VecDeque::with_capacity(size);
        let mut i: usize = 0;
        while i < size
            invariant
                i <= size,
                buffer@.len() == i,
                forall|k: int| 0 <= k < i ==> buffer@[k] == Frame::silence(),
            decreases size - i,
        {
            buffer.push_back(Frame::new(Scalar::zero(), Scalar::zero()));
            i += 1;
        }
        assert(buffer@ =~= Seq::new((len * cycles) as nat, |i: int| Frame::silence()));
        Delay { buffer, len, cycles, decay }
    }

    /// The spacing of the taps, in frames.
    pub fn len(&self) -> (n: usize)
        ensures
            n == self@.len,
    {
        self.len
    }

    /// The number of taps.
    pub fn cycles(&self) -> (n: usize)
        ensures
            n == self@.cycles,
    {
        self.cycles
    }

    /// The factor by which each further tap is weaker.
    pub fn decay(&self) -> (k: Scalar)
        ensures
            k == self@.decay,
    {
        self.decay
    }

    /// The number of frames in the ring.
    pub fn buffered(&self) -> (n: usize)
        ensures
            n == self@.buffer.len(),
    {
        self.buffer.len()
    }

    /// What tap `i` adds to the mix.
    fn tap<E: Fn(Op) -> Scalar>(&self, i: usize, unit: &E) -> (term: Frame)
        requires
            total(unit),
            i < self@.cycles,
        ensures
            self@.tap_adds(unit, i as nat, term),
    {
        let held: usize = self.buffer.len();
        match i.checked_mul(self.len) {
            Some(at) => {
                if at < held {
                    let n = unit(Op::Count(self.cycles - i));
                    let w = unit(Op::Pow(self.decay, n));
                    let term = self.buffer[at].scale(w, unit);
                    proof {
                        assert(at == i as nat * self@.len);
                        assert(gives(unit, Op::Count((self@.cycles - i as nat) as usize), n));
                        assert(gives(unit, Op::Pow(self@.decay, n), w));
                        assert(Frame::is_scaled(unit, self@.buffer[(i as nat * self@.len) as int], w, term));
                    }
                    term
                } else {
                    Frame::default()
                }
            },
            None => Frame::default(),
        }
    }

    /// `start` with every tap added, tap 0 first.
    fn mix<E: Fn(Op) -> Scalar>(&self, start: Frame, unit: &E) -> (acc: Frame)
        requires
            total(unit),
        ensures
            self@.mixes(unit, start, self@.cycles, acc),
    {
        let mut acc = start;
        let mut i: usize = 0;
        while i < self.cycles
            invariant
                i <= self.cycles,
                total(unit),
                self@.mixes(unit, start, i as nat, acc),
            decreases self.cycles - i,
        {
            let term = self.tap(i, unit);
            let next = acc.add(term, unit);
            proof {
                self@.lemma_mix_step(unit, start, i as nat, acc, term, next);
            }
            acc = next;
            i += 1;
        }
        acc
    }
}

impl Clone for Delay {
    fn clone(&self) -> (d: Delay)
        ensures
            d@ == self@,
    {
        let buffer = self.buffer.clone();
        assert(buffer@ =~= self.buffer@);
        Delay { buffer, len: self.len, cycles: self.cycles, decay: self.decay }
    }
}

impl Default for Delay {
    /// An echo without spacing, taps or decay: it does nothing.
    fn default() -> (d: Delay)
        ensures
            d@ == DelayState::fresh(0, 0, Scalar::zero()),
    {
        Delay::new(0, 0, Scalar::zero())
    }
}

impl Effect for Delay {
    fn process<E: Fn(Op) -> Scalar>(&mut self, f: Frame, unit: &E) -> (out: Frame)
        ensures
            old(self)@.processes(unit, f, out, final(self)@),
            forall|model: Model| #[trigger] follows(unit, model) ==> out == old(self)@.output(model, f),
    {
        if self.len == 0 || self.cycles == 0 || self.decay.zeroed() {
            return f;
        }
        let out = self.mix(f, unit);
        proof {
            assert forall|model: Model| #[trigger] follows(unit, model) implies out == self@.output(
                model,
                f,
            ) by {
                self@.lemma_mixes_follow(unit, model, f, self@.cycles, out);
            }
        }
        self.buffer.push_back(f);
        self.buffer.pop_front();
        out
    }

    fn leftover<E: Fn(Op) -> Scalar>(&mut self, unit: &E) -> (out: Option<Frame>)
        ensures
            old(self)@.drains(unit, out, final(self)@),
            forall|model: Model| #[trigger] follows(unit, model) ==> out == old(self)@.tail(model),
    {
        if self.buffer.len() == 0 {
            return None;
        }
        let out = self.mix(Frame::default(), unit);
        proof {
            assert forall|model: Model| #[trigger] follows(unit, model) implies Some(out)
                == self@.tail(model) by {
                self@.lemma_mixes_follow(unit, model, Frame::silence(), self@.cycles, out);
            }
        }
        self.buffer.pop_front();
        Some(out)
    }
}

} // verus!
