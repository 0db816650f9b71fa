//! The fixed pipeline of effects.

use vstd::prelude::*;
use crate::arith::{follows, total, Model, Op};
use crate::audio::delay::{Delay, DelayState};
use crate::audio::effect::{
    exact_at_one, in_unit_range, lemma_no_crunch_is_transparent, Distortion, Effect, Reverb, Volume,
};
use crate::audio::frame::Frame;
use crate::scalar::Scalar;

verus! {

/// One stage of the pipeline, whichever of the four it is.
#[derive(Clone, Debug)]
pub enum Stage {
    Distortion(Distortion),
    Delay(Delay),
    Reverb(Reverb),
    Volume(Volume),
}

/// What a [`Stage`] holds.
pub enum StageState {
    Distortion(Distortion),
    Delay(DelayState),
    Reverb(Reverb),
    Volume(Volume),
}

impl View for Stage {
    type V = StageState;

    open spec fn view(&self) -> StageState {
        match *self {
            Stage::Distortion(d) => StageState::Distortion(d),
            Stage::Delay(d) => StageState::Delay(d@),
            Stage::Reverb(r) => StageState::Reverb(r),
            Stage::Volume(v) => StageState::Volume(v),
        }
    }
}

impl StageState {
    /// The place of the stage in the pipeline, counted from zero: the
    /// distortion first, then the echo, the reverb and the volume.
    pub open spec fn slot(self) -> int {
        match self {
            StageState::Distortion(_) => 0,
            StageState::Delay(_) => 1,
            StageState::Reverb(_) => 2,
            StageState::Volume(_) => 3,
        }
    }

    /// What goes out of the stage for an incoming frame `f`, under a model
    /// of the arithmetic.
    pub open spec fn output(self, model: Model, f: Frame) -> Frame {
        match self {
            StageState::Distortion(d) => d.shaped(model, f),
            StageState::Delay(d) => d.output(model, f),
            StageState::Reverb(_) => f,
            StageState::Volume(v) => v.amplified(model, f),
        }
    }

    /// The next frame of the stage's tail, under a model of the arithmetic.
    /// Only the echo has one.
    pub open spec fn tail(self, model: Model) -> Option<Frame> {
        match self {
            StageState::Delay(d) => d.tail(model),
            _ => None,
        }
    }

    /// One frame through the stage: `f` comes in, `out` goes out and `next`
    /// is the state left behind.
    pub open spec fn processes<E: Fn(Op) -> Scalar>(
        self,
        unit: &E,
        f: Frame,
        out: Frame,
        next: StageState,
    ) -> bool {
        match self {
            StageState::Distortion(d) => d.shapes(unit, f, out) && next == self,
            StageState::Delay(d) => next matches StageState::Delay(n) && d.processes(
                unit,
                f,
                out,
                n,
            ),
            StageState::Reverb(_) => out == f && next == self,
            StageState::Volume(v) => v.amplifies(unit, f, out) && next == self,
        }
    }

    /// One step of the stage's tail. Only the echo has one.
    pub open spec fn drains<E: Fn(Op) -> Scalar>(
        self,
        unit: &E,
        out: Option<Frame>,
        next: StageState,
    ) -> bool {
        match self {
            StageState::Delay(d) => next matches StageState::Delay(n) && d.drains(unit, out, n),
            _ => out is None && next == self,
        }
    }
}

impl Stage {
    /// The place of the stage in the pipeline, counted from zero.
    pub fn slot(&self) -> (i: usize)
        ensures
            i == self@.slot(),
            i < 4,
    {
        match self {
            Stage::Distortion(_) => 0,
            Stage::Delay(_) => 1,
            Stage::Reverb(_) => 2,
            Stage::Volume(_) => 3,
        }
    }
}

impl Effect for Stage {
    fn process<E: Fn(Op) -> Scalar>(&mut self, f: Frame, unit: &E) -> (out: Frame)
        ensures
            old(self)@.processes(unit, f, out, final(self)@),
            forall|model: Model| #[trigger] follows(unit, model) ==> out == old(self)@.output(model, f),
    {
        match self {
            Stage::Distortion(d) => d.process(f, unit),
            Stage::Delay(d) => d.process(f, unit),
            Stage::Reverb(r) => r.process(f, unit),
            Stage::Volume(v) => v.process(f, unit),
        }
    }

    fn leftover<E: Fn(Op) -> Scalar>(&mut self, unit: &E) -> (out: Option<Frame>)
        ensures
            old(self)@.drains(unit, out, final(self)@),
            forall|model: Model| #[trigger] follows(unit, model) ==> out == old(self)@.tail(model),
    {
        match self {
            Stage::Distortion(d) => d.leftover(unit),
            Stage::Delay(d) => d.leftover(unit),
            Stage::Reverb(r) => r.leftover(unit),
            Stage::Volume(v) => v.leftover(unit),
        }
    }
}

/// The pipeline: distortion, then the echo, then the reverb, then the
/// volume. Each stage can be replaced as a whole at any time between frames.
#[derive(Debug)]
pub struct BasicEffectChain {
    volume: Volume,
    delay: Delay,
    distortion: Distortion,
    reverb: Reverb,
}

/// What a [`BasicEffectChain`] holds.
pub struct ChainState {
    pub distortion: Distortion,
    pub delay: DelayState,
    pub reverb: Reverb,
    pub volume: Volume,
}

impl ChainState {
    /// The stages in the order in which a frame runs through them.
    pub open spec fn stages(self) -> Seq<StageState> {
        seq![
            StageState::Distortion(self.distortion),
            StageState::Delay(self.delay),
            StageState::Reverb(self.reverb),
            StageState::Volume(self.volume),
        ]
    }

    /// What goes out of the pipeline for an incoming frame `f`, under a
    /// model of the arithmetic: `f` through the distortion, the echo, the
    /// reverb and the volume, in this order.
    pub open spec fn output(self, model: Model, f: Frame) -> Frame {
        self.volume.amplified(model, self.delay.output(model, self.distortion.shaped(model, f)))
    }

    /// One frame through the pipeline: `f` is distorted to `a`, the echo
    /// turns `a` into `b` and moves on, the reverb hands `b` on, and the
    /// volume turns `b` into `out`. Only the echo changes.
    pub open spec fn processes<E: Fn(Op) -> Scalar>(
        self,
        unit: &E,
        f: Frame,
        out: Frame,
        next: ChainState,
    ) -> bool {
        &&& next.distortion == self.distortion
        &&& next.reverb == self.reverb
        &&& next.volume == self.volume
        &&& exists|a: Frame, b: Frame|
            {
                &&& #[trigger] self.distortion.shapes(unit, f, a)
                &&& #[trigger] self.delay.processes(unit, a, b, next.delay)
                &&& self.volume.amplifies(unit, b, out)
            }
    }
}

impl View for BasicEffectChain {
    type V = ChainState;

    closed spec fn view(&self) -> ChainState {
        ChainState {
            distortion: self.distortion,
            delay: self.delay@,
            reverb: self.reverb,
            volume: self.volume,
        }
    }
}

impl BasicEffectChain {
    /// The pipeline of the default stages: no distortion, an echo that does
    /// nothing, unity gain.
    pub fn new() -> (c: BasicEffectChain)
        ensures
            c@.distortion.amount().bits == 0,
            c@.delay == DelayState::fresh(0, 0, Scalar::zero()),
            c@.volume.left_gain().bits == crate::scalar::ONE,
            c@.volume.right_gain().bits == crate::scalar::ONE,
    {
        BasicEffectChain {
            volume: Volume::default(),
            delay: Delay::default(),
            distortion: Distortion::default(),
            reverb: Reverb::default(),
        }
    }

    /// The stages as they stand, in processing order: each stands in its
    /// slot.
    pub fn chain(&self) -> (stages: Vec<Stage>)
        ensures
            stages@.map_values(|s: Stage| s@) == self@.stages(),
            stages@.len() == 4,
            forall|i: int| 0 <= i < 4 ==> (#[trigger] stages@[i])@.slot() == i,
    {
        let mut stages: Vec<Stage> = Vec::new();
        stages.push(Stage::Distortion(self.distortion));
        stages.push(Stage::Delay(self.delay.clone()));
        stages.push(Stage::Reverb(self.reverb));
        stages.push(Stage::Volume(self.volume));
        assert(stages@.map_values(|s: Stage| s@) =~= self@.stages());
        stages
    }

    pub fn set_volume(&mut self, v: Volume)
        ensures
            final(self)@ == (ChainState { volume: v, ..old(self)@ }),
    {
        self.volume = v;
    }

    pub fn set_distortion(&mut self, d: Distortion)
        ensures
            final(self)@ == (ChainState { distortion: d, ..old(self)@ }),
    {
        self.distortion = d;
    }

    pub fn set_reverb(&mut self, r: Reverb)
        ensures
            final(self)@ == (ChainState { reverb: r, ..old(self)@ }),
    {
        self.reverb = r;
    }

    pub fn set_delay(&mut self, d: Delay)
        ensures
            final(self)@ == (ChainState { delay: d@, ..old(self)@ }),
    {
        self.delay = d;
    }

    /// One frame through every stage, in processing order.
    pub fn process<E: Fn(Op) -> Scalar>(&mut self, f: Frame, unit: &E) -> (out: Frame)
        requires
            total(unit),
        ensures
            old(self)@.processes(unit, f, out, final(self)@),
            forall|model: Model| #[trigger] follows(unit, model) ==> out == old(self)@.output(model, f),
    {
        let a = self.distortion.process(f, unit);
        let b = self.delay.process(a, unit);
        let c = self.reverb.process(b, unit);
        let out = self.volume.process(c, unit);
        proof {
            assert(old(self)@.distortion.shapes(unit, f, a));
            assert(old(self)@.delay.processes(unit, a, b, self@.delay));
        }
        out
    }
}

/// In the pipeline each stage stands in its slot.
pub proof fn lemma_stages_stand_in_their_slots(c: ChainState)
    ensures
        c.stages().len() == 4,
        forall|i: int| 0 <= i < 4 ==> (#[trigger] c.stages()[i]).slot() == i,
{
}

/// The arithmetic leaves a number alone that is multiplied by one.
pub open spec fn exact_times_one(model: Model) -> bool {
    forall|m: Scalar| #[trigger] model(Op::Mul(m, Scalar::one())) == m
}

/// The pipeline of the default stages hands a frame within the unit range on
/// unchanged and stays as it is.
pub proof fn lemma_default_chain_is_transparent(c: ChainState, model: Model, f: Frame)
    requires
        c.distortion.amount().bits == 0,
        c.delay == DelayState::fresh(0, 0, Scalar::zero()),
        c.volume.left_gain().bits == crate::scalar::ONE,
        c.volume.right_gain().bits == crate::scalar::ONE,
        exact_at_one(model),
        exact_times_one(model),
        in_unit_range(f),
    ensures
        c.output(model, f) == f,
        c.delay.fed(f) == c.delay,
{
    lemma_no_crunch_is_transparent(c.distortion, model, f);
    assert(c.volume.left_gain() == Scalar::one());
    assert(c.volume.right_gain() == Scalar::one());
}

} // verus!
