use vstd::prelude::*;

use crate::game::GameModel;
use crate::game::model_wf;
use crate::game::spec_advance;
use crate::grid::Cell;
use crate::grid::Config;

verus! {

/// The total elapsed time of a sequence of `advance` calls.
pub open spec fn sum_dts(dts: Seq<u64>) -> int
    decreases dts.len(),
{
    if dts.len() == 0 {
        0
    } else {
        dts[0] + sum_dts(dts.drop_first())
    }
}

/// Whether one `advance(dt)` call on state `m` performs a movement step:
/// it does iff the game runs and the accumulated time, once `dt` is
/// added, exceeds the step interval.
pub open spec fn steps_in_call(cfg: Config, m: GameModel, dt: u64) -> nat {
    if m.alive && m.duration + dt > cfg.step_interval {
        1nat
    } else {
        0nat
    }
}

/// The state after a sequence of `advance` calls with elapsed times
/// `dts`, where the `i`-th call relocates the apple (if it is eaten) to
/// `apples[i]`.
pub open spec fn run(cfg: Config, m: GameModel, dts: Seq<u64>, apples: Seq<Cell>) -> GameModel
    recommends
        dts.len() == apples.len(),
    decreases dts.len(),
{
    if dts.len() == 0 {
        m
    } else {
        run(cfg, spec_advance(cfg, m, dts[0], apples[0]), dts.drop_first(), apples.drop_first())
    }
}

/// How many movement steps a sequence of `advance` calls performs.
pub open spec fn steps_in_run(cfg: Config, m: GameModel, dts: Seq<u64>, apples: Seq<Cell>) -> nat
    recommends
        dts.len() == apples.len(),
    decreases dts.len(),
{
    if dts.len() == 0 {
        0nat
    } else {
        steps_in_call(cfg, m, dts[0]) + steps_in_run(
            cfg,
            spec_advance(cfg, m, dts[0], apples[0]),
            dts.drop_first(),
            apples.drop_first(),
        )
    }
}

/// Elapsed times are non-negative, so every partial sum is too.
pub proof fn lemma_sum_nonneg(dts: Seq<u64>)
    ensures
        sum_dts(dts) >= 0,
    decreases dts.len(),
{
    if dts.len() > 0 {
        lemma_sum_nonneg(dts.drop_first());
    }
}

/// A frozen game ignores `advance` entirely: any sequence of calls
/// performs no movement step and leaves the state unchanged.
pub proof fn lemma_frozen_run(cfg: Config, m: GameModel, dts: Seq<u64>, apples: Seq<Cell>)
    requires
        !m.alive,
        dts.len() == apples.len(),
    ensures
        steps_in_run(cfg, m, dts, apples) == 0,
        run(cfg, m, dts, apples) == m,
    decreases dts.len(),
{
    if dts.len() > 0 {
        lemma_frozen_run(cfg, m, dts.drop_first(), apples.drop_first());
    }
}

/// No movement step occurs while the cumulative elapsed time stays at or
/// below the step interval: a running game, fed any sequence of `advance`
/// calls whose total `dt` (on top of the time already accumulated) does
/// not exceed the interval, performs zero movement steps; the head does
/// not move, the game stays running, and the elapsed time merely
/// accumulates.
pub proof fn lemma_below_interval_no_step(
    cfg: Config,
    m: GameModel,
    dts: Seq<u64>,
    apples: Seq<Cell>,
)
    requires
        model_wf(cfg, m),
        m.alive,
        dts.len() == apples.len(),
        forall|i: int| 0 <= i < apples.len() ==> cfg.in_bounds(#[trigger] apples[i]),
        m.duration + sum_dts(dts) <= cfg.step_interval,
    ensures
        steps_in_run(cfg, m, dts, apples) == 0,
        run(cfg, m, dts, apples).head == m.head,
        run(cfg, m, dts, apples).direction == m.direction,
        run(cfg, m, dts, apples).alive,
        run(cfg, m, dts, apples).duration == m.duration + sum_dts(dts),
        model_wf(cfg, run(cfg, m, dts, apples)),
    decreases dts.len(),
{
    if dts.len() > 0 {
        lemma_sum_nonneg(dts.drop_first());
        let m1 = spec_advance(cfg, m, dts[0], apples[0]);
        assert(steps_in_call(cfg, m, dts[0]) == 0);
        assert(forall|i: int|
            0 <= i < apples.drop_first().len() ==> cfg.in_bounds(
                #[trigger] apples.drop_first()[i],
            ));
        lemma_below_interval_no_step(cfg, m1, dts.drop_first(), apples.drop_first());
    }
}

/// Exactly one movement step occurs when the cumulative elapsed time
/// crosses the step interval exactly once: there is a call (index `k`) up
/// to which the accumulated time stays at or below the interval, at which
/// it exceeds the interval, and after which the remaining elapsed time
/// stays at or below the interval again — then the whole sequence of
/// `advance` calls performs exactly one movement step.
pub proof fn lemma_crossing_once_one_step(
    cfg: Config,
    m: GameModel,
    dts: Seq<u64>,
    apples: Seq<Cell>,
    k: int,
)
    requires
        model_wf(cfg, m),
        m.alive,
        dts.len() == apples.len(),
        forall|i: int| 0 <= i < apples.len() ==> cfg.in_bounds(#[trigger] apples[i]),
        forall|i: int| 0 <= i < dts.len() ==> #[trigger] dts[i] <= u64::MAX - cfg.step_interval,
        0 <= k < dts.len(),
        m.duration + sum_dts(dts.take(k)) <= cfg.step_interval,
        m.duration + sum_dts(dts.take(k + 1)) > cfg.step_interval,
        sum_dts(dts.skip(k + 1)) <= cfg.step_interval,
    ensures
        steps_in_run(cfg, m, dts, apples) == 1,
    decreases k,
{
    let m1 = spec_advance(cfg, m, dts[0], apples[0]);
    if k == 0 {
        assert(dts.take(1).drop_first() =~= Seq::<u64>::empty());
        assert(dts.take(1)[0] == dts[0]);
        assert(sum_dts(Seq::<u64>::empty()) == 0);
        assert(sum_dts(dts.take(1)) == dts.take(1)[0] + sum_dts(dts.take(1).drop_first()));
        assert(sum_dts(dts.take(1)) == dts[0]);
        assert(m.duration + dts[0] > cfg.step_interval);
        assert(steps_in_call(cfg, m, dts[0]) == 1);
        assert(m1.duration == 0);
        assert(dts.drop_first() =~= dts.skip(1));
        assert(apples.drop_first() =~= apples.skip(1));
        if m1.alive {
            assert(forall|i: int|
                0 <= i < apples.drop_first().len() ==> cfg.in_bounds(
                    #[trigger] apples.drop_first()[i],
                ));
            lemma_below_interval_no_step(cfg, m1, dts.drop_first(), apples.drop_first());
        } else {
            lemma_frozen_run(cfg, m1, dts.drop_first(), apples.drop_first());
        }
    } else {
        lemma_sum_nonneg(dts.take(k).drop_first());
        assert(dts.take(k)[0] == dts[0]);
        assert(sum_dts(dts.take(k)) == dts[0] + sum_dts(dts.take(k).drop_first()));
        assert(m.duration + dts[0] <= cfg.step_interval);
        assert(steps_in_call(cfg, m, dts[0]) == 0);
        assert(m1.alive);
        assert(m1.duration == m.duration + dts[0]);
        let dts1 = dts.drop_first();
        let apples1 = apples.drop_first();
        assert(dts1.take(k - 1) =~= dts.take(k).drop_first());
        assert(dts1.take(k) =~= dts.take(k + 1).drop_first());
        assert(dts1.skip(k) =~= dts.skip(k + 1));
        assert(dts.take(k + 1)[0] == dts[0]);
        assert(sum_dts(dts.take(k + 1)) == dts[0] + sum_dts(dts.take(k + 1).drop_first()));
        assert(forall|i: int|
            0 <= i < apples1.len() ==> cfg.in_bounds(#[trigger] apples1[i]));
        assert(forall|i: int|
            0 <= i < dts1.len() ==> #[trigger] dts1[i] <= u64::MAX - cfg.step_interval);
        lemma_crossing_once_one_step(cfg, m1, dts1, apples1, k - 1);
    }
}

} // verus!
