//! The coefficient table of the embedded Runge-Kutta-Fehlberg pair of orders
//! four and five, as exact fractions, and the order in which its stages are
//! evaluated.

use vstd::prelude::*;

verus! {

/// An exact rational constant, `numerator / denominator`. Every fraction of
/// the tableau has a positive denominator.
#[derive(Clone, Copy, Debug, PartialEq, Eq, Structural)]
pub struct Fraction {
    pub numerator: i64,
    pub denominator: i64,
}

/// Number of derivative evaluations per step of the embedded pair.
pub const STAGES: usize = 6;

/// The fraction `numerator / denominator`.
pub open spec fn frac(numerator: int, denominator: int) -> Fraction {
    Fraction { numerator: numerator as i64, denominator: denominator as i64 }
}

/// The fraction of the step at which stage `stage` evaluates the derivative.
pub open spec fn spec_time_fraction(stage: int) -> Fraction {
    if stage == 1 {
        frac(1, 4)
    } else if stage == 2 {
        frac(3, 8)
    } else if stage == 3 {
        frac(12, 13)
    } else if stage == 4 {
        frac(1, 1)
    } else if stage == 5 {
        frac(1, 2)
    } else {
        frac(0, 1)
    }
}

/// The weight that stage `stage` gives to the derivative of the earlier
/// stage `prior` when it forms the state at which it evaluates. Zero unless
/// `prior < stage`: the method is explicit.
pub open spec fn spec_stage_coefficient(stage: int, prior: int) -> Fraction {
    if stage == 1 && prior == 0 {
        frac(1, 4)
    } else if stage == 2 && prior == 0 {
        frac(3, 32)
    } else if stage == 2 && prior == 1 {
        frac(9, 32)
    } else if stage == 3 && prior == 0 {
        frac(1932, 2197)
    } else if stage == 3 && prior == 1 {
        frac(-7200, 2197)
    } else if stage == 3 && prior == 2 {
        frac(7296, 2197)
    } else if stage == 4 && prior == 0 {
        frac(439, 216)
    } else if stage == 4 && prior == 1 {
        frac(-8, 1)
    } else if stage == 4 && prior == 2 {
        frac(3680, 513)
    } else if stage == 4 && prior == 3 {
        frac(-845, 4104)
    } else if stage == 5 && prior == 0 {
        frac(-8, 27)
    } else if stage == 5 && prior == 1 {
        frac(2, 1)
    } else if stage == 5 && prior == 2 {
        frac(-3544, 2565)
    } else if stage == 5 && prior == 3 {
        frac(1859, 4104)
    } else if stage == 5 && prior == 4 {
        frac(-11, 40)
    } else {
        frac(0, 1)
    }
}

/// The weight of stage `stage` in the fourth-order combination.
pub open spec fn spec_fourth_order_weight(stage: int) -> Fraction {
    if stage == 0 {
        frac(25, 216)
    } else if stage == 2 {
        frac(1408, 2565)
    } else if stage == 3 {
        frac(2197, 4104)
    } else if stage == 4 {
        frac(-1, 5)
    } else {
        frac(0, 1)
    }
}

/// The weight of stage `stage` in the fifth-order combination.
pub open spec fn spec_fifth_order_weight(stage: int) -> Fraction {
    if stage == 0 {
        frac(16, 135)
    } else if stage == 2 {
        frac(6656, 12825)
    } else if stage == 3 {
        frac(28561, 56430)
    } else if stage == 4 {
        frac(-9, 50)
    } else if stage == 5 {
        frac(2, 55)
    } else {
        frac(0, 1)
    }
}

/// The time fraction of stage `stage`; `None` when there is no such stage.
pub fn time_fraction(stage: usize) -> (found: Option<Fraction>)
    ensures
        found is Some <==> stage < STAGES,
        found matches Some(value) ==> value == spec_time_fraction(stage as int) && value.denominator > 0,
{
    match stage {
        0 => Some(Fraction { numerator: 0, denominator: 1 }),
        1 => Some(Fraction { numerator: 1, denominator: 4 }),
        2 => Some(Fraction { numerator: 3, denominator: 8 }),
        3 => Some(Fraction { numerator: 12, denominator: 13 }),
        4 => Some(Fraction { numerator: 1, denominator: 1 }),
        5 => Some(Fraction { numerator: 1, denominator: 2 }),
        _ => None,
    }
}

/// The weight of the earlier stage `prior` in stage `stage`; `None` when
/// either is no stage of the method.
pub fn stage_coefficient(stage: usize, prior: usize) -> (found: Option<Fraction>)
    ensures
        found is Some <==> stage < STAGES && prior < STAGES,
        found matches Some(value) ==> value == spec_stage_coefficient(stage as int, prior as int) && value.denominator > 0,
{
    if stage >= STAGES || prior >= STAGES {
        return None;
    }
    let value = match (stage, prior) {
        (1, 0) => Fraction { numerator: 1, denominator: 4 },
        (2, 0) => Fraction { numerator: 3, denominator: 32 },
        (2, 1) => Fraction { numerator: 9, denominator: 32 },
        (3, 0) => Fraction { numerator: 1932, denominator: 2197 },
        (3, 1) => Fraction { numerator: -7200, denominator: 2197 },
        (3, 2) => Fraction { numerator: 7296, denominator: 2197 },
        (4, 0) => Fraction { numerator: 439, denominator: 216 },
        (4, 1) => Fraction { numerator: -8, denominator: 1 },
        (4, 2) => Fraction { numerator: 3680, denominator: 513 },
        (4, 3) => Fraction { numerator: -845, denominator: 4104 },
        (5, 0) => Fraction { numerator: -8, denominator: 27 },
        (5, 1) => Fraction { numerator: 2, denominator: 1 },
        (5, 2) => Fraction { numerator: -3544, denominator: 2565 },
        (5, 3) => Fraction { numerator: 1859, denominator: 4104 },
        (5, 4) => Fraction { numerator: -11, denominator: 40 },
        _ => Fraction { numerator: 0, denominator: 1 },
    };
    Some(value)
}

/// The fourth-order weight of stage `stage`; `None` when there is no such
/// stage.
pub fn fourth_order_weight(stage: usize) -> (found: Option<Fraction>)
    ensures
        found is Some <==> stage < STAGES,
        found matches Some(value) ==> value == spec_fourth_order_weight(stage as int) && value.denominator > 0,
{
    match stage {
        0 => Some(Fraction { numerator: 25, denominator: 216 }),
        1 => Some(Fraction { numerator: 0, denominator: 1 }),
        2 => Some(Fraction { numerator: 1408, denominator: 2565 }),
        3 => Some(Fraction { numerator: 2197, denominator: 4104 }),
        4 => Some(Fraction { numerator: -1, denominator: 5 }),
        5 => Some(Fraction { numerator: 0, denominator: 1 }),
        _ => None,
    }
}

/// The fifth-order weight of stage `stage`; `None` when there is no such
/// stage.
pub fn fifth_order_weight(stage: usize) -> (found: Option<Fraction>)
    ensures
        found is Some <==> stage < STAGES,
        found matches Some(value) ==> value == spec_fifth_order_weight(stage as int) && value.denominator > 0,
{
    match stage {
        0 => Some(Fraction { numerator: 16, denominator: 135 }),
        1 => Some(Fraction { numerator: 0, denominator: 1 }),
        2 => Some(Fraction { numerator: 6656, denominator: 12825 }),
        3 => Some(Fraction { numerator: 28561, denominator: 56430 }),
        4 => Some(Fraction { numerator: -9, denominator: 50 }),
        5 => Some(Fraction { numerator: 2, denominator: 55 }),
        _ => None,
    }
}

/// Stage `stage` of `derivatives` is a result of `evaluate` on the stages
/// before it.
pub open spec fn stage_evaluated<V, Evaluate: Fn(usize, &Vec<V>) -> V>(
    evaluate: Evaluate,
    stage: int,
    derivatives: Seq<V>,
) -> bool {
    exists|earlier: Vec<V>|
        earlier@ == derivatives.subrange(0, stage) && #[trigger] call_ensures(
            evaluate,
            (stage as usize, &earlier),
            derivatives[stage],
        )
}

/// Evaluates the stages of one step, in their order.
///
/// `evaluate(stage, earlier)` returns the derivative of stage `stage`, given
/// the derivatives of the stages before it, which are all that an explicit
/// method lets a stage depend on.
pub fn evaluate_stages<V, Evaluate: Fn(usize, &Vec<V>) -> V>(evaluate: Evaluate) -> (derivatives:
    Vec<V>)
    requires
        forall|stage: usize, earlier: Vec<V>|
            stage < STAGES && earlier.len() == stage ==> call_requires(evaluate, (stage, &earlier)),
    ensures
        derivatives.len() == STAGES,
        forall|stage: int|
            0 <= stage < STAGES ==> #[trigger] stage_evaluated(evaluate, stage, derivatives@),
{
    let mut derivatives: Vec<V> = Vec::new();
    let mut stage: usize = 0;
    while stage < STAGES
        invariant
            stage <= STAGES,
            derivatives.len() == stage,
            forall|stage: usize, earlier: Vec<V>|
                stage < STAGES && earlier.len() == stage ==> call_requires(
                    evaluate,
                    (stage, &earlier),
                ),
            forall|k: int| 0 <= k < stage ==> #[trigger] stage_evaluated(evaluate, k, derivatives@),
        decreases STAGES - stage,
    {
        let ghost before = derivatives;
        let derivative = evaluate(stage, &derivatives);
        derivatives.push(derivative);
        proof {
            assert(before@ =~= derivatives@.subrange(0, stage as int));
            assert(call_ensures(
                evaluate,
                ((stage as int) as usize, &before),
                derivatives@[stage as int],
            ));
            assert(stage_evaluated(evaluate, stage as int, derivatives@));
            assert forall|k: int| 0 <= k < stage implies #[trigger] stage_evaluated(
                evaluate,
                k,
                derivatives@,
            ) by {
                assert(stage_evaluated(evaluate, k, before@));
                let earlier = choose|earlier: Vec<V>|
                    earlier@ == before@.subrange(0, k) && #[trigger] call_ensures(
                        evaluate,
                        (k as usize, &earlier),
                        before@[k],
                    );
                assert(earlier@ =~= derivatives@.subrange(0, k));
                assert(before@[k] == derivatives@[k]);
            }
        }
        stage += 1;
    }
    derivatives
}

} // verus!
