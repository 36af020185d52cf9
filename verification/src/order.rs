//! Exact laws of the coefficient table of the embedded pair.

use crate::tableau::{
    spec_fifth_order_weight, spec_fourth_order_weight, spec_stage_coefficient, spec_time_fraction,
    Fraction, STAGES,
};
use vstd::prelude::*;

verus! {

/// An exact rational number `numerator / denominator`, not reduced.
pub struct Rational {
    pub numerator: int,
    pub denominator: int,
}

/// The rational number that a fraction of the tableau stands for.
pub open spec fn exact(fraction: Fraction) -> Rational {
    Rational { numerator: fraction.numerator as int, denominator: fraction.denominator as int }
}

/// The number one over `n`.
pub open spec fn one_over(n: int) -> Rational {
    Rational { numerator: 1, denominator: n }
}

/// The sum of `a` and `b`, over the product of the denominators.
pub open spec fn plus(a: Rational, b: Rational) -> Rational {
    Rational {
        numerator: a.numerator * b.denominator + b.numerator * a.denominator,
        denominator: a.denominator * b.denominator,
    }
}

/// The exact sum of `terms(0)`, ..., `terms(count - 1)`.
pub open spec fn sum_of(terms: spec_fn(int) -> Rational, count: nat) -> Rational
    decreases count,
{
    if count == 0 {
        Rational { numerator: 0, denominator: 1 }
    } else {
        plus(sum_of(terms, (count - 1) as nat), terms(count - 1))
    }
}

/// `a` and `b` are the same rational number.
pub open spec fn same_number(a: Rational, b: Rational) -> bool {
    &&& a.denominator != 0
    &&& b.denominator != 0
    &&& a.numerator * b.denominator == b.numerator * a.denominator
}

/// One more term of an exact sum: the sum of `count` terms from the sum of
/// the terms before the last and the last term.
proof fn lemma_next_sum(
    terms: spec_fn(int) -> Rational,
    count: nat,
    numerator: int,
    denominator: int,
    term_numerator: int,
    term_denominator: int,
)
    requires
        count > 0,
        sum_of(terms, (count - 1) as nat).numerator == numerator,
        sum_of(terms, (count - 1) as nat).denominator == denominator,
        terms(count - 1).numerator == term_numerator,
        terms(count - 1).denominator == term_denominator,
    ensures
        sum_of(terms, count).numerator == numerator * term_denominator + term_numerator
            * denominator,
        sum_of(terms, count).denominator == denominator * term_denominator,
{
}

/// The coefficients of stage 0 add up to its time fraction.
proof fn lemma_coefficients_of_stage_0(stage: int)
    requires
        stage == 0,
    ensures
        same_number(
            sum_of(|prior: int| exact(spec_stage_coefficient(stage, prior)), STAGES as nat),
            exact(spec_time_fraction(stage)),
        ),
{
    let terms = |prior: int| exact(spec_stage_coefficient(stage, prior));
    lemma_next_sum(terms, 1, 0, 1, 0, 1);
    lemma_next_sum(terms, 2, 0, 1, 0, 1);
    lemma_next_sum(terms, 3, 0, 1, 0, 1);
    lemma_next_sum(terms, 4, 0, 1, 0, 1);
    lemma_next_sum(terms, 5, 0, 1, 0, 1);
    lemma_next_sum(terms, 6, 0, 1, 0, 1);
}

/// The coefficients of stage 1 add up to its time fraction.
proof fn lemma_coefficients_of_stage_1(stage: int)
    requires
        stage == 1,
    ensures
        same_number(
            sum_of(|prior: int| exact(spec_stage_coefficient(stage, prior)), STAGES as nat),
            exact(spec_time_fraction(stage)),
        ),
{
    let terms = |prior: int| exact(spec_stage_coefficient(stage, prior));
    lemma_next_sum(terms, 1, 0, 1, 1, 4);
    lemma_next_sum(terms, 2, 1, 4, 0, 1);
    lemma_next_sum(terms, 3, 1, 4, 0, 1);
    lemma_next_sum(terms, 4, 1, 4, 0, 1);
    lemma_next_sum(terms, 5, 1, 4, 0, 1);
    lemma_next_sum(terms, 6, 1, 4, 0, 1);
}

/// The coefficients of stage 2 add up to its time fraction.
proof fn lemma_coefficients_of_stage_2(stage: int)
    requires
        stage == 2,
    ensures
        same_number(
            sum_of(|prior: int| exact(spec_stage_coefficient(stage, prior)), STAGES as nat),
            exact(spec_time_fraction(stage)),
        ),
{
    let terms = |prior: int| exact(spec_stage_coefficient(stage, prior));
    lemma_next_sum(terms, 1, 0, 1, 3, 32);
    lemma_next_sum(terms, 2, 3, 32, 9, 32);
    lemma_next_sum(terms, 3, 384, 1024, 0, 1);
    lemma_next_sum(terms, 4, 384, 1024, 0, 1);
    lemma_next_sum(terms, 5, 384, 1024, 0, 1);
    lemma_next_sum(terms, 6, 384, 1024, 0, 1);
}

/// The coefficients of stage 3 add up to its time fraction.
proof fn lemma_coefficients_of_stage_3(stage: int)
    requires
        stage == 3,
    ensures
        same_number(
            sum_of(|prior: int| exact(spec_stage_coefficient(stage, prior)), STAGES as nat),
            exact(spec_time_fraction(stage)),
        ),
{
    let terms = |prior: int| exact(spec_stage_coefficient(stage, prior));
    lemma_next_sum(terms, 1, 0, 1, 1932, 2197);
    lemma_next_sum(terms, 2, 1932, 2197, -7200, 2197);
    lemma_next_sum(terms, 3, -11573796, 4826809, 7296, 2197);
    lemma_next_sum(terms, 4, 9788768652, 10604499373, 0, 1);
    lemma_next_sum(terms, 5, 9788768652, 10604499373, 0, 1);
    lemma_next_sum(terms, 6, 9788768652, 10604499373, 0, 1);
}

/// The coefficients of stage 4 add up to its time fraction.
proof fn lemma_coefficients_of_stage_4(stage: int)
    requires
        stage == 4,
    ensures
        same_number(
            sum_of(|prior: int| exact(spec_stage_coefficient(stage, prior)), STAGES as nat),
            exact(spec_time_fraction(stage)),
        ),
{
    let terms = |prior: int| exact(spec_stage_coefficient(stage, prior));
    lemma_next_sum(terms, 1, 0, 1, 439, 216);
    lemma_next_sum(terms, 2, 439, 216, -8, 1);
    lemma_next_sum(terms, 3, -1289, 216, 3680, 513);
    lemma_next_sum(terms, 4, 133623, 110808, -845, 4104);
    lemma_next_sum(terms, 5, 454756032, 454756032, 0, 1);
    lemma_next_sum(terms, 6, 454756032, 454756032, 0, 1);
}

/// The coefficients of stage 5 add up to its time fraction.
proof fn lemma_coefficients_of_stage_5(stage: int)
    requires
        stage == 5,
    ensures
        same_number(
            sum_of(|prior: int| exact(spec_stage_coefficient(stage, prior)), STAGES as nat),
            exact(spec_time_fraction(stage)),
        ),
{
    let terms = |prior: int| exact(spec_stage_coefficient(stage, prior));
    lemma_next_sum(terms, 1, 0, 1, -8, 27);
    lemma_next_sum(terms, 2, -8, 27, 2, 1);
    lemma_next_sum(terms, 3, 46, 27, -3544, 2565);
    lemma_next_sum(terms, 4, 22302, 69255, 1859, 4104);
    lemma_next_sum(terms, 5, 220272453, 284222520, -11, 40);
    lemma_next_sum(terms, 6, 5684450400, 11368900800, 0, 1);
}

/// The coefficients with which a stage combines the earlier stages add up to
/// the fraction of the step at which it evaluates the derivative.
pub proof fn lemma_stage_coefficients_sum_to_time_fraction(stage: int)
    requires
        0 <= stage < STAGES,
    ensures
        same_number(
            sum_of(|prior: int| exact(spec_stage_coefficient(stage, prior)), STAGES as nat),
            exact(spec_time_fraction(stage)),
        ),
{
    if stage == 0 {
        lemma_coefficients_of_stage_0(stage);
    } else if stage == 1 {
        lemma_coefficients_of_stage_1(stage);
    } else if stage == 2 {
        lemma_coefficients_of_stage_2(stage);
    } else if stage == 3 {
        lemma_coefficients_of_stage_3(stage);
    } else if stage == 4 {
        lemma_coefficients_of_stage_4(stage);
    } else {
        lemma_coefficients_of_stage_5(stage);
    }
}

/// The method is explicit: no stage gives weight to itself or to a later
/// stage.
pub proof fn lemma_explicit(stage: int, prior: int)
    requires
        prior >= stage,
    ensures
        spec_stage_coefficient(stage, prior).numerator == 0,
{
}

/// The weights of the fourth-order combination add up to one.
pub proof fn lemma_fourth_order_weights_sum_to_one()
    ensures
        same_number(
            sum_of(|stage: int| exact(spec_fourth_order_weight(stage)), STAGES as nat),
            one_over(1),
        ),
{
    let terms = |stage: int| exact(spec_fourth_order_weight(stage));
    lemma_next_sum(terms, 1, 0, 1, 25, 216);
    lemma_next_sum(terms, 2, 25, 216, 0, 1);
    lemma_next_sum(terms, 3, 25, 216, 1408, 2565);
    lemma_next_sum(terms, 4, 368253, 554040, 2197, 4104);
    lemma_next_sum(terms, 5, 2728536192, 2273780160, -1, 5);
    lemma_next_sum(terms, 6, 11368900800, 11368900800, 0, 1);
}

/// The weights of the fifth-order combination add up to one.
pub proof fn lemma_fifth_order_weights_sum_to_one()
    ensures
        same_number(
            sum_of(|stage: int| exact(spec_fifth_order_weight(stage)), STAGES as nat),
            one_over(1),
        ),
{
    let terms = |stage: int| exact(spec_fifth_order_weight(stage));
    lemma_next_sum(terms, 1, 0, 1, 16, 135);
    lemma_next_sum(terms, 2, 16, 135, 0, 1);
    lemma_next_sum(terms, 3, 16, 135, 6656, 12825);
    lemma_next_sum(terms, 4, 1103760, 1731375, 28561, 56430);
    lemma_next_sum(terms, 5, 111734978175, 97701491250, -9, 50);
    lemma_next_sum(terms, 6, 4707435487500, 4885074562500, 2, 55);
}

} // verus!
