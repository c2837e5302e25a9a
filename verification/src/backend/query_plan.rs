//! What each step of a run asks and keeps: step by step, over the task's
//! bounds and the results found before it; and for a whole run in which
//! every query is answered, over the results at its end, which hold each
//! cleaned answer under the name of its query.

use vstd::prelude::*;

use crate::api::client::operand_text;
use crate::api::models::PodId;
use crate::backend::errors::BackendError;
use crate::backend::results::res_text;
use crate::backend::input::Input;
use crate::backend::solver::{
    STEP_COUNT, SolverState, TargetSpec, advance, initial_state, next_query, run_replies, step_target, store,
};
use crate::text::int_decimal;

verus! {

/// The state after the current step stored `v` as result `k`.
pub open spec fn next_with_result(s: SolverState, k: Seq<char>, v: Seq<char>) -> SolverState {
    SolverState { step: s.step + 1, results: s.results.insert(k, v), ..s }
}

/// The state after the current step stored `v` as intermediate value `k`.
pub open spec fn next_with_scratch(s: SolverState, k: Seq<char>, v: Seq<char>) -> SolverState {
    SolverState { step: s.step + 1, scratch: s.scratch.insert(k, v), ..s }
}

/// A run starts at its first step with the density `0` left of `a` and
/// right of `b` (results `Line1` and `Line4` are `0`), with no other result
/// and no intermediate value.
pub proof fn lemma_run_start(input: Input)
    ensures
        initial_state(input).step == 0,
        initial_state(input).input == input,
        initial_state(input).results.dom() == set!["Line1"@, "Line4"@],
        res_text(initial_state(input).results, "Line1"@) == "0"@,
        res_text(initial_state(input).results, "Line4"@) == "0"@,
        initial_state(input).scratch == Map::<Seq<char>, Seq<char>>::empty(),
{
    assert(initial_state(input).results.dom() =~= set!["Line1"@, "Line4"@]);
}

/// After the last of the 41 steps a run asks nothing more, and an answer
/// leaves it as it is.
pub proof fn lemma_run_end(s: SolverState, reply: Result<Seq<char>, BackendError>)
    requires
        s.step >= 41,
    ensures
        next_query(s) is None,
        advance(s, reply) == Ok::<SolverState, BackendError>(s),
{
}

/// The steps that find the density and `a`: the two sloped pieces of the
/// density (`Line2`, `Line3`) from the lines through the bounds and `(0, a)`,
/// the four integrals of the density over the intervals that `A`, `0` and
/// `B` bound, their sum `ASum`, and `a` from `ASum = 1`. Each step asks
/// its query of the `Result` block and stores the cleaned answer under its
/// name; a failure of any of them ends the run.
pub proof fn lemma_plan_density_and_a(s: SolverState, raw: Seq<char>, e: BackendError)
    ensures
        s.step == 0 ==> next_query(s)
            == Some::<(Seq<char>, PodId)>(("Line equation, points ("@ + int_decimal(s.input.a as int)
            + ",0), (0,a)"@, PodId::Result))
            && advance(s, Ok(raw))
            == Ok::<SolverState, BackendError>(next_with_result(s, "Line2"@, operand_text(raw)))
            && advance(s, Err(e)) == Err::<SolverState, BackendError>(e),
        s.step == 1 ==> next_query(s)
            == Some::<(Seq<char>, PodId)>(("Line equation, points (0, a), ("@ + int_decimal(s.input.b as int)
            + ", 0)"@, PodId::Result))
            && advance(s, Ok(raw))
            == Ok::<SolverState, BackendError>(next_with_result(s, "Line3"@, operand_text(raw)))
            && advance(s, Err(e)) == Err::<SolverState, BackendError>(e),
        s.step == 2 ==> next_query(s)
            == Some::<(Seq<char>, PodId)>(("Integrate("@ + res_text(s.results, "Line1"@)
            + ") from x=-inf to x="@ + int_decimal(s.input.a as int), PodId::Result))
            && advance(s, Ok(raw))
            == Ok::<SolverState, BackendError>(next_with_result(s, "A1Integral"@, operand_text(raw)))
            && advance(s, Err(e)) == Err::<SolverState, BackendError>(e),
        s.step == 3 ==> next_query(s)
            == Some::<(Seq<char>, PodId)>(("Integrate("@ + res_text(s.results, "Line2"@) + ") from x="@
            + int_decimal(s.input.a as int) + " to x=0"@, PodId::Result))
            && advance(s, Ok(raw))
            == Ok::<SolverState, BackendError>(next_with_result(s, "A2Integral"@, operand_text(raw)))
            && advance(s, Err(e)) == Err::<SolverState, BackendError>(e),
        s.step == 4 ==> next_query(s)
            == Some::<(Seq<char>, PodId)>(("Integrate("@ + res_text(s.results, "Line3"@)
            + ") from x=0 to x="@ + int_decimal(s.input.b as int), PodId::Result))
            && advance(s, Ok(raw))
            == Ok::<SolverState, BackendError>(next_with_result(s, "A3Integral"@, operand_text(raw)))
            && advance(s, Err(e)) == Err::<SolverState, BackendError>(e),
        s.step == 5 ==> next_query(s)
            == Some::<(Seq<char>, PodId)>(("Integrate("@ + res_text(s.results, "Line4"@) + ") from x="@
            + int_decimal(s.input.b as int) + " to x=inf"@, PodId::Result))
            && advance(s, Ok(raw))
            == Ok::<SolverState, BackendError>(next_with_result(s, "A4Integral"@, operand_text(raw)))
            && advance(s, Err(e)) == Err::<SolverState, BackendError>(e),
        s.step == 6 ==> next_query(s)
            == Some::<(Seq<char>, PodId)>((res_text(s.results, "A1Integral"@) + " + "@
            + res_text(s.results, "A2Integral"@) + " + "@ + res_text(s.results, "A3Integral"@) + " + "@
            + res_text(s.results, "A4Integral"@), PodId::Result))
            && advance(s, Ok(raw))
            == Ok::<SolverState, BackendError>(next_with_result(s, "ASum"@, operand_text(raw)))
            && advance(s, Err(e)) == Err::<SolverState, BackendError>(e),
        s.step == 7 ==> next_query(s)
            == Some::<(Seq<char>, PodId)>(("Solve "@ + res_text(s.results, "ASum"@) + " = 1"@, PodId::Result))
            && advance(s, Ok(raw))
            == Ok::<SolverState, BackendError>(next_with_result(s, "A"@, operand_text(raw)))
            && advance(s, Err(e)) == Err::<SolverState, BackendError>(e),
{
}

/// The steps that find `F(x)`: the integral of each piece up to `x`, its
/// expanded form, the sums with the earlier whole integrals, and those sums
/// with `a` substituted. Where an expanded form or a substitution fails,
/// the unexpanded or unsubstituted text stands in for it.
pub proof fn lemma_plan_distribution(s: SolverState, raw: Seq<char>, e: BackendError)
    ensures
        s.step == 8 ==> next_query(s)
            == Some::<(Seq<char>, PodId)>(("Integrate("@ + res_text(s.results, "Line1"@)
            + ") from x=-inf to x=x"@, PodId::Result))
            && advance(s, Ok(raw))
            == Ok::<SolverState, BackendError>((SolverState { step: 9,
            results: s.results.insert("Fx1Integral"@, operand_text(raw)).insert("Fx1Sum"@, operand_text(raw)),
                ..s }))
            && advance(s, Err(e)) == Err::<SolverState, BackendError>(e),
        s.step == 9 ==> next_query(s)
            == Some::<(Seq<char>, PodId)>(("Integrate("@ + res_text(s.results, "Line2"@) + ") from x="@
            + int_decimal(s.input.a as int) + " to x=x"@, PodId::Result))
            && advance(s, Ok(raw))
            == Ok::<SolverState, BackendError>(next_with_scratch(s, "fx2"@, operand_text(raw)))
            && advance(s, Err(e)) == Err::<SolverState, BackendError>(e),
        s.step == 10 ==> next_query(s)
            == Some::<(Seq<char>, PodId)>(("Integrate("@ + res_text(s.results, "Line3"@)
            + ") from x=0 to x=x"@, PodId::Result))
            && advance(s, Ok(raw))
            == Ok::<SolverState, BackendError>(next_with_scratch(s, "fx3"@, operand_text(raw)))
            && advance(s, Err(e)) == Err::<SolverState, BackendError>(e),
        s.step == 11 ==> next_query(s)
            == Some::<(Seq<char>, PodId)>(("Integrate("@ + res_text(s.results, "Line4"@) + ") from x="@
            + int_decimal(s.input.b as int) + " to x=x"@, PodId::Result))
            && advance(s, Ok(raw))
            == Ok::<SolverState, BackendError>(next_with_scratch(s, "fx4"@, operand_text(raw)))
            && advance(s, Err(e)) == Err::<SolverState, BackendError>(e),
        s.step == 12 ==> next_query(s)
            == Some::<(Seq<char>, PodId)>((res_text(s.scratch, "fx2"@), PodId::ExpandedForm))
            && advance(s, Ok(raw))
            == Ok::<SolverState, BackendError>(next_with_result(s, "Fx2Integral"@, operand_text(raw)))
            && advance(s, Err(e))
            == Ok::<SolverState, BackendError>(next_with_result(s, "Fx2Integral"@,
            res_text(s.scratch, "fx2"@))),
        s.step == 13 ==> next_query(s)
            == Some::<(Seq<char>, PodId)>((res_text(s.results, "A1Integral"@) + " + "@
            + res_text(s.results, "Fx2Integral"@), PodId::Result))
            && advance(s, Ok(raw))
            == Ok::<SolverState, BackendError>(next_with_result(s, "Fx2RawSum"@, operand_text(raw)))
            && advance(s, Err(e)) == Err::<SolverState, BackendError>(e),
        s.step == 14 ==> next_query(s)
            == Some::<(Seq<char>, PodId)>((res_text(s.results, "Fx2RawSum"@) + " where a = "@
            + res_text(s.results, "A"@), PodId::Result))
            && advance(s, Ok(raw))
            == Ok::<SolverState, BackendError>(next_with_scratch(s, "fx2_sum"@, operand_text(raw)))
            && advance(s, Err(e))
            == Ok::<SolverState, BackendError>(next_with_scratch(s, "fx2_sum"@,
            res_text(s.results, "Fx2RawSum"@))),
        s.step == 15 ==> next_query(s)
            == Some::<(Seq<char>, PodId)>((res_text(s.scratch, "fx2_sum"@), PodId::ExpandedForm))
            && advance(s, Ok(raw))
            == Ok::<SolverState, BackendError>(next_with_result(s, "Fx2Sum"@, operand_text(raw)))
            && advance(s, Err(e))
            == Ok::<SolverState, BackendError>(next_with_result(s, "Fx2Sum"@,
            res_text(s.scratch, "fx2_sum"@))),
        s.step == 16 ==> next_query(s)
            == Some::<(Seq<char>, PodId)>((res_text(s.scratch, "fx3"@), PodId::ExpandedForm))
            && advance(s, Ok(raw))
            == Ok::<SolverState, BackendError>(next_with_result(s, "Fx3Integral"@, operand_text(raw)))
            && advance(s, Err(e))
            == Ok::<SolverState, BackendError>(next_with_result(s, "Fx3Integral"@,
            res_text(s.scratch, "fx3"@))),
        s.step == 17 ==> next_query(s)
            == Some::<(Seq<char>, PodId)>((res_text(s.results, "A1Integral"@) + " + "@
            + res_text(s.results, "A2Integral"@) + " + "@ + res_text(s.results, "Fx3Integral"@),
            PodId::Result))
            && advance(s, Ok(raw))
            == Ok::<SolverState, BackendError>(next_with_result(s, "Fx3RawSum"@, operand_text(raw)))
            && advance(s, Err(e)) == Err::<SolverState, BackendError>(e),
        s.step == 18 ==> next_query(s)
            == Some::<(Seq<char>, PodId)>((res_text(s.results, "Fx3RawSum"@) + " where a = "@
            + res_text(s.results, "A"@), PodId::Result))
            && advance(s, Ok(raw))
            == Ok::<SolverState, BackendError>(next_with_scratch(s, "fx3_sum"@, operand_text(raw)))
            && advance(s, Err(e))
            == Ok::<SolverState, BackendError>(next_with_scratch(s, "fx3_sum"@,
            res_text(s.results, "Fx3RawSum"@))),
        s.step == 19 ==> next_query(s)
            == Some::<(Seq<char>, PodId)>((res_text(s.scratch, "fx3_sum"@), PodId::ExpandedForm))
            && advance(s, Ok(raw))
            == Ok::<SolverState, BackendError>(next_with_result(s, "Fx3Sum"@, operand_text(raw)))
            && advance(s, Err(e))
            == Ok::<SolverState, BackendError>(next_with_result(s, "Fx3Sum"@,
            res_text(s.scratch, "fx3_sum"@))),
        s.step == 20 ==> next_query(s)
            == Some::<(Seq<char>, PodId)>((res_text(s.scratch, "fx4"@), PodId::ExpandedForm))
            && advance(s, Ok(raw))
            == Ok::<SolverState, BackendError>(next_with_result(s, "Fx4Integral"@, operand_text(raw)))
            && advance(s, Err(e))
            == Ok::<SolverState, BackendError>(next_with_result(s, "Fx4Integral"@,
            res_text(s.scratch, "fx4"@))),
        s.step == 21 ==> next_query(s)
            == Some::<(Seq<char>, PodId)>((res_text(s.results, "A1Integral"@) + " + "@
            + res_text(s.results, "A2Integral"@) + " + "@ + res_text(s.results, "A3Integral"@) + " + "@
            + res_text(s.results, "Fx4Integral"@), PodId::Result))
            && advance(s, Ok(raw))
            == Ok::<SolverState, BackendError>(next_with_result(s, "Fx4RawSum"@, operand_text(raw)))
            && advance(s, Err(e)) == Err::<SolverState, BackendError>(e),
        s.step == 22 ==> next_query(s)
            == Some::<(Seq<char>, PodId)>((res_text(s.results, "Fx4RawSum"@) + " where a = "@
            + res_text(s.results, "A"@), PodId::Result))
            && advance(s, Ok(raw))
            == Ok::<SolverState, BackendError>(next_with_scratch(s, "fx4_sum"@, operand_text(raw)))
            && advance(s, Err(e))
            == Ok::<SolverState, BackendError>(next_with_scratch(s, "fx4_sum"@,
            res_text(s.results, "Fx4RawSum"@))),
        s.step == 23 ==> next_query(s)
            == Some::<(Seq<char>, PodId)>((res_text(s.scratch, "fx4_sum"@), PodId::ExpandedForm))
            && advance(s, Ok(raw))
            == Ok::<SolverState, BackendError>(next_with_result(s, "Fx4Sum"@, operand_text(raw)))
            && advance(s, Err(e))
            == Ok::<SolverState, BackendError>(next_with_result(s, "Fx4Sum"@,
            res_text(s.scratch, "fx4_sum"@))),
{
}

/// The steps that find `M(x)`: the integrals of `x f(x)` and `x^2 f(x)` over
/// the four intervals (read from the `Input` block), the sum of the first
/// four (`MxRawSum`), that sum with `a` substituted (`MxSum`, the raw sum
/// standing in where this fails), and its decimal value `MxFloat`, asked as
/// `N[MxSum, 10]`.
pub proof fn lemma_plan_expectation(s: SolverState, raw: Seq<char>, e: BackendError)
    ensures
        s.step == 24 ==> next_query(s)
            == Some::<(Seq<char>, PodId)>(("Integrate("@ + res_text(s.results, "Line1"@)
            + " x) from x=-inf to x="@ + int_decimal(s.input.a as int), PodId::Input))
            && advance(s, Ok(raw))
            == Ok::<SolverState, BackendError>(next_with_result(s, "Mx1Integral"@, operand_text(raw)))
            && advance(s, Err(e)) == Err::<SolverState, BackendError>(e),
        s.step == 25 ==> next_query(s)
            == Some::<(Seq<char>, PodId)>(("Integrate(("@ + res_text(s.results, "Line2"@) + ") x) from x="@
            + int_decimal(s.input.a as int) + " to x=0"@, PodId::Input))
            && advance(s, Ok(raw))
            == Ok::<SolverState, BackendError>(next_with_result(s, "Mx2Integral"@, operand_text(raw)))
            && advance(s, Err(e)) == Err::<SolverState, BackendError>(e),
        s.step == 26 ==> next_query(s)
            == Some::<(Seq<char>, PodId)>(("Integrate(("@ + res_text(s.results, "Line3"@)
            + ") x) from x=0 to x="@ + int_decimal(s.input.b as int), PodId::Input))
            && advance(s, Ok(raw))
            == Ok::<SolverState, BackendError>(next_with_result(s, "Mx3Integral"@, operand_text(raw)))
            && advance(s, Err(e)) == Err::<SolverState, BackendError>(e),
        s.step == 27 ==> next_query(s)
            == Some::<(Seq<char>, PodId)>(("Integrate("@ + res_text(s.results, "Line4"@) + " x) from x="@
            + int_decimal(s.input.b as int) + " to x=inf"@, PodId::Input))
            && advance(s, Ok(raw))
            == Ok::<SolverState, BackendError>(next_with_result(s, "Mx4Integral"@, operand_text(raw)))
            && advance(s, Err(e)) == Err::<SolverState, BackendError>(e),
        s.step == 28 ==> next_query(s)
            == Some::<(Seq<char>, PodId)>(("Integrate("@ + res_text(s.results, "Line1"@)
            + " x^2) from x=-inf to x="@ + int_decimal(s.input.a as int), PodId::Input))
            && advance(s, Ok(raw))
            == Ok::<SolverState, BackendError>(next_with_result(s, "Mx2Integral1"@, operand_text(raw)))
            && advance(s, Err(e)) == Err::<SolverState, BackendError>(e),
        s.step == 29 ==> next_query(s)
            == Some::<(Seq<char>, PodId)>(("Integrate(("@ + res_text(s.results, "Line2"@) + ") x^2) from x="@
            + int_decimal(s.input.a as int) + " to x=0"@, PodId::Input))
            && advance(s, Ok(raw))
            == Ok::<SolverState, BackendError>(next_with_result(s, "Mx2Integral2"@, operand_text(raw)))
            && advance(s, Err(e)) == Err::<SolverState, BackendError>(e),
        s.step == 30 ==> next_query(s)
            == Some::<(Seq<char>, PodId)>(("Integrate(("@ + res_text(s.results, "Line3"@)
            + ") x^2) from x=0 to x="@ + int_decimal(s.input.b as int), PodId::Input))
            && advance(s, Ok(raw))
            == Ok::<SolverState, BackendError>(next_with_result(s, "Mx2Integral3"@, operand_text(raw)))
            && advance(s, Err(e)) == Err::<SolverState, BackendError>(e),
        s.step == 31 ==> next_query(s)
            == Some::<(Seq<char>, PodId)>(("Integrate("@ + res_text(s.results, "Line4"@) + " x^2) from x="@
            + int_decimal(s.input.b as int) + " to x=inf"@, PodId::Input))
            && advance(s, Ok(raw))
            == Ok::<SolverState, BackendError>(next_with_result(s, "Mx2Integral4"@, operand_text(raw)))
            && advance(s, Err(e)) == Err::<SolverState, BackendError>(e),
        s.step == 32 ==> next_query(s)
            == Some::<(Seq<char>, PodId)>((res_text(s.results, "Mx1Integral"@) + " + "@
            + res_text(s.results, "Mx2Integral"@) + " + "@ + res_text(s.results, "Mx3Integral"@) + " + "@
            + res_text(s.results, "Mx4Integral"@), PodId::Result))
            && advance(s, Ok(raw))
            == Ok::<SolverState, BackendError>(next_with_result(s, "MxRawSum"@, operand_text(raw)))
            && advance(s, Err(e)) == Err::<SolverState, BackendError>(e),
        s.step == 33 ==> next_query(s)
            == Some::<(Seq<char>, PodId)>((res_text(s.results, "MxRawSum"@) + " where a = "@
            + res_text(s.results, "A"@), PodId::Result))
            && advance(s, Ok(raw))
            == Ok::<SolverState, BackendError>(next_with_result(s, "MxSum"@, operand_text(raw)))
            && advance(s, Err(e))
            == Ok::<SolverState, BackendError>(next_with_result(s, "MxSum"@,
            res_text(s.results, "MxRawSum"@))),
        s.step == 34 ==> next_query(s)
            == Some::<(Seq<char>, PodId)>(("N["@ + res_text(s.results, "MxSum"@) + ", 10]"@, PodId::Result))
            && advance(s, Ok(raw))
            == Ok::<SolverState, BackendError>(next_with_result(s, "MxFloat"@, operand_text(raw)))
            && advance(s, Err(e)) == Err::<SolverState, BackendError>(e),
{
}

/// The steps that find `D(x)` and the standard deviation: the sum of the
/// integrals of `x^2 f(x)` (`Mx2RawSum`), that sum with `a` substituted
/// (`Mx2Sum`, the raw sum standing in where this fails), `(MxSum)^2`
/// (`m2Sum`), the variance `Dx` asked as `Mx2Sum - m2Sum`, its decimal value
/// `DxFloat` asked as `N[Dx, 10]`, and `G` as the square root of `Dx`.
pub proof fn lemma_plan_variance(s: SolverState, raw: Seq<char>, e: BackendError)
    ensures
        s.step == 35 ==> next_query(s)
            == Some::<(Seq<char>, PodId)>((res_text(s.results, "Mx2Integral1"@) + " + "@
            + res_text(s.results, "Mx2Integral2"@) + " + "@ + res_text(s.results, "Mx2Integral3"@) + " + "@
            + res_text(s.results, "Mx2Integral4"@), PodId::Result))
            && advance(s, Ok(raw))
            == Ok::<SolverState, BackendError>(next_with_result(s, "Mx2RawSum"@, operand_text(raw)))
            && advance(s, Err(e)) == Err::<SolverState, BackendError>(e),
        s.step == 36 ==> next_query(s)
            == Some::<(Seq<char>, PodId)>((res_text(s.results, "Mx2RawSum"@) + " where a = "@
            + res_text(s.results, "A"@), PodId::Result))
            && advance(s, Ok(raw))
            == Ok::<SolverState, BackendError>(next_with_result(s, "Mx2Sum"@, operand_text(raw)))
            && advance(s, Err(e))
            == Ok::<SolverState, BackendError>(next_with_result(s, "Mx2Sum"@,
            res_text(s.results, "Mx2RawSum"@))),
        s.step == 37 ==> next_query(s)
            == Some::<(Seq<char>, PodId)>(("("@ + res_text(s.results, "MxSum"@) + ")^2"@, PodId::Result))
            && advance(s, Ok(raw))
            == Ok::<SolverState, BackendError>(next_with_result(s, "m2Sum"@, operand_text(raw)))
            && advance(s, Err(e)) == Err::<SolverState, BackendError>(e),
        s.step == 38 ==> next_query(s)
            == Some::<(Seq<char>, PodId)>((res_text(s.results, "Mx2Sum"@) + " - "@
            + res_text(s.results, "m2Sum"@), PodId::Result))
            && advance(s, Ok(raw))
            == Ok::<SolverState, BackendError>(next_with_result(s, "Dx"@, operand_text(raw)))
            && advance(s, Err(e)) == Err::<SolverState, BackendError>(e),
        s.step == 39 ==> next_query(s)
            == Some::<(Seq<char>, PodId)>(("N["@ + res_text(s.results, "Dx"@) + ", 10]"@, PodId::Result))
            && advance(s, Ok(raw))
            == Ok::<SolverState, BackendError>(next_with_result(s, "DxFloat"@, operand_text(raw)))
            && advance(s, Err(e)) == Err::<SolverState, BackendError>(e),
        s.step == 40 ==> next_query(s)
            == Some::<(Seq<char>, PodId)>(("sqrt("@ + res_text(s.results, "Dx"@) + ") 10 digits"@,
            PodId::Result))
            && advance(s, Ok(raw))
            == Ok::<SolverState, BackendError>(next_with_result(s, "G"@, operand_text(raw)))
            && advance(s, Err(e)) == Err::<SolverState, BackendError>(e),
{
}

/// The state after the first `k` answers of `replies`, in a run that
/// starts from `input` and that those answers do not end.
pub open spec fn state_after(input: Input, replies: Seq<Result<Seq<char>, BackendError>>,
    k: int) -> SolverState {
    run_replies(initial_state(input), replies.take(k))->Ok_0
}

/// Every answer is an answer, not a failure.
pub open spec fn all_answered(replies: Seq<Result<Seq<char>, BackendError>>) -> bool {
    forall|i: int| 0 <= i < replies.len() ==> #[trigger] replies[i] is Ok
}

/// The cleaned text of the `i`-th answer.
pub open spec fn cleaned_answer(replies: Seq<Result<Seq<char>, BackendError>>, i: int) -> Seq<char> {
    operand_text(replies[i]->Ok_0)
}

/// Whether a step that stores into `t` writes intermediate value `k`.
spec fn writes_scratch(t: TargetSpec, k: Seq<char>) -> bool {
    match t {
        TargetSpec::Scratch(k1) => k1 == k,
        _ => false,
    }
}

/// Whether a step that stores into `t` writes result `k`.
spec fn writes_result(t: TargetSpec, k: Seq<char>) -> bool {
    match t {
        TargetSpec::Named(k1) => k1 == k,
        TargetSpec::NamedTwice(k1, k2) => k1 == k || k2 == k,
        TargetSpec::Scratch(_) => false,
    }
}

proof fn lemma_rest_answered(replies: Seq<Result<Seq<char>, BackendError>>)
    requires
        all_answered(replies),
        replies.len() > 0,
    ensures
        all_answered(replies.drop_first()),
{
    assert forall|i: int| 0 <= i < replies.drop_first().len() implies #[trigger] replies.drop_first()[i] is Ok by {
        assert(replies[i + 1] is Ok);
    }
}

/// Answering a run to its end keeps result `k` where no step still to come
/// writes it.
proof fn lemma_run_keeps(s: SolverState, replies: Seq<Result<Seq<char>, BackendError>>, k: Seq<char>)
    requires
        all_answered(replies),
        0 <= s.step,
        s.step + replies.len() <= STEP_COUNT,
        forall|j: int| s.step <= j < s.step + replies.len() ==> !writes_result(#[trigger] step_target(j), k),
    ensures
        run_replies(s, replies) matches Ok(f) && f.step == s.step + replies.len() && f.input == s.input
            && res_text(f.results, k) == res_text(s.results, k)
            && (s.results.contains_key(k) ==> f.results.contains_key(k)
            && f.results[k] == s.results[k]),
    decreases replies.len(),
{
    if replies.len() > 0 {
        let s1 = store(s, operand_text(replies[0]->Ok_0));
        assert(replies[0] is Ok);
        assert(!writes_result(step_target(s.step), k));
        lemma_rest_answered(replies);
        lemma_run_keeps(s1, replies.drop_first(), k);
    }
}

/// Answering a run to its end keeps intermediate value `k` where no step
/// still to come writes it.
proof fn lemma_run_keeps_scratch(s: SolverState, replies: Seq<Result<Seq<char>, BackendError>>, k: Seq<char>)
    requires
        all_answered(replies),
        0 <= s.step,
        s.step + replies.len() <= STEP_COUNT,
        forall|j: int| s.step <= j < s.step + replies.len() ==> !writes_scratch(#[trigger] step_target(j), k),
    ensures
        run_replies(s, replies) matches Ok(f) && f.step == s.step + replies.len() && f.input == s.input
            && res_text(f.scratch, k) == res_text(s.scratch, k)
            && (s.scratch.contains_key(k) ==> f.scratch.contains_key(k)
            && f.scratch[k] == s.scratch[k]),
    decreases replies.len(),
{
    if replies.len() > 0 {
        let s1 = store(s, operand_text(replies[0]->Ok_0));
        assert(replies[0] is Ok);
        assert(!writes_scratch(step_target(s.step), k));
        lemma_rest_answered(replies);
        lemma_run_keeps_scratch(s1, replies.drop_first(), k);
    }
}

/// Answering a run to its end takes it through one step per answer.
proof fn lemma_run_answered(s: SolverState, replies: Seq<Result<Seq<char>, BackendError>>)
    requires
        all_answered(replies),
        0 <= s.step,
        s.step + replies.len() <= STEP_COUNT,
    ensures
        run_replies(s, replies) matches Ok(f) && f.step == s.step + replies.len() && f.input == s.input,
    decreases replies.len(),
{
    if replies.len() > 0 {
        assert(replies[0] is Ok);
        lemma_rest_answered(replies);
        lemma_run_answered(store(s, operand_text(replies[0]->Ok_0)), replies.drop_first());
    }
}

/// A run over `replies` is the run over its first `n` answers followed by
/// the run over the others.
proof fn lemma_run_split(s: SolverState, replies: Seq<Result<Seq<char>, BackendError>>, n: int)
    requires
        0 <= n <= replies.len(),
    ensures
        run_replies(s, replies) == match run_replies(s, replies.take(n)) {
            Ok(s2) => run_replies(s2, replies.skip(n)),
            Err(e) => Err(e),
        },
    decreases n,
{
    if n == 0 {
        assert(replies.take(0) =~= Seq::<Result<Seq<char>, BackendError>>::empty());
        assert(replies.skip(0) =~= replies);
    } else {
        assert(replies.take(n)[0] == replies[0]);
        assert(replies.take(n).drop_first() =~= replies.drop_first().take(n - 1));
        assert(replies.skip(n) =~= replies.drop_first().skip(n - 1));
        match advance(s, replies[0]) {
            Ok(s1) => {
                lemma_run_split(s1, replies.drop_first(), n - 1);
            },
            Err(_) => {},
        }
    }
}

/// The state after the first `w` answers is at step `w`, and the run goes
/// on from there by storing the `w`-th cleaned answer.
proof fn lemma_step_in_run(input: Input, replies: Seq<Result<Seq<char>, BackendError>>, w: int)
    requires
        replies.len() == STEP_COUNT,
        all_answered(replies),
        0 <= w < STEP_COUNT,
    ensures
        state_after(input, replies, w).step == w,
        state_after(input, replies, w).input == input,
        all_answered(replies.skip(w)),
        all_answered(replies.skip(w + 1)),
        run_replies(initial_state(input), replies)
            == run_replies(state_after(input, replies, w), replies.skip(w)),
        run_replies(initial_state(input), replies) == run_replies(
            store(state_after(input, replies, w), cleaned_answer(replies, w)),
            replies.skip(w + 1),
        ),
{
    let s0 = initial_state(input);
    let pre = replies.take(w);
    assert forall|i: int| 0 <= i < pre.len() implies #[trigger] pre[i] is Ok by {
        assert(replies[i] is Ok);
    }
    lemma_run_answered(s0, pre);
    lemma_run_split(s0, replies, w);
    let post = replies.skip(w);
    assert forall|i: int| 0 <= i < post.len() implies #[trigger] post[i] is Ok by {
        assert(replies[w + i] is Ok);
    }
    assert(post[0] == replies[w]);
    assert(replies[w] is Ok);
    assert(post.drop_first() =~= replies.skip(w + 1));
    lemma_rest_answered(post);
}

/// The lengths of the names that steps store into, and the letters by which
/// names of one length differ.
proof fn lemma_names_differ()
    ensures
        "Line1"@.len() == 5 && "Line1"@[0] == 'L' && "Line1"@[4] == '1',
        "Line2"@.len() == 5 && "Line2"@[0] == 'L' && "Line2"@[4] == '2',
        "Line3"@.len() == 5 && "Line3"@[0] == 'L' && "Line3"@[4] == '3',
        "Line4"@.len() == 5 && "Line4"@[0] == 'L' && "Line4"@[4] == '4',
        "A1Integral"@.len() == 10 && "A1Integral"@[1] == '1',
        "A2Integral"@.len() == 10 && "A2Integral"@[1] == '2',
        "A3Integral"@.len() == 10 && "A3Integral"@[1] == '3',
        "A4Integral"@.len() == 10 && "A4Integral"@[1] == '4',
        "ASum"@.len() == 4,
        "A"@.len() == 1 && "A"@[0] == 'A',
        "Fx1Integral"@.len() == 11 && "Fx1Integral"@[0] == 'F' && "Fx1Integral"@[2] == '1',
        "Fx1Sum"@.len() == 6 && "Fx1Sum"@[0] == 'F' && "Fx1Sum"@[2] == '1',
        "Fx2Integral"@.len() == 11 && "Fx2Integral"@[0] == 'F' && "Fx2Integral"@[2] == '2',
        "Fx2RawSum"@.len() == 9 && "Fx2RawSum"@[0] == 'F' && "Fx2RawSum"@[2] == '2',
        "Fx2Sum"@.len() == 6 && "Fx2Sum"@[0] == 'F' && "Fx2Sum"@[2] == '2',
        "Fx3Integral"@.len() == 11 && "Fx3Integral"@[0] == 'F' && "Fx3Integral"@[2] == '3',
        "Fx3RawSum"@.len() == 9 && "Fx3RawSum"@[0] == 'F' && "Fx3RawSum"@[2] == '3',
        "Fx3Sum"@.len() == 6 && "Fx3Sum"@[0] == 'F' && "Fx3Sum"@[2] == '3',
        "Fx4Integral"@.len() == 11 && "Fx4Integral"@[0] == 'F' && "Fx4Integral"@[2] == '4',
        "Fx4RawSum"@.len() == 9 && "Fx4RawSum"@[0] == 'F' && "Fx4RawSum"@[2] == '4',
        "Fx4Sum"@.len() == 6 && "Fx4Sum"@[0] == 'F' && "Fx4Sum"@[2] == '4',
        "Mx1Integral"@.len() == 11 && "Mx1Integral"@[0] == 'M' && "Mx1Integral"@[2] == '1',
        "Mx2Integral"@.len() == 11 && "Mx2Integral"@[0] == 'M' && "Mx2Integral"@[2] == '2',
        "Mx3Integral"@.len() == 11 && "Mx3Integral"@[0] == 'M' && "Mx3Integral"@[2] == '3',
        "Mx4Integral"@.len() == 11 && "Mx4Integral"@[0] == 'M' && "Mx4Integral"@[2] == '4',
        "Mx2Integral1"@.len() == 12 && "Mx2Integral1"@[11] == '1',
        "Mx2Integral2"@.len() == 12 && "Mx2Integral2"@[11] == '2',
        "Mx2Integral3"@.len() == 12 && "Mx2Integral3"@[11] == '3',
        "Mx2Integral4"@.len() == 12 && "Mx2Integral4"@[11] == '4',
        "MxRawSum"@.len() == 8,
        "MxSum"@.len() == 5 && "MxSum"@[0] == 'M',
        "MxFloat"@.len() == 7 && "MxFloat"@[0] == 'M',
        "Mx2RawSum"@.len() == 9 && "Mx2RawSum"@[0] == 'M',
        "Mx2Sum"@.len() == 6 && "Mx2Sum"@[0] == 'M',
        "m2Sum"@.len() == 5 && "m2Sum"@[0] == 'm',
        "Dx"@.len() == 2,
        "DxFloat"@.len() == 7 && "DxFloat"@[0] == 'D',
        "G"@.len() == 1 && "G"@[0] == 'G',
        "fx2"@.len() == 3 && "fx2"@[2] == '2',
        "fx3"@.len() == 3 && "fx3"@[2] == '3',
        "fx4"@.len() == 3 && "fx4"@[2] == '4',
        "fx2_sum"@.len() == 7 && "fx2_sum"@[0] == 'f' && "fx2_sum"@[2] == '2',
        "fx3_sum"@.len() == 7 && "fx3_sum"@[0] == 'f' && "fx3_sum"@[2] == '3',
        "fx4_sum"@.len() == 7 && "fx4_sum"@[0] == 'f' && "fx4_sum"@[2] == '4',
{
    reveal_strlit("Line1");
    reveal_strlit("Line2");
    reveal_strlit("Line3");
    reveal_strlit("Line4");
    reveal_strlit("A1Integral");
    reveal_strlit("A2Integral");
    reveal_strlit("A3Integral");
    reveal_strlit("A4Integral");
    reveal_strlit("ASum");
    reveal_strlit("A");
    reveal_strlit("Fx1Integral");
    reveal_strlit("Fx1Sum");
    reveal_strlit("Fx2Integral");
    reveal_strlit("Fx2RawSum");
    reveal_strlit("Fx2Sum");
    reveal_strlit("Fx3Integral");
    reveal_strlit("Fx3RawSum");
    reveal_strlit("Fx3Sum");
    reveal_strlit("Fx4Integral");
    reveal_strlit("Fx4RawSum");
    reveal_strlit("Fx4Sum");
    reveal_strlit("Mx1Integral");
    reveal_strlit("Mx2Integral");
    reveal_strlit("Mx3Integral");
    reveal_strlit("Mx4Integral");
    reveal_strlit("Mx2Integral1");
    reveal_strlit("Mx2Integral2");
    reveal_strlit("Mx2Integral3");
    reveal_strlit("Mx2Integral4");
    reveal_strlit("MxRawSum");
    reveal_strlit("MxSum");
    reveal_strlit("MxFloat");
    reveal_strlit("Mx2RawSum");
    reveal_strlit("Mx2Sum");
    reveal_strlit("m2Sum");
    reveal_strlit("Dx");
    reveal_strlit("DxFloat");
    reveal_strlit("G");
    reveal_strlit("fx2");
    reveal_strlit("fx3");
    reveal_strlit("fx4");
    reveal_strlit("fx2_sum");
    reveal_strlit("fx3_sum");
    reveal_strlit("fx4_sum");
}

/// In a run in which every query is answered, the results that find the
/// density and `a` hold the cleaned answers to their own queries, and each
/// of those queries, written over the results at the end of the run, is
/// what the step asked: `Line2` and `Line3` answer the lines through the
/// bounds and `(0, a)`, `A1Integral` to `A4Integral` the integrals of the
/// density's pieces, `ASum` their sum, and `A` the equation `ASum = 1`.
pub proof fn lemma_answered_run_density_and_a(input: Input, replies: Seq<Result<Seq<char>, BackendError>>,
    f: SolverState)
    requires
        replies.len() == STEP_COUNT,
        all_answered(replies),
        run_replies(initial_state(input), replies) == Ok::<SolverState, BackendError>(f),
    ensures
        f.results.contains_key("Line2"@) && f.results["Line2"@] == cleaned_answer(replies, 0)
            && next_query(state_after(input, replies, 0))
            == Some::<(Seq<char>, PodId)>(("Line equation, points ("@ + int_decimal(input.a as int)
            + ",0), (0,a)"@, PodId::Result)),
        f.results.contains_key("Line3"@) && f.results["Line3"@] == cleaned_answer(replies, 1)
            && next_query(state_after(input, replies, 1))
            == Some::<(Seq<char>, PodId)>(("Line equation, points (0, a), ("@ + int_decimal(input.b as int)
            + ", 0)"@, PodId::Result)),
        f.results.contains_key("A1Integral"@) && f.results["A1Integral"@] == cleaned_answer(replies, 2)
            && next_query(state_after(input, replies, 2))
            == Some::<(Seq<char>, PodId)>(("Integrate("@ + res_text(f.results, "Line1"@)
            + ") from x=-inf to x="@ + int_decimal(input.a as int), PodId::Result)),
        f.results.contains_key("A2Integral"@) && f.results["A2Integral"@] == cleaned_answer(replies, 3)
            && next_query(state_after(input, replies, 3))
            == Some::<(Seq<char>, PodId)>(("Integrate("@ + res_text(f.results, "Line2"@) + ") from x="@
            + int_decimal(input.a as int) + " to x=0"@, PodId::Result)),
        f.results.contains_key("A3Integral"@) && f.results["A3Integral"@] == cleaned_answer(replies, 4)
            && next_query(state_after(input, replies, 4))
            == Some::<(Seq<char>, PodId)>(("Integrate("@ + res_text(f.results, "Line3"@)
            + ") from x=0 to x="@ + int_decimal(input.b as int), PodId::Result)),
        f.results.contains_key("A4Integral"@) && f.results["A4Integral"@] == cleaned_answer(replies, 5)
            && next_query(state_after(input, replies, 5))
            == Some::<(Seq<char>, PodId)>(("Integrate("@ + res_text(f.results, "Line4"@) + ") from x="@
            + int_decimal(input.b as int) + " to x=inf"@, PodId::Result)),
        f.results.contains_key("ASum"@) && f.results["ASum"@] == cleaned_answer(replies, 6)
            && next_query(state_after(input, replies, 6))
            == Some::<(Seq<char>, PodId)>((res_text(f.results, "A1Integral"@) + " + "@
            + res_text(f.results, "A2Integral"@) + " + "@ + res_text(f.results, "A3Integral"@) + " + "@
            + res_text(f.results, "A4Integral"@), PodId::Result)),
        f.results.contains_key("A"@) && f.results["A"@] == cleaned_answer(replies, 7)
            && next_query(state_after(input, replies, 7))
            == Some::<(Seq<char>, PodId)>(("Solve "@ + res_text(f.results, "ASum"@) + " = 1"@,
            PodId::Result)),
{
    lemma_names_differ();
    assert(f.results.contains_key("Line2"@) && f.results["Line2"@] == cleaned_answer(replies, 0)
            && next_query(state_after(input, replies, 0))
            == Some::<(Seq<char>, PodId)>(("Line equation, points ("@ + int_decimal(input.a as int)
            + ",0), (0,a)"@, PodId::Result))) by {
        lemma_step_in_run(input, replies, 0);
        lemma_run_keeps(store(state_after(input, replies, 0), cleaned_answer(replies, 0)), replies.skip(1),
            "Line2"@);
    }
    assert(f.results.contains_key("Line3"@) && f.results["Line3"@] == cleaned_answer(replies, 1)
            && next_query(state_after(input, replies, 1))
            == Some::<(Seq<char>, PodId)>(("Line equation, points (0, a), ("@ + int_decimal(input.b as int)
            + ", 0)"@, PodId::Result))) by {
        lemma_step_in_run(input, replies, 1);
        lemma_run_keeps(store(state_after(input, replies, 1), cleaned_answer(replies, 1)), replies.skip(2),
            "Line3"@);
    }
    assert(f.results.contains_key("A1Integral"@) && f.results["A1Integral"@] == cleaned_answer(replies, 2)
            && next_query(state_after(input, replies, 2))
            == Some::<(Seq<char>, PodId)>(("Integrate("@ + res_text(f.results, "Line1"@)
            + ") from x=-inf to x="@ + int_decimal(input.a as int), PodId::Result))) by {
        lemma_step_in_run(input, replies, 2);
        lemma_run_keeps(store(state_after(input, replies, 2), cleaned_answer(replies, 2)), replies.skip(3),
            "A1Integral"@);
        lemma_run_keeps(state_after(input, replies, 2), replies.skip(2), "Line1"@);
    }
    assert(f.results.contains_key("A2Integral"@) && f.results["A2Integral"@] == cleaned_answer(replies, 3)
            && next_query(state_after(input, replies, 3))
            == Some::<(Seq<char>, PodId)>(("Integrate("@ + res_text(f.results, "Line2"@) + ") from x="@
            + int_decimal(input.a as int) + " to x=0"@, PodId::Result))) by {
        lemma_step_in_run(input, replies, 3);
        lemma_run_keeps(store(state_after(input, replies, 3), cleaned_answer(replies, 3)), replies.skip(4),
            "A2Integral"@);
        lemma_run_keeps(state_after(input, replies, 3), replies.skip(3), "Line2"@);
    }
    assert(f.results.contains_key("A3Integral"@) && f.results["A3Integral"@] == cleaned_answer(replies, 4)
            && next_query(state_after(input, replies, 4))
            == Some::<(Seq<char>, PodId)>(("Integrate("@ + res_text(f.results, "Line3"@)
            + ") from x=0 to x="@ + int_decimal(input.b as int), PodId::Result))) by {
        lemma_step_in_run(input, replies, 4);
        lemma_run_keeps(store(state_after(input, replies, 4), cleaned_answer(replies, 4)), replies.skip(5),
            "A3Integral"@);
        lemma_run_keeps(state_after(input, replies, 4), replies.skip(4), "Line3"@);
    }
    assert(f.results.contains_key("A4Integral"@) && f.results["A4Integral"@] == cleaned_answer(replies, 5)
            && next_query(state_after(input, replies, 5))
            == Some::<(Seq<char>, PodId)>(("Integrate("@ + res_text(f.results, "Line4"@) + ") from x="@
            + int_decimal(input.b as int) + " to x=inf"@, PodId::Result))) by {
        lemma_step_in_run(input, replies, 5);
        lemma_run_keeps(store(state_after(input, replies, 5), cleaned_answer(replies, 5)), replies.skip(6),
            "A4Integral"@);
        lemma_run_keeps(state_after(input, replies, 5), replies.skip(5), "Line4"@);
    }
    assert(f.results.contains_key("ASum"@) && f.results["ASum"@] == cleaned_answer(replies, 6)
            && next_query(state_after(input, replies, 6))
            == Some::<(Seq<char>, PodId)>((res_text(f.results, "A1Integral"@) + " + "@
            + res_text(f.results, "A2Integral"@) + " + "@ + res_text(f.results, "A3Integral"@) + " + "@
            + res_text(f.results, "A4Integral"@), PodId::Result))) by {
        lemma_step_in_run(input, replies, 6);
        lemma_run_keeps(store(state_after(input, replies, 6), cleaned_answer(replies, 6)), replies.skip(7),
            "ASum"@);
        lemma_run_keeps(state_after(input, replies, 6), replies.skip(6), "A1Integral"@);
        lemma_run_keeps(state_after(input, replies, 6), replies.skip(6), "A2Integral"@);
        lemma_run_keeps(state_after(input, replies, 6), replies.skip(6), "A3Integral"@);
        lemma_run_keeps(state_after(input, replies, 6), replies.skip(6), "A4Integral"@);
    }
    assert(f.results.contains_key("A"@) && f.results["A"@] == cleaned_answer(replies, 7)
            && next_query(state_after(input, replies, 7))
            == Some::<(Seq<char>, PodId)>(("Solve "@ + res_text(f.results, "ASum"@) + " = 1"@,
            PodId::Result))) by {
        lemma_step_in_run(input, replies, 7);
        lemma_run_keeps(store(state_after(input, replies, 7), cleaned_answer(replies, 7)), replies.skip(8),
            "A"@);
        lemma_run_keeps(state_after(input, replies, 7), replies.skip(7), "ASum"@);
    }
}

/// In a run in which every query is answered, the results and intermediate
/// values that find `F(x)` hold the cleaned answers to their own queries,
/// and each of those queries, written over the values at the end of the
/// run, is what the step asked.
#[verifier::rlimit(80)]
pub proof fn lemma_answered_run_distribution(input: Input, replies: Seq<Result<Seq<char>, BackendError>>,
    f: SolverState)
    requires
        replies.len() == STEP_COUNT,
        all_answered(replies),
        run_replies(initial_state(input), replies) == Ok::<SolverState, BackendError>(f),
    ensures
        f.results.contains_key("Fx1Integral"@) && f.results["Fx1Integral"@] == cleaned_answer(replies, 8)
            && f.results.contains_key("Fx1Sum"@) && f.results["Fx1Sum"@] == cleaned_answer(replies, 8)
            && next_query(state_after(input, replies, 8))
            == Some::<(Seq<char>, PodId)>(("Integrate("@ + res_text(f.results, "Line1"@)
            + ") from x=-inf to x=x"@, PodId::Result)),
        f.scratch.contains_key("fx2"@) && f.scratch["fx2"@] == cleaned_answer(replies, 9)
            && next_query(state_after(input, replies, 9))
            == Some::<(Seq<char>, PodId)>(("Integrate("@ + res_text(f.results, "Line2"@) + ") from x="@
            + int_decimal(input.a as int) + " to x=x"@, PodId::Result)),
        f.scratch.contains_key("fx3"@) && f.scratch["fx3"@] == cleaned_answer(replies, 10)
            && next_query(state_after(input, replies, 10))
            == Some::<(Seq<char>, PodId)>(("Integrate("@ + res_text(f.results, "Line3"@)
            + ") from x=0 to x=x"@, PodId::Result)),
        f.scratch.contains_key("fx4"@) && f.scratch["fx4"@] == cleaned_answer(replies, 11)
            && next_query(state_after(input, replies, 11))
            == Some::<(Seq<char>, PodId)>(("Integrate("@ + res_text(f.results, "Line4"@) + ") from x="@
            + int_decimal(input.b as int) + " to x=x"@, PodId::Result)),
        f.results.contains_key("Fx2Integral"@) && f.results["Fx2Integral"@] == cleaned_answer(replies, 12)
            && next_query(state_after(input, replies, 12))
            == Some::<(Seq<char>, PodId)>((res_text(f.scratch, "fx2"@), PodId::ExpandedForm)),
        f.results.contains_key("Fx2RawSum"@) && f.results["Fx2RawSum"@] == cleaned_answer(replies, 13)
            && next_query(state_after(input, replies, 13))
            == Some::<(Seq<char>, PodId)>((res_text(f.results, "A1Integral"@) + " + "@
            + res_text(f.results, "Fx2Integral"@), PodId::Result)),
        f.scratch.contains_key("fx2_sum"@) && f.scratch["fx2_sum"@] == cleaned_answer(replies, 14)
            && next_query(state_after(input, replies, 14))
            == Some::<(Seq<char>, PodId)>((res_text(f.results, "Fx2RawSum"@) + " where a = "@
            + res_text(f.results, "A"@), PodId::Result)),
        f.results.contains_key("Fx2Sum"@) && f.results["Fx2Sum"@] == cleaned_answer(replies, 15)
            && next_query(state_after(input, replies, 15))
            == Some::<(Seq<char>, PodId)>((res_text(f.scratch, "fx2_sum"@), PodId::ExpandedForm)),
        f.results.contains_key("Fx3Integral"@) && f.results["Fx3Integral"@] == cleaned_answer(replies, 16)
            && next_query(state_after(input, replies, 16))
            == Some::<(Seq<char>, PodId)>((res_text(f.scratch, "fx3"@), PodId::ExpandedForm)),
        f.results.contains_key("Fx3RawSum"@) && f.results["Fx3RawSum"@] == cleaned_answer(replies, 17)
            && next_query(state_after(input, replies, 17))
            == Some::<(Seq<char>, PodId)>((res_text(f.results, "A1Integral"@) + " + "@
            + res_text(f.results, "A2Integral"@) + " + "@ + res_text(f.results, "Fx3Integral"@),
            PodId::Result)),
        f.scratch.contains_key("fx3_sum"@) && f.scratch["fx3_sum"@] == cleaned_answer(replies, 18)
            && next_query(state_after(input, replies, 18))
            == Some::<(Seq<char>, PodId)>((res_text(f.results, "Fx3RawSum"@) + " where a = "@
            + res_text(f.results, "A"@), PodId::Result)),
        f.results.contains_key("Fx3Sum"@) && f.results["Fx3Sum"@] == cleaned_answer(replies, 19)
            && next_query(state_after(input, replies, 19))
            == Some::<(Seq<char>, PodId)>((res_text(f.scratch, "fx3_sum"@), PodId::ExpandedForm)),
        f.results.contains_key("Fx4Integral"@) && f.results["Fx4Integral"@] == cleaned_answer(replies, 20)
            && next_query(state_after(input, replies, 20))
            == Some::<(Seq<char>, PodId)>((res_text(f.scratch, "fx4"@), PodId::ExpandedForm)),
        f.results.contains_key("Fx4RawSum"@) && f.results["Fx4RawSum"@] == cleaned_answer(replies, 21)
            && next_query(state_after(input, replies, 21))
            == Some::<(Seq<char>, PodId)>((res_text(f.results, "A1Integral"@) + " + "@
            + res_text(f.results, "A2Integral"@) + " + "@ + res_text(f.results, "A3Integral"@) + " + "@
            + res_text(f.results, "Fx4Integral"@), PodId::Result)),
        f.scratch.contains_key("fx4_sum"@) && f.scratch["fx4_sum"@] == cleaned_answer(replies, 22)
            && next_query(state_after(input, replies, 22))
            == Some::<(Seq<char>, PodId)>((res_text(f.results, "Fx4RawSum"@) + " where a = "@
            + res_text(f.results, "A"@), PodId::Result)),
        f.results.contains_key("Fx4Sum"@) && f.results["Fx4Sum"@] == cleaned_answer(replies, 23)
            && next_query(state_after(input, replies, 23))
            == Some::<(Seq<char>, PodId)>((res_text(f.scratch, "fx4_sum"@), PodId::ExpandedForm)),
{
    lemma_names_differ();
    assert(f.results.contains_key("Fx1Integral"@) && f.results["Fx1Integral"@] == cleaned_answer(replies, 8)
            && f.results.contains_key("Fx1Sum"@) && f.results["Fx1Sum"@] == cleaned_answer(replies, 8)
            && next_query(state_after(input, replies, 8))
            == Some::<(Seq<char>, PodId)>(("Integrate("@ + res_text(f.results, "Line1"@)
            + ") from x=-inf to x=x"@, PodId::Result))) by {
        lemma_step_in_run(input, replies, 8);
        lemma_run_keeps(store(state_after(input, replies, 8), cleaned_answer(replies, 8)), replies.skip(9),
            "Fx1Integral"@);
        lemma_run_keeps(store(state_after(input, replies, 8), cleaned_answer(replies, 8)), replies.skip(9),
            "Fx1Sum"@);
        lemma_run_keeps(state_after(input, replies, 8), replies.skip(8), "Line1"@);
    }
    assert(f.scratch.contains_key("fx2"@) && f.scratch["fx2"@] == cleaned_answer(replies, 9)
            && next_query(state_after(input, replies, 9))
            == Some::<(Seq<char>, PodId)>(("Integrate("@ + res_text(f.results, "Line2"@) + ") from x="@
            + int_decimal(input.a as int) + " to x=x"@, PodId::Result))) by {
        lemma_step_in_run(input, replies, 9);
        lemma_run_keeps_scratch(store(state_after(input, replies, 9), cleaned_answer(replies, 9)),
            replies.skip(10), "fx2"@);
        lemma_run_keeps(state_after(input, replies, 9), replies.skip(9), "Line2"@);
    }
    assert(f.scratch.contains_key("fx3"@) && f.scratch["fx3"@] == cleaned_answer(replies, 10)
            && next_query(state_after(input, replies, 10))
            == Some::<(Seq<char>, PodId)>(("Integrate("@ + res_text(f.results, "Line3"@)
            + ") from x=0 to x=x"@, PodId::Result))) by {
        lemma_step_in_run(input, replies, 10);
        lemma_run_keeps_scratch(store(state_after(input, replies, 10), cleaned_answer(replies, 10)),
            replies.skip(11), "fx3"@);
        lemma_run_keeps(state_after(input, replies, 10), replies.skip(10), "Line3"@);
    }
    assert(f.scratch.contains_key("fx4"@) && f.scratch["fx4"@] == cleaned_answer(replies, 11)
            && next_query(state_after(input, replies, 11))
            == Some::<(Seq<char>, PodId)>(("Integrate("@ + res_text(f.results, "Line4"@) + ") from x="@
            + int_decimal(input.b as int) + " to x=x"@, PodId::Result))) by {
        lemma_step_in_run(input, replies, 11);
        lemma_run_keeps_scratch(store(state_after(input, replies, 11), cleaned_answer(replies, 11)),
            replies.skip(12), "fx4"@);
        lemma_run_keeps(state_after(input, replies, 11), replies.skip(11), "Line4"@);
    }
    assert(f.results.contains_key("Fx2Integral"@) && f.results["Fx2Integral"@] == cleaned_answer(replies, 12)
            && next_query(state_after(input, replies, 12))
            == Some::<(Seq<char>, PodId)>((res_text(f.scratch, "fx2"@), PodId::ExpandedForm))) by {
        lemma_step_in_run(input, replies, 12);
        lemma_run_keeps(store(state_after(input, replies, 12), cleaned_answer(replies, 12)), replies.skip(13),
            "Fx2Integral"@);
        lemma_run_keeps_scratch(state_after(input, replies, 12), replies.skip(12), "fx2"@);
    }
    assert(f.results.contains_key("Fx2RawSum"@) && f.results["Fx2RawSum"@] == cleaned_answer(replies, 13)
            && next_query(state_after(input, replies, 13))
            == Some::<(Seq<char>, PodId)>((res_text(f.results, "A1Integral"@) + " + "@
            + res_text(f.results, "Fx2Integral"@), PodId::Result))) by {
        lemma_step_in_run(input, replies, 13);
        lemma_run_keeps(store(state_after(input, replies, 13), cleaned_answer(replies, 13)), replies.skip(14),
            "Fx2RawSum"@);
        lemma_run_keeps(state_after(input, replies, 13), replies.skip(13), "A1Integral"@);
        lemma_run_keeps(state_after(input, replies, 13), replies.skip(13), "Fx2Integral"@);
    }
    assert(f.scratch.contains_key("fx2_sum"@) && f.scratch["fx2_sum"@] == cleaned_answer(replies, 14)
            && next_query(state_after(input, replies, 14))
            == Some::<(Seq<char>, PodId)>((res_text(f.results, "Fx2RawSum"@) + " where a = "@
            + res_text(f.results, "A"@), PodId::Result))) by {
        lemma_step_in_run(input, replies, 14);
        lemma_run_keeps_scratch(store(state_after(input, replies, 14), cleaned_answer(replies, 14)),
            replies.skip(15), "fx2_sum"@);
        lemma_run_keeps(state_after(input, replies, 14), replies.skip(14), "Fx2RawSum"@);
        lemma_run_keeps(state_after(input, replies, 14), replies.skip(14), "A"@);
    }
    assert(f.results.contains_key("Fx2Sum"@) && f.results["Fx2Sum"@] == cleaned_answer(replies, 15)
            && next_query(state_after(input, replies, 15))
            == Some::<(Seq<char>, PodId)>((res_text(f.scratch, "fx2_sum"@), PodId::ExpandedForm))) by {
        lemma_step_in_run(input, replies, 15);
        lemma_run_keeps(store(state_after(input, replies, 15), cleaned_answer(replies, 15)), replies.skip(16),
            "Fx2Sum"@);
        lemma_run_keeps_scratch(state_after(input, replies, 15), replies.skip(15), "fx2_sum"@);
    }
    assert(f.results.contains_key("Fx3Integral"@) && f.results["Fx3Integral"@] == cleaned_answer(replies, 16)
            && next_query(state_after(input, replies, 16))
            == Some::<(Seq<char>, PodId)>((res_text(f.scratch, "fx3"@), PodId::ExpandedForm))) by {
        lemma_step_in_run(input, replies, 16);
        lemma_run_keeps(store(state_after(input, replies, 16), cleaned_answer(replies, 16)), replies.skip(17),
            "Fx3Integral"@);
        lemma_run_keeps_scratch(state_after(input, replies, 16), replies.skip(16), "fx3"@);
    }
    assert(f.results.contains_key("Fx3RawSum"@) && f.results["Fx3RawSum"@] == cleaned_answer(replies, 17)
            && next_query(state_after(input, replies, 17))
            == Some::<(Seq<char>, PodId)>((res_text(f.results, "A1Integral"@) + " + "@
            + res_text(f.results, "A2Integral"@) + " + "@ + res_text(f.results, "Fx3Integral"@),
            PodId::Result))) by {
        lemma_step_in_run(input, replies, 17);
        lemma_run_keeps(store(state_after(input, replies, 17), cleaned_answer(replies, 17)), replies.skip(18),
            "Fx3RawSum"@);
        lemma_run_keeps(state_after(input, replies, 17), replies.skip(17), "A1Integral"@);
        lemma_run_keeps(state_after(input, replies, 17), replies.skip(17), "A2Integral"@);
        lemma_run_keeps(state_after(input, replies, 17), replies.skip(17), "Fx3Integral"@);
    }
    assert(f.scratch.contains_key("fx3_sum"@) && f.scratch["fx3_sum"@] == cleaned_answer(replies, 18)
            && next_query(state_after(input, replies, 18))
            == Some::<(Seq<char>, PodId)>((res_text(f.results, "Fx3RawSum"@) + " where a = "@
            + res_text(f.results, "A"@), PodId::Result))) by {
        lemma_step_in_run(input, replies, 18);
        lemma_run_keeps_scratch(store(state_after(input, replies, 18), cleaned_answer(replies, 18)),
            replies.skip(19), "fx3_sum"@);
        lemma_run_keeps(state_after(input, replies, 18), replies.skip(18), "Fx3RawSum"@);
        lemma_run_keeps(state_after(input, replies, 18), replies.skip(18), "A"@);
    }
    assert(f.results.contains_key("Fx3Sum"@) && f.results["Fx3Sum"@] == cleaned_answer(replies, 19)
            && next_query(state_after(input, replies, 19))
            == Some::<(Seq<char>, PodId)>((res_text(f.scratch, "fx3_sum"@), PodId::ExpandedForm))) by {
        lemma_step_in_run(input, replies, 19);
        lemma_run_keeps(store(state_after(input, replies, 19), cleaned_answer(replies, 19)), replies.skip(20),
            "Fx3Sum"@);
        lemma_run_keeps_scratch(state_after(input, replies, 19), replies.skip(19), "fx3_sum"@);
    }
    assert(f.results.contains_key("Fx4Integral"@) && f.results["Fx4Integral"@] == cleaned_answer(replies, 20)
            && next_query(state_after(input, replies, 20))
            == Some::<(Seq<char>, PodId)>((res_text(f.scratch, "fx4"@), PodId::ExpandedForm))) by {
        lemma_step_in_run(input, replies, 20);
        lemma_run_keeps(store(state_after(input, replies, 20), cleaned_answer(replies, 20)), replies.skip(21),
            "Fx4Integral"@);
        lemma_run_keeps_scratch(state_after(input, replies, 20), replies.skip(20), "fx4"@);
    }
    assert(f.results.contains_key("Fx4RawSum"@) && f.results["Fx4RawSum"@] == cleaned_answer(replies, 21)
            && next_query(state_after(input, replies, 21))
            == Some::<(Seq<char>, PodId)>((res_text(f.results, "A1Integral"@) + " + "@
            + res_text(f.results, "A2Integral"@) + " + "@ + res_text(f.results, "A3Integral"@) + " + "@
            + res_text(f.results, "Fx4Integral"@), PodId::Result))) by {
        lemma_step_in_run(input, replies, 21);
        lemma_run_keeps(store(state_after(input, replies, 21), cleaned_answer(replies, 21)), replies.skip(22),
            "Fx4RawSum"@);
        lemma_run_keeps(state_after(input, replies, 21), replies.skip(21), "A1Integral"@);
        lemma_run_keeps(state_after(input, replies, 21), replies.skip(21), "A2Integral"@);
        lemma_run_keeps(state_after(input, replies, 21), replies.skip(21), "A3Integral"@);
        lemma_run_keeps(state_after(input, replies, 21), replies.skip(21), "Fx4Integral"@);
    }
    assert(f.scratch.contains_key("fx4_sum"@) && f.scratch["fx4_sum"@] == cleaned_answer(replies, 22)
            && next_query(state_after(input, replies, 22))
            == Some::<(Seq<char>, PodId)>((res_text(f.results, "Fx4RawSum"@) + " where a = "@
            + res_text(f.results, "A"@), PodId::Result))) by {
        lemma_step_in_run(input, replies, 22);
        lemma_run_keeps_scratch(store(state_after(input, replies, 22), cleaned_answer(replies, 22)),
            replies.skip(23), "fx4_sum"@);
        lemma_run_keeps(state_after(input, replies, 22), replies.skip(22), "Fx4RawSum"@);
        lemma_run_keeps(state_after(input, replies, 22), replies.skip(22), "A"@);
    }
    assert(f.results.contains_key("Fx4Sum"@) && f.results["Fx4Sum"@] == cleaned_answer(replies, 23)
            && next_query(state_after(input, replies, 23))
            == Some::<(Seq<char>, PodId)>((res_text(f.scratch, "fx4_sum"@), PodId::ExpandedForm))) by {
        lemma_step_in_run(input, replies, 23);
        lemma_run_keeps(store(state_after(input, replies, 23), cleaned_answer(replies, 23)), replies.skip(24),
            "Fx4Sum"@);
        lemma_run_keeps_scratch(state_after(input, replies, 23), replies.skip(23), "fx4_sum"@);
    }
}

/// In a run in which every query is answered, the results that find `M(x)`
/// hold the cleaned answers to their own queries, and each of those
/// queries, written over the results at the end of the run, is what the
/// step asked: in particular `MxSum` answers `MxRawSum where a = A` and
/// `MxFloat` answers `N[MxSum, 10]`.
pub proof fn lemma_answered_run_expectation(input: Input, replies: Seq<Result<Seq<char>, BackendError>>,
    f: SolverState)
    requires
        replies.len() == STEP_COUNT,
        all_answered(replies),
        run_replies(initial_state(input), replies) == Ok::<SolverState, BackendError>(f),
    ensures
        f.results.contains_key("Mx1Integral"@) && f.results["Mx1Integral"@] == cleaned_answer(replies, 24)
            && next_query(state_after(input, replies, 24))
            == Some::<(Seq<char>, PodId)>(("Integrate("@ + res_text(f.results, "Line1"@)
            + " x) from x=-inf to x="@ + int_decimal(input.a as int), PodId::Input)),
        f.results.contains_key("Mx2Integral"@) && f.results["Mx2Integral"@] == cleaned_answer(replies, 25)
            && next_query(state_after(input, replies, 25))
            == Some::<(Seq<char>, PodId)>(("Integrate(("@ + res_text(f.results, "Line2"@) + ") x) from x="@
            + int_decimal(input.a as int) + " to x=0"@, PodId::Input)),
        f.results.contains_key("Mx3Integral"@) && f.results["Mx3Integral"@] == cleaned_answer(replies, 26)
            && next_query(state_after(input, replies, 26))
            == Some::<(Seq<char>, PodId)>(("Integrate(("@ + res_text(f.results, "Line3"@)
            + ") x) from x=0 to x="@ + int_decimal(input.b as int), PodId::Input)),
        f.results.contains_key("Mx4Integral"@) && f.results["Mx4Integral"@] == cleaned_answer(replies, 27)
            && next_query(state_after(input, replies, 27))
            == Some::<(Seq<char>, PodId)>(("Integrate("@ + res_text(f.results, "Line4"@) + " x) from x="@
            + int_decimal(input.b as int) + " to x=inf"@, PodId::Input)),
        f.results.contains_key("Mx2Integral1"@) && f.results["Mx2Integral1"@] == cleaned_answer(replies, 28)
            && next_query(state_after(input, replies, 28))
            == Some::<(Seq<char>, PodId)>(("Integrate("@ + res_text(f.results, "Line1"@)
            + " x^2) from x=-inf to x="@ + int_decimal(input.a as int), PodId::Input)),
        f.results.contains_key("Mx2Integral2"@) && f.results["Mx2Integral2"@] == cleaned_answer(replies, 29)
            && next_query(state_after(input, replies, 29))
            == Some::<(Seq<char>, PodId)>(("Integrate(("@ + res_text(f.results, "Line2"@) + ") x^2) from x="@
            + int_decimal(input.a as int) + " to x=0"@, PodId::Input)),
        f.results.contains_key("Mx2Integral3"@) && f.results["Mx2Integral3"@] == cleaned_answer(replies, 30)
            && next_query(state_after(input, replies, 30))
            == Some::<(Seq<char>, PodId)>(("Integrate(("@ + res_text(f.results, "Line3"@)
            + ") x^2) from x=0 to x="@ + int_decimal(input.b as int), PodId::Input)),
        f.results.contains_key("Mx2Integral4"@) && f.results["Mx2Integral4"@] == cleaned_answer(replies, 31)
            && next_query(state_after(input, replies, 31))
            == Some::<(Seq<char>, PodId)>(("Integrate("@ + res_text(f.results, "Line4"@) + " x^2) from x="@
            + int_decimal(input.b as int) + " to x=inf"@, PodId::Input)),
        f.results.contains_key("MxRawSum"@) && f.results["MxRawSum"@] == cleaned_answer(replies, 32)
            && next_query(state_after(input, replies, 32))
            == Some::<(Seq<char>, PodId)>((res_text(f.results, "Mx1Integral"@) + " + "@
            + res_text(f.results, "Mx2Integral"@) + " + "@ + res_text(f.results, "Mx3Integral"@) + " + "@
            + res_text(f.results, "Mx4Integral"@), PodId::Result)),
        f.results.contains_key("MxSum"@) && f.results["MxSum"@] == cleaned_answer(replies, 33)
            && next_query(state_after(input, replies, 33))
            == Some::<(Seq<char>, PodId)>((res_text(f.results, "MxRawSum"@) + " where a = "@
            + res_text(f.results, "A"@), PodId::Result)),
        f.results.contains_key("MxFloat"@) && f.results["MxFloat"@] == cleaned_answer(replies, 34)
            && next_query(state_after(input, replies, 34))
            == Some::<(Seq<char>, PodId)>(("N["@ + res_text(f.results, "MxSum"@) + ", 10]"@, PodId::Result)),
{
    lemma_names_differ();
    assert(f.results.contains_key("Mx1Integral"@) && f.results["Mx1Integral"@] == cleaned_answer(replies, 24)
            && next_query(state_after(input, replies, 24))
            == Some::<(Seq<char>, PodId)>(("Integrate("@ + res_text(f.results, "Line1"@)
            + " x) from x=-inf to x="@ + int_decimal(input.a as int), PodId::Input))) by {
        lemma_step_in_run(input, replies, 24);
        lemma_run_keeps(store(state_after(input, replies, 24), cleaned_answer(replies, 24)), replies.skip(25),
            "Mx1Integral"@);
        lemma_run_keeps(state_after(input, replies, 24), replies.skip(24), "Line1"@);
    }
    assert(f.results.contains_key("Mx2Integral"@) && f.results["Mx2Integral"@] == cleaned_answer(replies, 25)
            && next_query(state_after(input, replies, 25))
            == Some::<(Seq<char>, PodId)>(("Integrate(("@ + res_text(f.results, "Line2"@) + ") x) from x="@
            + int_decimal(input.a as int) + " to x=0"@, PodId::Input))) by {
        lemma_step_in_run(input, replies, 25);
        lemma_run_keeps(store(state_after(input, replies, 25), cleaned_answer(replies, 25)), replies.skip(26),
            "Mx2Integral"@);
        lemma_run_keeps(state_after(input, replies, 25), replies.skip(25), "Line2"@);
    }
    assert(f.results.contains_key("Mx3Integral"@) && f.results["Mx3Integral"@] == cleaned_answer(replies, 26)
            && next_query(state_after(input, replies, 26))
            == Some::<(Seq<char>, PodId)>(("Integrate(("@ + res_text(f.results, "Line3"@)
            + ") x) from x=0 to x="@ + int_decimal(input.b as int), PodId::Input))) by {
        lemma_step_in_run(input, replies, 26);
        lemma_run_keeps(store(state_after(input, replies, 26), cleaned_answer(replies, 26)), replies.skip(27),
            "Mx3Integral"@);
        lemma_run_keeps(state_after(input, replies, 26), replies.skip(26), "Line3"@);
    }
    assert(f.results.contains_key("Mx4Integral"@) && f.results["Mx4Integral"@] == cleaned_answer(replies, 27)
            && next_query(state_after(input, replies, 27))
            == Some::<(Seq<char>, PodId)>(("Integrate("@ + res_text(f.results, "Line4"@) + " x) from x="@
            + int_decimal(input.b as int) + " to x=inf"@, PodId::Input))) by {
        lemma_step_in_run(input, replies, 27);
        lemma_run_keeps(store(state_after(input, replies, 27), cleaned_answer(replies, 27)), replies.skip(28),
            "Mx4Integral"@);
        lemma_run_keeps(state_after(input, replies, 27), replies.skip(27), "Line4"@);
    }
    assert(f.results.contains_key("Mx2Integral1"@) && f.results["Mx2Integral1"@]
        == cleaned_answer(replies, 28)
            && next_query(state_after(input, replies, 28))
            == Some::<(Seq<char>, PodId)>(("Integrate("@ + res_text(f.results, "Line1"@)
            + " x^2) from x=-inf to x="@ + int_decimal(input.a as int), PodId::Input))) by {
        lemma_step_in_run(input, replies, 28);
        lemma_run_keeps(store(state_after(input, replies, 28), cleaned_answer(replies, 28)), replies.skip(29),
            "Mx2Integral1"@);
        lemma_run_keeps(state_after(input, replies, 28), replies.skip(28), "Line1"@);
    }
    assert(f.results.contains_key("Mx2Integral2"@) && f.results["Mx2Integral2"@]
        == cleaned_answer(replies, 29)
            && next_query(state_after(input, replies, 29))
            == Some::<(Seq<char>, PodId)>(("Integrate(("@ + res_text(f.results, "Line2"@) + ") x^2) from x="@
            + int_decimal(input.a as int) + " to x=0"@, PodId::Input))) by {
        lemma_step_in_run(input, replies, 29);
        lemma_run_keeps(store(state_after(input, replies, 29), cleaned_answer(replies, 29)), replies.skip(30),
            "Mx2Integral2"@);
        lemma_run_keeps(state_after(input, replies, 29), replies.skip(29), "Line2"@);
    }
    assert(f.results.contains_key("Mx2Integral3"@) && f.results["Mx2Integral3"@]
        == cleaned_answer(replies, 30)
            && next_query(state_after(input, replies, 30))
            == Some::<(Seq<char>, PodId)>(("Integrate(("@ + res_text(f.results, "Line3"@)
            + ") x^2) from x=0 to x="@ + int_decimal(input.b as int), PodId::Input))) by {
        lemma_step_in_run(input, replies, 30);
        lemma_run_keeps(store(state_after(input, replies, 30), cleaned_answer(replies, 30)), replies.skip(31),
            "Mx2Integral3"@);
        lemma_run_keeps(state_after(input, replies, 30), replies.skip(30), "Line3"@);
    }
    assert(f.results.contains_key("Mx2Integral4"@) && f.results["Mx2Integral4"@]
        == cleaned_answer(replies, 31)
            && next_query(state_after(input, replies, 31))
            == Some::<(Seq<char>, PodId)>(("Integrate("@ + res_text(f.results, "Line4"@) + " x^2) from x="@
            + int_decimal(input.b as int) + " to x=inf"@, PodId::Input))) by {
        lemma_step_in_run(input, replies, 31);
        lemma_run_keeps(store(state_after(input, replies, 31), cleaned_answer(replies, 31)), replies.skip(32),
            "Mx2Integral4"@);
        lemma_run_keeps(state_after(input, replies, 31), replies.skip(31), "Line4"@);
    }
    assert(f.results.contains_key("MxRawSum"@) && f.results["MxRawSum"@] == cleaned_answer(replies, 32)
            && next_query(state_after(input, replies, 32))
            == Some::<(Seq<char>, PodId)>((res_text(f.results, "Mx1Integral"@) + " + "@
            + res_text(f.results, "Mx2Integral"@) + " + "@ + res_text(f.results, "Mx3Integral"@) + " + "@
            + res_text(f.results, "Mx4Integral"@), PodId::Result))) by {
        lemma_step_in_run(input, replies, 32);
        lemma_run_keeps(store(state_after(input, replies, 32), cleaned_answer(replies, 32)), replies.skip(33),
            "MxRawSum"@);
        lemma_run_keeps(state_after(input, replies, 32), replies.skip(32), "Mx1Integral"@);
        lemma_run_keeps(state_after(input, replies, 32), replies.skip(32), "Mx2Integral"@);
        lemma_run_keeps(state_after(input, replies, 32), replies.skip(32), "Mx3Integral"@);
        lemma_run_keeps(state_after(input, replies, 32), replies.skip(32), "Mx4Integral"@);
    }
    assert(f.results.contains_key("MxSum"@) && f.results["MxSum"@] == cleaned_answer(replies, 33)
            && next_query(state_after(input, replies, 33))
            == Some::<(Seq<char>, PodId)>((res_text(f.results, "MxRawSum"@) + " where a = "@
            + res_text(f.results, "A"@), PodId::Result))) by {
        lemma_step_in_run(input, replies, 33);
        lemma_run_keeps(store(state_after(input, replies, 33), cleaned_answer(replies, 33)), replies.skip(34),
            "MxSum"@);
        lemma_run_keeps(state_after(input, replies, 33), replies.skip(33), "MxRawSum"@);
        lemma_run_keeps(state_after(input, replies, 33), replies.skip(33), "A"@);
    }
    assert(f.results.contains_key("MxFloat"@) && f.results["MxFloat"@] == cleaned_answer(replies, 34)
            && next_query(state_after(input, replies, 34))
            == Some::<(Seq<char>, PodId)>(("N["@ + res_text(f.results, "MxSum"@) + ", 10]"@,
            PodId::Result))) by {
        lemma_step_in_run(input, replies, 34);
        lemma_run_keeps(store(state_after(input, replies, 34), cleaned_answer(replies, 34)), replies.skip(35),
            "MxFloat"@);
        lemma_run_keeps(state_after(input, replies, 34), replies.skip(34), "MxSum"@);
    }
}

/// In a run in which every query is answered, the results that find `D(x)`
/// and the standard deviation hold the cleaned answers to their own
/// queries, and each of those queries, written over the results at the end
/// of the run, is what the step asked: `Mx2Sum` answers
/// `Mx2RawSum where a = A`, `m2Sum` answers `(MxSum)^2`, `Dx` answers
/// `Mx2Sum - m2Sum`, `DxFloat` answers `N[Dx, 10]` and `G` answers
/// `sqrt(Dx) 10 digits`.
pub proof fn lemma_answered_run_variance(input: Input, replies: Seq<Result<Seq<char>, BackendError>>,
    f: SolverState)
    requires
        replies.len() == STEP_COUNT,
        all_answered(replies),
        run_replies(initial_state(input), replies) == Ok::<SolverState, BackendError>(f),
    ensures
        f.results.contains_key("Mx2RawSum"@) && f.results["Mx2RawSum"@] == cleaned_answer(replies, 35)
            && next_query(state_after(input, replies, 35))
            == Some::<(Seq<char>, PodId)>((res_text(f.results, "Mx2Integral1"@) + " + "@
            + res_text(f.results, "Mx2Integral2"@) + " + "@ + res_text(f.results, "Mx2Integral3"@) + " + "@
            + res_text(f.results, "Mx2Integral4"@), PodId::Result)),
        f.results.contains_key("Mx2Sum"@) && f.results["Mx2Sum"@] == cleaned_answer(replies, 36)
            && next_query(state_after(input, replies, 36))
            == Some::<(Seq<char>, PodId)>((res_text(f.results, "Mx2RawSum"@) + " where a = "@
            + res_text(f.results, "A"@), PodId::Result)),
        f.results.contains_key("m2Sum"@) && f.results["m2Sum"@] == cleaned_answer(replies, 37)
            && next_query(state_after(input, replies, 37))
            == Some::<(Seq<char>, PodId)>(("("@ + res_text(f.results, "MxSum"@) + ")^2"@, PodId::Result)),
        f.results.contains_key("Dx"@) && f.results["Dx"@] == cleaned_answer(replies, 38)
            && next_query(state_after(input, replies, 38))
            == Some::<(Seq<char>, PodId)>((res_text(f.results, "Mx2Sum"@) + " - "@
            + res_text(f.results, "m2Sum"@), PodId::Result)),
        f.results.contains_key("DxFloat"@) && f.results["DxFloat"@] == cleaned_answer(replies, 39)
            && next_query(state_after(input, replies, 39))
            == Some::<(Seq<char>, PodId)>(("N["@ + res_text(f.results, "Dx"@) + ", 10]"@, PodId::Result)),
        f.results.contains_key("G"@) && f.results["G"@] == cleaned_answer(replies, 40)
            && next_query(state_after(input, replies, 40))
            == Some::<(Seq<char>, PodId)>(("sqrt("@ + res_text(f.results, "Dx"@) + ") 10 digits"@,
            PodId::Result)),
{
    lemma_names_differ();
    assert(f.results.contains_key("Mx2RawSum"@) && f.results["Mx2RawSum"@] == cleaned_answer(replies, 35)
            && next_query(state_after(input, replies, 35))
            == Some::<(Seq<char>, PodId)>((res_text(f.results, "Mx2Integral1"@) + " + "@
            + res_text(f.results, "Mx2Integral2"@) + " + "@ + res_text(f.results, "Mx2Integral3"@) + " + "@
            + res_text(f.results, "Mx2Integral4"@), PodId::Result))) by {
        lemma_step_in_run(input, replies, 35);
        lemma_run_keeps(store(state_after(input, replies, 35), cleaned_answer(replies, 35)), replies.skip(36),
            "Mx2RawSum"@);
        lemma_run_keeps(state_after(input, replies, 35), replies.skip(35), "Mx2Integral1"@);
        lemma_run_keeps(state_after(input, replies, 35), replies.skip(35), "Mx2Integral2"@);
        lemma_run_keeps(state_after(input, replies, 35), replies.skip(35), "Mx2Integral3"@);
        lemma_run_keeps(state_after(input, replies, 35), replies.skip(35), "Mx2Integral4"@);
    }
    assert(f.results.contains_key("Mx2Sum"@) && f.results["Mx2Sum"@] == cleaned_answer(replies, 36)
            && next_query(state_after(input, replies, 36))
            == Some::<(Seq<char>, PodId)>((res_text(f.results, "Mx2RawSum"@) + " where a = "@
            + res_text(f.results, "A"@), PodId::Result))) by {
        lemma_step_in_run(input, replies, 36);
        lemma_run_keeps(store(state_after(input, replies, 36), cleaned_answer(replies, 36)), replies.skip(37),
            "Mx2Sum"@);
        lemma_run_keeps(state_after(input, replies, 36), replies.skip(36), "Mx2RawSum"@);
        lemma_run_keeps(state_after(input, replies, 36), replies.skip(36), "A"@);
    }
    assert(f.results.contains_key("m2Sum"@) && f.results["m2Sum"@] == cleaned_answer(replies, 37)
            && next_query(state_after(input, replies, 37))
            == Some::<(Seq<char>, PodId)>(("("@ + res_text(f.results, "MxSum"@) + ")^2"@,
            PodId::Result))) by {
        lemma_step_in_run(input, replies, 37);
        lemma_run_keeps(store(state_after(input, replies, 37), cleaned_answer(replies, 37)), replies.skip(38),
            "m2Sum"@);
        lemma_run_keeps(state_after(input, replies, 37), replies.skip(37), "MxSum"@);
    }
    assert(f.results.contains_key("Dx"@) && f.results["Dx"@] == cleaned_answer(replies, 38)
            && next_query(state_after(input, replies, 38))
            == Some::<(Seq<char>, PodId)>((res_text(f.results, "Mx2Sum"@) + " - "@
            + res_text(f.results, "m2Sum"@), PodId::Result))) by {
        lemma_step_in_run(input, replies, 38);
        lemma_run_keeps(store(state_after(input, replies, 38), cleaned_answer(replies, 38)), replies.skip(39),
            "Dx"@);
        lemma_run_keeps(state_after(input, replies, 38), replies.skip(38), "Mx2Sum"@);
        lemma_run_keeps(state_after(input, replies, 38), replies.skip(38), "m2Sum"@);
    }
    assert(f.results.contains_key("DxFloat"@) && f.results["DxFloat"@] == cleaned_answer(replies, 39)
            && next_query(state_after(input, replies, 39))
            == Some::<(Seq<char>, PodId)>(("N["@ + res_text(f.results, "Dx"@) + ", 10]"@,
            PodId::Result))) by {
        lemma_step_in_run(input, replies, 39);
        lemma_run_keeps(store(state_after(input, replies, 39), cleaned_answer(replies, 39)), replies.skip(40),
            "DxFloat"@);
        lemma_run_keeps(state_after(input, replies, 39), replies.skip(39), "Dx"@);
    }
    assert(f.results.contains_key("G"@) && f.results["G"@] == cleaned_answer(replies, 40)
            && next_query(state_after(input, replies, 40))
            == Some::<(Seq<char>, PodId)>(("sqrt("@ + res_text(f.results, "Dx"@) + ") 10 digits"@,
            PodId::Result))) by {
        lemma_step_in_run(input, replies, 40);
        lemma_run_keeps(store(state_after(input, replies, 40), cleaned_answer(replies, 40)), replies.skip(41),
            "G"@);
        lemma_run_keeps(state_after(input, replies, 40), replies.skip(40), "Dx"@);
    }
}

} // verus!
