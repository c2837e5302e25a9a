//! The plan of queries that solves a task.
//!
//! Solving takes a fixed series of queries to the computer-algebra service.
//! Each query is built from the task and from the results of earlier
//! queries; each cleaned answer is stored under a name. Some queries may
//! fail without harm: their result is then a stand-in text taken from
//! earlier results. Any other failure ends the run. The sending itself is
//! left to the caller: `Solver::next_query` says what to ask, and
//! `Solver::solve` takes the answer and says what to ask next.

use vstd::prelude::*;

use crate::api::client::{operand_of, operand_text};
use crate::api::models::PodId;
use crate::backend::errors::BackendError;
use crate::backend::input::Input;
use crate::backend::report::{ReportMaker, report_document, sum4_line, sum4_text};
use crate::backend::results::{ResultMap, res_text};
use crate::text::{int_decimal, isize_to_decimal};

verus! {

/// The number of queries a run takes.
pub const STEP_COUNT: usize = 41;

/// Where the result of a step goes.
pub enum TargetSpec {
    /// Under one name of the results.
    Named(Seq<char>),
    /// Under two names of the results.
    NamedTwice(Seq<char>, Seq<char>),
    /// Under a name of the intermediate values, which the report does not show.
    Scratch(Seq<char>),
}

/// Where the result of step `i` goes.
pub open spec fn step_target(i: int) -> TargetSpec {
    if i == 0 { TargetSpec::Named("Line2"@) }
    else if i == 1 { TargetSpec::Named("Line3"@) }
    else if i == 2 { TargetSpec::Named("A1Integral"@) }
    else if i == 3 { TargetSpec::Named("A2Integral"@) }
    else if i == 4 { TargetSpec::Named("A3Integral"@) }
    else if i == 5 { TargetSpec::Named("A4Integral"@) }
    else if i == 6 { TargetSpec::Named("ASum"@) }
    else if i == 7 { TargetSpec::Named("A"@) }
    else if i == 8 { TargetSpec::NamedTwice("Fx1Integral"@, "Fx1Sum"@) }
    else if i == 9 { TargetSpec::Scratch("fx2"@) }
    else if i == 10 { TargetSpec::Scratch("fx3"@) }
    else if i == 11 { TargetSpec::Scratch("fx4"@) }
    else if i == 12 { TargetSpec::Named("Fx2Integral"@) }
    else if i == 13 { TargetSpec::Named("Fx2RawSum"@) }
    else if i == 14 { TargetSpec::Scratch("fx2_sum"@) }
    else if i == 15 { TargetSpec::Named("Fx2Sum"@) }
    else if i == 16 { TargetSpec::Named("Fx3Integral"@) }
    else if i == 17 { TargetSpec::Named("Fx3RawSum"@) }
    else if i == 18 { TargetSpec::Scratch("fx3_sum"@) }
    else if i == 19 { TargetSpec::Named("Fx3Sum"@) }
    else if i == 20 { TargetSpec::Named("Fx4Integral"@) }
    else if i == 21 { TargetSpec::Named("Fx4RawSum"@) }
    else if i == 22 { TargetSpec::Scratch("fx4_sum"@) }
    else if i == 23 { TargetSpec::Named("Fx4Sum"@) }
    else if i == 24 { TargetSpec::Named("Mx1Integral"@) }
    else if i == 25 { TargetSpec::Named("Mx2Integral"@) }
    else if i == 26 { TargetSpec::Named("Mx3Integral"@) }
    else if i == 27 { TargetSpec::Named("Mx4Integral"@) }
    else if i == 28 { TargetSpec::Named("Mx2Integral1"@) }
    else if i == 29 { TargetSpec::Named("Mx2Integral2"@) }
    else if i == 30 { TargetSpec::Named("Mx2Integral3"@) }
    else if i == 31 { TargetSpec::Named("Mx2Integral4"@) }
    else if i == 32 { TargetSpec::Named("MxRawSum"@) }
    else if i == 33 { TargetSpec::Named("MxSum"@) }
    else if i == 34 { TargetSpec::Named("MxFloat"@) }
    else if i == 35 { TargetSpec::Named("Mx2RawSum"@) }
    else if i == 36 { TargetSpec::Named("Mx2Sum"@) }
    else if i == 37 { TargetSpec::Named("m2Sum"@) }
    else if i == 38 { TargetSpec::Named("Dx"@) }
    else if i == 39 { TargetSpec::Named("DxFloat"@) }
    else { TargetSpec::Named("G"@) }
}

/// The answer block that step `i` reads.
pub open spec fn step_pod(i: int) -> PodId {
    if i == 12 || i == 15 || i == 16 || i == 19 || i == 20 || i == 23 {
        PodId::ExpandedForm
    } else if 24 <= i <= 31 {
        PodId::Input
    } else {
        PodId::Result
    }
}

/// The stand-in result of step `i` where its query fails, or none where
/// such a failure ends the run.
pub open spec fn step_fallback(
    i: int,
    res: Map<Seq<char>, Seq<char>>,
    tmp: Map<Seq<char>, Seq<char>>,
) -> Option<Seq<char>> {
    if i == 12 { Some(res_text(tmp, "fx2"@)) }
    else if i == 14 { Some(res_text(res, "Fx2RawSum"@)) }
    else if i == 15 { Some(res_text(tmp, "fx2_sum"@)) }
    else if i == 16 { Some(res_text(tmp, "fx3"@)) }
    else if i == 18 { Some(res_text(res, "Fx3RawSum"@)) }
    else if i == 19 { Some(res_text(tmp, "fx3_sum"@)) }
    else if i == 20 { Some(res_text(tmp, "fx4"@)) }
    else if i == 22 { Some(res_text(res, "Fx4RawSum"@)) }
    else if i == 23 { Some(res_text(tmp, "fx4_sum"@)) }
    else if i == 33 { Some(res_text(res, "MxRawSum"@)) }
    else if i == 36 { Some(res_text(res, "Mx2RawSum"@)) }
    else { None }
}

/// The query text of step `i`, for the task bounds written `a` and `b`.
pub open spec fn step_query(
    i: int,
    a: Seq<char>,
    b: Seq<char>,
    res: Map<Seq<char>, Seq<char>>,
    tmp: Map<Seq<char>, Seq<char>>,
) -> Seq<char> {
    let r = |k: Seq<char>| res_text(res, k);
    let t = |k: Seq<char>| res_text(tmp, k);
    if i == 0 { "Line equation, points ("@ + a + ",0), (0,a)"@ }
    else if i == 1 { "Line equation, points (0, a), ("@ + b + ", 0)"@ }
    else if i == 2 { "Integrate("@ + r("Line1"@) + ") from x=-inf to x="@ + a }
    else if i == 3 { "Integrate("@ + r("Line2"@) + ") from x="@ + a + " to x=0"@ }
    else if i == 4 { "Integrate("@ + r("Line3"@) + ") from x=0 to x="@ + b }
    else if i == 5 { "Integrate("@ + r("Line4"@) + ") from x="@ + b + " to x=inf"@ }
    else if i == 6 { sum4_text(r("A1Integral"@), r("A2Integral"@), r("A3Integral"@), r("A4Integral"@)) }
    else if i == 7 { "Solve "@ + r("ASum"@) + " = 1"@ }
    else if i == 8 { "Integrate("@ + r("Line1"@) + ") from x=-inf to x=x"@ }
    else if i == 9 { "Integrate("@ + r("Line2"@) + ") from x="@ + a + " to x=x"@ }
    else if i == 10 { "Integrate("@ + r("Line3"@) + ") from x=0 to x=x"@ }
    else if i == 11 { "Integrate("@ + r("Line4"@) + ") from x="@ + b + " to x=x"@ }
    else if i == 12 { t("fx2"@) }
    else if i == 13 { r("A1Integral"@) + " + "@ + r("Fx2Integral"@) }
    else if i == 14 { r("Fx2RawSum"@) + " where a = "@ + r("A"@) }
    else if i == 15 { t("fx2_sum"@) }
    else if i == 16 { t("fx3"@) }
    else if i == 17 { r("A1Integral"@) + " + "@ + r("A2Integral"@) + " + "@ + r("Fx3Integral"@) }
    else if i == 18 { r("Fx3RawSum"@) + " where a = "@ + r("A"@) }
    else if i == 19 { t("fx3_sum"@) }
    else if i == 20 { t("fx4"@) }
    else if i == 21 { sum4_text(r("A1Integral"@), r("A2Integral"@), r("A3Integral"@), r("Fx4Integral"@)) }
    else if i == 22 { r("Fx4RawSum"@) + " where a = "@ + r("A"@) }
    else if i == 23 { t("fx4_sum"@) }
    else if i == 24 { "Integrate("@ + r("Line1"@) + " x) from x=-inf to x="@ + a }
    else if i == 25 { "Integrate(("@ + r("Line2"@) + ") x) from x="@ + a + " to x=0"@ }
    else if i == 26 { "Integrate(("@ + r("Line3"@) + ") x) from x=0 to x="@ + b }
    else if i == 27 { "Integrate("@ + r("Line4"@) + " x) from x="@ + b + " to x=inf"@ }
    else if i == 28 { "Integrate("@ + r("Line1"@) + " x^2) from x=-inf to x="@ + a }
    else if i == 29 { "Integrate(("@ + r("Line2"@) + ") x^2) from x="@ + a + " to x=0"@ }
    else if i == 30 { "Integrate(("@ + r("Line3"@) + ") x^2) from x=0 to x="@ + b }
    else if i == 31 { "Integrate("@ + r("Line4"@) + " x^2) from x="@ + b + " to x=inf"@ }
    else if i == 32 { sum4_text(r("Mx1Integral"@), r("Mx2Integral"@), r("Mx3Integral"@), r("Mx4Integral"@)) }
    else if i == 33 { r("MxRawSum"@) + " where a = "@ + r("A"@) }
    else if i == 34 { "N["@ + r("MxSum"@) + ", 10]"@ }
    else if i == 35 { sum4_text(r("Mx2Integral1"@), r("Mx2Integral2"@), r("Mx2Integral3"@), r("Mx2Integral4"@)) }
    else if i == 36 { r("Mx2RawSum"@) + " where a = "@ + r("A"@) }
    else if i == 37 { "("@ + r("MxSum"@) + ")^2"@ }
    else if i == 38 { r("Mx2Sum"@) + " - "@ + r("m2Sum"@) }
    else if i == 39 { "N["@ + r("Dx"@) + ", 10]"@ }
    else { "sqrt("@ + r("Dx"@) + ") 10 digits"@ }
}

/// The state of a run: how many steps are done, and what they found.
pub struct SolverState {
    pub step: int,
    pub input: Input,
    pub results: Map<Seq<char>, Seq<char>>,
    pub scratch: Map<Seq<char>, Seq<char>>,
}

/// The results a run starts with: the density is `0` left of `a` and right
/// of `b`.
pub open spec fn initial_results() -> Map<Seq<char>, Seq<char>> {
    Map::<Seq<char>, Seq<char>>::empty().insert("Line1"@, "0"@).insert("Line4"@, "0"@)
}

/// The state before the first query.
pub open spec fn initial_state(input: Input) -> SolverState {
    SolverState { step: 0, input, results: initial_results(), scratch: Map::empty() }
}

/// The state after the current step found `value`.
pub open spec fn store(s: SolverState, value: Seq<char>) -> SolverState {
    match step_target(s.step) {
        TargetSpec::Named(k) => SolverState { step: s.step + 1, results: s.results.insert(k, value), ..s },
        TargetSpec::NamedTwice(k1, k2) => SolverState {
            step: s.step + 1,
            results: s.results.insert(k1, value).insert(k2, value),
            ..s
        },
        TargetSpec::Scratch(k) => SolverState { step: s.step + 1, scratch: s.scratch.insert(k, value), ..s },
    }
}

/// Whether all steps are done.
pub open spec fn finished(s: SolverState) -> bool {
    s.step >= STEP_COUNT
}

/// What the current step asks, unless the run is finished.
pub open spec fn next_query(s: SolverState) -> Option<(Seq<char>, PodId)> {
    if finished(s) {
        None
    } else {
        Some((
            step_query(s.step, int_decimal(s.input.a as int), int_decimal(s.input.b as int), s.results, s.scratch),
            step_pod(s.step),
        ))
    }
}

/// The state after the answer `reply` to the current query: the cleaned
/// answer is stored; a failure stores the step's stand-in, or ends the run
/// with that failure where the step has none. A finished run stays as it is.
pub open spec fn advance(s: SolverState, reply: Result<Seq<char>, BackendError>) -> Result<SolverState, BackendError> {
    if finished(s) {
        Ok(s)
    } else {
        match reply {
            Ok(raw) => Ok(store(s, operand_text(raw))),
            Err(e) => match step_fallback(s.step, s.results, s.scratch) {
                Some(f) => Ok(store(s, f)),
                None => Err(e),
            },
        }
    }
}

/// The state after the answers `replies`, one per query, in order; the
/// first failure that ends the run is the outcome where there is one.
pub open spec fn run_replies(s: SolverState, replies: Seq<Result<Seq<char>, BackendError>>) -> Result<SolverState, BackendError>
    decreases replies.len(),
{
    if replies.len() == 0 {
        Ok(s)
    } else {
        match advance(s, replies[0]) {
            Ok(s2) => run_replies(s2, replies.drop_first()),
            Err(e) => Err(e),
        }
    }
}

/// The result (or intermediate value) that a step writes is present.
pub open spec fn target_present(t: TargetSpec, s: SolverState) -> bool {
    match t {
        TargetSpec::Named(k) => s.results.contains_key(k),
        TargetSpec::NamedTwice(k1, k2) => s.results.contains_key(k1) && s.results.contains_key(k2),
        TargetSpec::Scratch(k) => s.scratch.contains_key(k),
    }
}

/// Every step done so far has left its result, and the two given pieces
/// of the density are present.
pub open spec fn results_complete_so_far(s: SolverState) -> bool {
    &&& s.results.contains_key("Line1"@)
    &&& s.results.contains_key("Line4"@)
    &&& forall|j: int| 0 <= j < s.step ==> #[trigger] target_present(step_target(j), s)
}

proof fn lemma_store_keeps_complete(s: SolverState, v: Seq<char>)
    requires
        results_complete_so_far(s),
        0 <= s.step < STEP_COUNT,
    ensures
        results_complete_so_far(store(s, v)),
        store(s, v).step == s.step + 1,
{
    let s2 = store(s, v);
    assert forall|j: int| 0 <= j < s2.step implies #[trigger] target_present(step_target(j), s2) by {
        if j < s.step {
            assert(target_present(step_target(j), s));
        }
    }
}

proof fn lemma_answered_steps(s: SolverState, replies: Seq<Result<Seq<char>, BackendError>>)
    requires
        results_complete_so_far(s),
        0 <= s.step,
        s.step + replies.len() == STEP_COUNT,
        forall|i: int| 0 <= i < replies.len() ==> #[trigger] replies[i] is Ok,
    ensures
        run_replies(s, replies) matches Ok(s2) && s2.step == STEP_COUNT && results_complete_so_far(s2),
    decreases replies.len(),
{
    if replies.len() > 0 {
        assert(replies[0] is Ok);
        let raw = replies[0]->Ok_0;
        lemma_store_keeps_complete(s, operand_text(raw));
        let rest = replies.drop_first();
        assert forall|i: int| 0 <= i < rest.len() implies #[trigger] rest[i] is Ok by {
            assert(replies[i + 1] is Ok);
        }
        lemma_answered_steps(store(s, operand_text(raw)), rest);
    }
}

/// The names of all results that the report shows.
pub open spec fn report_names() -> Seq<Seq<char>> {
    seq![
        "Line1"@, "Line2"@, "Line3"@, "Line4"@,
        "A1Integral"@, "A2Integral"@, "A3Integral"@, "A4Integral"@, "ASum"@, "A"@,
        "Fx1Integral"@, "Fx2Integral"@, "Fx3Integral"@, "Fx4Integral"@,
        "Fx1Sum"@, "Fx2Sum"@, "Fx3Sum"@, "Fx4Sum"@,
        "Fx2RawSum"@, "Fx3RawSum"@, "Fx4RawSum"@,
        "Mx1Integral"@, "Mx2Integral"@, "Mx3Integral"@, "Mx4Integral"@,
        "MxRawSum"@, "MxSum"@, "MxFloat"@,
        "Mx2Integral1"@, "Mx2Integral2"@, "Mx2Integral3"@, "Mx2Integral4"@,
        "Mx2RawSum"@, "Mx2Sum"@, "m2Sum"@, "Dx"@, "DxFloat"@, "G"@,
    ]
}

/// A run in which every query is answered finishes after `STEP_COUNT`
/// answers, and then every result that the report shows is present, so
/// the report shows no `?`.
pub proof fn lemma_answered_run_has_all_results(input: Input, replies: Seq<Result<Seq<char>, BackendError>>)
    requires
        replies.len() == STEP_COUNT,
        forall|i: int| 0 <= i < replies.len() ==> #[trigger] replies[i] is Ok,
    ensures
        run_replies(initial_state(input), replies) matches Ok(s) && finished(s) && forall|k: int|
            0 <= k < report_names().len() ==> s.results.contains_key(#[trigger] report_names()[k]),
{
    let s0 = initial_state(input);
    assert(results_complete_so_far(s0));
    lemma_answered_steps(s0, replies);
    let s = run_replies(s0, replies)->Ok_0;
    assert forall|k: int| 0 <= k < report_names().len() implies s.results.contains_key(
        #[trigger] report_names()[k],
    ) by {
        assert(target_present(step_target(0), s));
        assert(target_present(step_target(1), s));
        assert(target_present(step_target(2), s));
        assert(target_present(step_target(3), s));
        assert(target_present(step_target(4), s));
        assert(target_present(step_target(5), s));
        assert(target_present(step_target(6), s));
        assert(target_present(step_target(7), s));
        assert(target_present(step_target(8), s));
        assert(target_present(step_target(12), s));
        assert(target_present(step_target(13), s));
        assert(target_present(step_target(15), s));
        assert(target_present(step_target(16), s));
        assert(target_present(step_target(17), s));
        assert(target_present(step_target(19), s));
        assert(target_present(step_target(20), s));
        assert(target_present(step_target(21), s));
        assert(target_present(step_target(23), s));
        assert(target_present(step_target(24), s));
        assert(target_present(step_target(25), s));
        assert(target_present(step_target(26), s));
        assert(target_present(step_target(27), s));
        assert(target_present(step_target(28), s));
        assert(target_present(step_target(29), s));
        assert(target_present(step_target(30), s));
        assert(target_present(step_target(31), s));
        assert(target_present(step_target(32), s));
        assert(target_present(step_target(33), s));
        assert(target_present(step_target(34), s));
        assert(target_present(step_target(35), s));
        assert(target_present(step_target(36), s));
        assert(target_present(step_target(37), s));
        assert(target_present(step_target(38), s));
        assert(target_present(step_target(39), s));
        assert(target_present(step_target(40), s));
    }
}

/// A query to send: its text and the answer block to read.
pub struct SolverQuery {
    pub text: String,
    pub pod: PodId,
}

impl SolverQuery {
    /// The journal line announcing the query.
    pub fn journal_message(&self) -> (m: String)
        ensures
            m@ == "Requesting: "@ + self.text@,
    {
        String::from_str("Requesting: ").concat(self.text.as_str())
    }
}

/// A query's text and block kind, as plain values.
pub open spec fn query_view(q: Option<SolverQuery>) -> Option<(Seq<char>, PodId)> {
    match q {
        Some(q) => Some((q.text@, q.pod)),
        None => None,
    }
}

/// An answer, as plain values.
pub open spec fn reply_view(reply: Result<String, BackendError>) -> Result<Seq<char>, BackendError> {
    match reply {
        Ok(s) => Ok(s@),
        Err(e) => Err(e),
    }
}

/// Where the result of a step goes.
enum Target {
    Named(&'static str),
    NamedTwice(&'static str, &'static str),
    Scratch(&'static str),
}

spec fn target_view(t: Target) -> TargetSpec {
    match t {
        Target::Named(k) => TargetSpec::Named(k@),
        Target::NamedTwice(k1, k2) => TargetSpec::NamedTwice(k1@, k2@),
        Target::Scratch(k) => TargetSpec::Scratch(k@),
    }
}

/// Where the result of step `i` goes.
fn target_of(i: usize) -> (t: Target)
    requires
        i < STEP_COUNT,
    ensures
        target_view(t) == step_target(i as int),
{
    match i {
        0 => Target::Named("Line2"),
        1 => Target::Named("Line3"),
        2 => Target::Named("A1Integral"),
        3 => Target::Named("A2Integral"),
        4 => Target::Named("A3Integral"),
        5 => Target::Named("A4Integral"),
        6 => Target::Named("ASum"),
        7 => Target::Named("A"),
        8 => Target::NamedTwice("Fx1Integral", "Fx1Sum"),
        9 => Target::Scratch("fx2"),
        10 => Target::Scratch("fx3"),
        11 => Target::Scratch("fx4"),
        12 => Target::Named("Fx2Integral"),
        13 => Target::Named("Fx2RawSum"),
        14 => Target::Scratch("fx2_sum"),
        15 => Target::Named("Fx2Sum"),
        16 => Target::Named("Fx3Integral"),
        17 => Target::Named("Fx3RawSum"),
        18 => Target::Scratch("fx3_sum"),
        19 => Target::Named("Fx3Sum"),
        20 => Target::Named("Fx4Integral"),
        21 => Target::Named("Fx4RawSum"),
        22 => Target::Scratch("fx4_sum"),
        23 => Target::Named("Fx4Sum"),
        24 => Target::Named("Mx1Integral"),
        25 => Target::Named("Mx2Integral"),
        26 => Target::Named("Mx3Integral"),
        27 => Target::Named("Mx4Integral"),
        28 => Target::Named("Mx2Integral1"),
        29 => Target::Named("Mx2Integral2"),
        30 => Target::Named("Mx2Integral3"),
        31 => Target::Named("Mx2Integral4"),
        32 => Target::Named("MxRawSum"),
        33 => Target::Named("MxSum"),
        34 => Target::Named("MxFloat"),
        35 => Target::Named("Mx2RawSum"),
        36 => Target::Named("Mx2Sum"),
        37 => Target::Named("m2Sum"),
        38 => Target::Named("Dx"),
        39 => Target::Named("DxFloat"),
        _ => Target::Named("G"),
    }
}

/// The answer block that step `i` reads.
fn pod_of(i: usize) -> (p: PodId)
    ensures
        p == step_pod(i as int),
{
    if i == 12 || i == 15 || i == 16 || i == 19 || i == 20 || i == 23 {
        PodId::ExpandedForm
    } else if 24 <= i && i <= 31 {
        PodId::Input
    } else {
        PodId::Result
    }
}

/// A run of the query plan for one task.
pub struct Solver {
    input: Input,
    step: usize,
    results: ResultMap,
    scratch: ResultMap,
}

impl Solver {
    /// The run's state as plain values.
    pub closed spec fn state(&self) -> SolverState {
        SolverState {
            step: self.step as int,
            input: self.input,
            results: self.results@,
            scratch: self.scratch@,
        }
    }

    /// A run for `input` that has sent nothing yet.
    pub fn new(input: Input) -> (s: Solver)
        ensures
            s.state() == initial_state(input),
    {
        let mut results = ResultMap::new();
        results.insert(String::from_str("Line1"), String::from_str("0"));
        results.insert(String::from_str("Line4"), String::from_str("0"));
        Solver { input, step: 0, results, scratch: ResultMap::new() }
    }

    /// Whether all queries are answered.
    pub fn is_finished(&self) -> (b: bool)
        ensures
            b == finished(self.state()),
    {
        self.step >= STEP_COUNT
    }

    /// The results found so far.
    pub fn results(&self) -> (m: &ResultMap)
        ensures
            m@ == self.state().results,
    {
        &self.results
    }

    /// The result text `k`, or `?`.
    fn r(&self, k: &str) -> (s: String)
        ensures
            s@ == res_text(self.results@, k@),
    {
        self.results.text_or_unknown(k)
    }

    /// The intermediate value `k`, or `?`.
    fn t(&self, k: &str) -> (s: String)
        ensures
            s@ == res_text(self.scratch@, k@),
    {
        self.scratch.text_or_unknown(k)
    }

    fn query_text_a(&self, a: &str, b: &str) -> (q: String)
        requires
            self.step < 12,
        ensures
            q@ == step_query(self.step as int, a@, b@, self.results@, self.scratch@),
    {
        match self.step {
            0 => String::from_str("Line equation, points (").concat(a).concat(",0), (0,a)"),
            1 => String::from_str("Line equation, points (0, a), (").concat(b).concat(", 0)"),
            2 => String::from_str("Integrate(").concat(self.r("Line1").as_str()).concat(") from x=-inf to x=").concat(a),
            3 => String::from_str("Integrate(").concat(self.r("Line2").as_str()).concat(") from x=").concat(a).concat(
                " to x=0",
            ),
            4 => String::from_str("Integrate(").concat(self.r("Line3").as_str()).concat(") from x=0 to x=").concat(b),
            5 => String::from_str("Integrate(").concat(self.r("Line4").as_str()).concat(") from x=").concat(b).concat(
                " to x=inf",
            ),
            6 => sum4_line(
                self.r("A1Integral").as_str(),
                self.r("A2Integral").as_str(),
                self.r("A3Integral").as_str(),
                self.r("A4Integral").as_str(),
            ),
            7 => String::from_str("Solve ").concat(self.r("ASum").as_str()).concat(" = 1"),
            8 => String::from_str("Integrate(").concat(self.r("Line1").as_str()).concat(") from x=-inf to x=x"),
            9 => String::from_str("Integrate(").concat(self.r("Line2").as_str()).concat(") from x=").concat(a).concat(
                " to x=x",
            ),
            10 => String::from_str("Integrate(").concat(self.r("Line3").as_str()).concat(") from x=0 to x=x"),
            _ => String::from_str("Integrate(").concat(self.r("Line4").as_str()).concat(") from x=").concat(b).concat(
                " to x=x",
            ),
        }
    }

    fn query_text_b(&self) -> (q: String)
        requires
            12 <= self.step < 24,
        ensures
            forall|a: Seq<char>, b: Seq<char>|
                q@ == #[trigger] step_query(self.step as int, a, b, self.results@, self.scratch@),
    {
        match self.step {
            12 => self.t("fx2"),
            13 => self.r("A1Integral").concat(" + ").concat(self.r("Fx2Integral").as_str()),
            14 => self.r("Fx2RawSum").concat(" where a = ").concat(self.r("A").as_str()),
            15 => self.t("fx2_sum"),
            16 => self.t("fx3"),
            17 => self.r("A1Integral").concat(" + ").concat(self.r("A2Integral").as_str()).concat(" + ").concat(
                self.r("Fx3Integral").as_str(),
            ),
            18 => self.r("Fx3RawSum").concat(" where a = ").concat(self.r("A").as_str()),
            19 => self.t("fx3_sum"),
            20 => self.t("fx4"),
            21 => sum4_line(
                self.r("A1Integral").as_str(),
                self.r("A2Integral").as_str(),
                self.r("A3Integral").as_str(),
                self.r("Fx4Integral").as_str(),
            ),
            22 => self.r("Fx4RawSum").concat(" where a = ").concat(self.r("A").as_str()),
            _ => self.t("fx4_sum"),
        }
    }

    fn query_text_c(&self, a: &str, b: &str) -> (q: String)
        requires
            24 <= self.step < STEP_COUNT,
        ensures
            q@ == step_query(self.step as int, a@, b@, self.results@, self.scratch@),
    {
        match self.step {
            24 => String::from_str("Integrate(").concat(self.r("Line1").as_str()).concat(" x) from x=-inf to x=").concat(a),
            25 => String::from_str("Integrate((").concat(self.r("Line2").as_str()).concat(") x) from x=").concat(a).concat(
                " to x=0",
            ),
            26 => String::from_str("Integrate((").concat(self.r("Line3").as_str()).concat(") x) from x=0 to x=").concat(b),
            27 => String::from_str("Integrate(").concat(self.r("Line4").as_str()).concat(" x) from x=").concat(b).concat(
                " to x=inf",
            ),
            28 => String::from_str("Integrate(").concat(self.r("Line1").as_str()).concat(" x^2) from x=-inf to x=").concat(
                a,
            ),
            29 => String::from_str("Integrate((").concat(self.r("Line2").as_str()).concat(") x^2) from x=").concat(
                a,
            ).concat(" to x=0"),
            30 => String::from_str("Integrate((").concat(self.r("Line3").as_str()).concat(") x^2) from x=0 to x=").concat(
                b,
            ),
            31 => String::from_str("Integrate(").concat(self.r("Line4").as_str()).concat(" x^2) from x=").concat(
                b,
            ).concat(" to x=inf"),
            32 => sum4_line(
                self.r("Mx1Integral").as_str(),
                self.r("Mx2Integral").as_str(),
                self.r("Mx3Integral").as_str(),
                self.r("Mx4Integral").as_str(),
            ),
            33 => self.r("MxRawSum").concat(" where a = ").concat(self.r("A").as_str()),
            34 => String::from_str("N[").concat(self.r("MxSum").as_str()).concat(", 10]"),
            35 => sum4_line(
                self.r("Mx2Integral1").as_str(),
                self.r("Mx2Integral2").as_str(),
                self.r("Mx2Integral3").as_str(),
                self.r("Mx2Integral4").as_str(),
            ),
            36 => self.r("Mx2RawSum").concat(" where a = ").concat(self.r("A").as_str()),
            37 => String::from_str("(").concat(self.r("MxSum").as_str()).concat(")^2"),
            38 => self.r("Mx2Sum").concat(" - ").concat(self.r("m2Sum").as_str()),
            39 => String::from_str("N[").concat(self.r("Dx").as_str()).concat(", 10]"),
            _ => String::from_str("sqrt(").concat(self.r("Dx").as_str()).concat(") 10 digits"),
        }
    }

    /// The query of the current step, unless the run is finished.
    pub fn next_query(&self) -> (q: Option<SolverQuery>)
        ensures
            query_view(q) == next_query(self.state()),
    {
        if self.step >= STEP_COUNT {
            return None;
        }
        let a = isize_to_decimal(self.input.a);
        let b = isize_to_decimal(self.input.b);
        let text = if self.step < 12 {
            self.query_text_a(a.as_str(), b.as_str())
        } else if self.step < 24 {
            let q = self.query_text_b();
            assert(q@ == step_query(self.step as int, a@, b@, self.results@, self.scratch@));
            q
        } else {
            self.query_text_c(a.as_str(), b.as_str())
        };
        Some(SolverQuery { text, pod: pod_of(self.step) })
    }

    /// The stand-in result of the current step, if a failure of its query
    /// is harmless.
    fn fallback(&self) -> (f: Option<String>)
        requires
            self.step < STEP_COUNT,
        ensures
            match f {
                Some(v) => step_fallback(self.step as int, self.results@, self.scratch@) == Some(v@),
                None => step_fallback(self.step as int, self.results@, self.scratch@) is None,
            },
    {
        match self.step {
            12 => Some(self.t("fx2")),
            14 => Some(self.r("Fx2RawSum")),
            15 => Some(self.t("fx2_sum")),
            16 => Some(self.t("fx3")),
            18 => Some(self.r("Fx3RawSum")),
            19 => Some(self.t("fx3_sum")),
            20 => Some(self.t("fx4")),
            22 => Some(self.r("Fx4RawSum")),
            23 => Some(self.t("fx4_sum")),
            33 => Some(self.r("MxRawSum")),
            36 => Some(self.r("Mx2RawSum")),
            _ => None,
        }
    }

    /// Stores the result of the current step and moves to the next.
    fn store(&mut self, value: String)
        requires
            old(self).step < STEP_COUNT,
        ensures
            final(self).state() == store(old(self).state(), value@),
    {
        match target_of(self.step) {
            Target::Named(k) => {
                self.results.insert(String::from_str(k), value);
            },
            Target::NamedTwice(k1, k2) => {
                self.results.insert(String::from_str(k1), value.clone());
                self.results.insert(String::from_str(k2), value);
            },
            Target::Scratch(k) => {
                self.scratch.insert(String::from_str(k), value);
            },
        }
        self.step = self.step + 1;
    }

    /// Takes the answer to the current query (the raw text of the answer
    /// block, or why there is none) and returns the next query; `None`
    /// once the run is finished. A failure that the step cannot stand in
    /// for ends the run: it is returned and the state is left as it was.
    pub fn solve(&mut self, reply: Result<String, BackendError>) -> (r: Result<Option<SolverQuery>, BackendError>)
        ensures
            match advance(old(self).state(), reply_view(reply)) {
                Ok(s) => final(self).state() == s && (r matches Ok(q) && query_view(q) == next_query(s)),
                Err(e) => final(self).state() == old(self).state() && r == Err::<Option<SolverQuery>, BackendError>(e),
            },
    {
        if self.step >= STEP_COUNT {
            return Ok(None);
        }
        let value = match reply {
            Ok(raw) => operand_of(raw.as_str()),
            Err(e) => match self.fallback() {
                Some(f) => f,
                None => {
                    return Err(e);
                },
            },
        };
        self.store(value);
        Ok(self.next_query())
    }

    /// The report page of the results found so far.
    pub fn run(self) -> (page: String)
        ensures
            page@ == report_document(self.state().input, self.state().results),
    {
        let mut maker = ReportMaker::new(self.input, self.results);
        let page = maker.generate_html_report();
        assert(Seq::<char>::empty() + report_document(self.input, self.results@) =~= report_document(
            self.input,
            self.results@,
        ));
        page
    }
}

} // verus!
