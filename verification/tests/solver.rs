use xstatistics::api::errors::ApiError;
use xstatistics::api::models::PodId;
use xstatistics::backend::errors::BackendError;
use xstatistics::backend::input::Input;
use xstatistics::backend::solver::{Solver, SolverQuery, STEP_COUNT};

/// Answers every query with `= <step number>` and collects the queries.
fn run_all(input: Input) -> (Vec<(String, PodId)>, Solver) {
    let mut solver = Solver::new(input);
    let mut asked = Vec::new();
    let mut next = solver.next_query();
    let mut n = 0;
    while let Some(q) = next {
        asked.push((q.text.clone(), q.pod));
        next = solver.solve(Ok(format!("answer = v{}", n))).unwrap();
        n += 1;
    }
    (asked, solver)
}

#[test]
fn a_run_takes_all_steps() {
    let (asked, solver) = run_all(Input { a: -2, b: 3 });
    assert_eq!(asked.len(), STEP_COUNT);
    assert_eq!(STEP_COUNT, 41);
    assert!(solver.is_finished());
    assert_eq!(asked[0], ("Line equation, points (-2,0), (0,a)".to_string(), PodId::Result));
    assert_eq!(asked[1], ("Line equation, points (0, a), (3, 0)".to_string(), PodId::Result));
    assert_eq!(asked[2].0, "Integrate(0) from x=-inf to x=-2");
    assert_eq!(asked[3].0, "Integrate(v0) from x=-2 to x=0");
    assert_eq!(asked[6].0, "v2 + v3 + v4 + v5");
    assert_eq!(asked[7].0, "Solve v6 = 1");
    assert_eq!(asked[12], ("v9".to_string(), PodId::ExpandedForm));
    assert_eq!(asked[13].0, "v2 + v12");
    assert_eq!(asked[14].0, "v13 where a = v7");
    assert_eq!(asked[24], ("Integrate(0 x) from x=-inf to x=-2".to_string(), PodId::Input));
    assert_eq!(asked[25].0, "Integrate((v0) x) from x=-2 to x=0");
    assert_eq!(asked[34].0, "N[v33, 10]");
    assert_eq!(asked[40].0, "sqrt(v38) 10 digits");
}

#[test]
fn answers_are_cleaned_and_stored() {
    let (_, solver) = run_all(Input { a: -1, b: 1 });
    let r = solver.results();
    assert_eq!(r.get("Line1"), Some("0".to_string()));
    assert_eq!(r.get("Line2"), Some("v0".to_string()));
    assert_eq!(r.get("Fx1Integral"), Some("v8".to_string()));
    assert_eq!(r.get("Fx1Sum"), Some("v8".to_string()));
    assert_eq!(r.get("G"), Some("v40".to_string()));
    assert_eq!(r.get("fx2"), None);
}

#[test]
fn a_failure_without_stand_in_ends_the_run() {
    let mut solver = Solver::new(Input { a: -1, b: 1 });
    let err = BackendError::Api(ApiError::Http(500));
    assert_eq!(solver.solve(Err(err.clone())).err(), Some(err));
    // Nothing was stored: the same query is still pending.
    let q = solver.next_query().unwrap();
    assert_eq!(q.text, "Line equation, points (-1,0), (0,a)");
}

#[test]
fn a_failure_with_stand_in_goes_on() {
    let mut solver = Solver::new(Input { a: -1, b: 1 });
    for n in 0..12 {
        solver.solve(Ok(format!("= w{}", n))).unwrap();
    }
    // Step 12 expands the raw integral; failing, the raw integral stands in.
    let next = solver.solve(Err(BackendError::Semaphore("closed".to_string()))).unwrap().unwrap();
    assert_eq!(solver.results().get("Fx2Integral"), Some("w9".to_string()));
    assert_eq!(next.text, "w2 + w9");
}

#[test]
fn finished_runs_stay_finished() {
    let (_, mut solver) = run_all(Input { a: -1, b: 1 });
    assert!(solver.solve(Ok("x".to_string())).unwrap().is_none());
    assert!(solver.next_query().is_none());
}

#[test]
fn the_report_of_a_run_has_no_gaps() {
    let (_, solver) = run_all(Input { a: -1, b: 2 });
    let page = solver.run();
    // The only question mark is the one of the normalisation's question.
    assert_eq!(page.matches('?').count(), 1);
    assert!(page.contains("= ... = 1? "));
    assert!(page.contains("\\sigma(x) = v40"));
}

#[test]
fn journal_line() {
    let q = SolverQuery { text: "Solve x = 1".to_string(), pod: PodId::Result };
    assert_eq!(q.journal_message(), "Requesting: Solve x = 1");
}
