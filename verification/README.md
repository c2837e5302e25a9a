# xstatistics

Solver for one task of a probability-theory control work: for bounds
`A < B` the density is a triangle over `[A, B]` with its peak at `0`; the
program finds the normalising factor, the distribution function, the
expectation, the variance and the standard deviation by asking the
Wolfram|Alpha computer-algebra service, and renders the solution as an
HTML page with MathJax formulas.

## Layout

- `src/` is the library, verified with Verus.
  - `text.rs`: decimal writing and reading of integers, zero padding,
    trimming and searching of text.
  - `api/`: the shape of the service's answers, the choice of the answer
    block that holds the result, and the cleaning of a result line.
  - `backend/`: the table of named results, the plan of 41 queries that
    fills it (`Solver`: the caller sends each query and hands back the
    answer) and the report page (`ReportMaker`).
  - `frontend/`: settings, the page on display, the check of the task
    input, the log file's name and lines.
- `app/` is the desktop program around the library: the window (egui),
  the HTTP requests (reqwest), the settings file (toml) and the log file
  (fern).
- `tests/` runs the library on concrete values.
