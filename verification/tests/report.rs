use xstatistics::backend::input::Input;
use xstatistics::backend::report::{ReportMaker, REPORT_FOOTER, REPORT_HEADER};
use xstatistics::backend::results::ResultMap;

fn sample_results() -> ResultMap {
    let mut m = ResultMap::new();
    for (k, v) in [
        ("Line1", "0"),
        ("Line2", "a x/2 + a"),
        ("Line3", "a - a x/3"),
        ("Line4", "0"),
        ("A1Integral", "0"),
        ("A2Integral", "a"),
        ("A3Integral", "3 a/2"),
        ("A4Integral", "0"),
        ("ASum", "5 a/2"),
        ("A", "2/5"),
    ] {
        m.insert(k.to_string(), v.to_string());
    }
    m
}

#[test]
fn page_is_framed_by_head_and_end() {
    let mut maker = ReportMaker::new(Input { a: -2, b: 3 }, sample_results());
    let page = maker.generate_html_report();
    assert!(page.starts_with("<!DOCTYPE html>"));
    assert!(page.starts_with(REPORT_HEADER));
    assert!(page.ends_with(REPORT_FOOTER));
    assert!(page.ends_with("</body>\n</html>"));
}

#[test]
fn page_shows_input_and_results() {
    let mut maker = ReportMaker::new(Input { a: -2, b: 3 }, sample_results());
    let page = maker.generate_html_report();
    assert!(page.contains("<div class=\"math-block\">\\[ \\text{Input: } A = -2, B = 3 \\\\ \\]</div>\n"));
    assert!(page.contains("<div class=\"math-block\">\\[ \\text{Line equation, points (-2,0), (0,a)} \\]</div>\n"));
    assert!(page.contains("<h2><u>Find a:</u></h2>\n"));
    assert!(page.contains("<div class=\"math-block\">\\[ a = 2/5 \\]</div>\n"));
    assert!(page.contains("\\bullet \\int_{-2}^{0}(a x/2 + a)dx = a"));
    assert!(page.contains("0 + a + 3 a/2 + 0 = 5 a/2 \\Rightarrow 5 a/2 = 1"));
    assert!(page.contains(
        "f(x) = \\left\\{\\matrix{0, & x \\leq  -2 \\\\ a x/2 + a, & -2 < x \\leq  0 \\\\ a - a x/3, & 0 < x \\leq  3 \\\\ 0, & x \\geq  3}\\right."
    ));
}

#[test]
fn missing_results_show_question_marks() {
    let mut maker = ReportMaker::new(Input { a: 1, b: 2 }, ResultMap::new());
    let page = maker.generate_html_report();
    assert!(page.contains("\\[ \\sigma(x) = ? \\]"));
    assert!(page.contains("\\[ a = ? \\]"));
}

#[test]
fn a_second_report_is_appended() {
    let mut maker = ReportMaker::new(Input { a: -1, b: 1 }, sample_results());
    let first = maker.generate_html_report();
    let second = maker.generate_html_report();
    assert_eq!(second.len(), 2 * first.len());
    assert!(second.starts_with(&first));
    assert!(second.ends_with(&first));
}

#[test]
fn block_count() {
    let mut maker = ReportMaker::new(Input { a: -1, b: 1 }, sample_results());
    let page = maker.generate_html_report();
    let formulas = page.matches("<div class=\"math-block\">").count();
    let titles = page.matches("<h2><u>").count();
    assert_eq!(titles, 5);
    assert_eq!(formulas, 77);
}
