//! Rendering of the solution as an HTML page with MathJax formulas.

use vstd::prelude::*;

use crate::backend::input::Input;
use crate::backend::results::{ResultMap, res_text};
use crate::text::{contains_seq, int_decimal, isize_to_decimal};

verus! {

// ---------------------------------------------------------------------------
// What the report says
// ---------------------------------------------------------------------------

/// The page head: document type, MathJax configuration and style sheet.
pub open spec fn report_header() -> Seq<char> {
    REPORT_HEADER@
}

/// The page end.
pub open spec fn report_footer() -> Seq<char> {
    REPORT_FOOTER@
}

/// A displayed formula.
pub open spec fn latex_block(latex: Seq<char>) -> Seq<char> {
    r#"<div class="math-block">\[ "#@ + latex + " \\]</div>\n"@
}

/// A section heading.
pub open spec fn title_block(text: Seq<char>) -> Seq<char> {
    "<h2><u>"@ + text + "</u></h2>\n"@
}

/// A query shown as text, in place of the picture the query would draw.
pub open spec fn query_block(query: Seq<char>) -> Seq<char> {
    r#"<div class="math-block">\[ \text{"#@ + query + "} \\]</div>\n"@
}

/// `x` in round brackets.
pub open spec fn paren_text(x: Seq<char>) -> Seq<char> {
    "("@ + x + ")"@
}

/// `\bullet \int_{lo}^{hi} f tail = result`.
pub open spec fn integral_text(
    lo: Seq<char>,
    hi: Seq<char>,
    f: Seq<char>,
    tail: Seq<char>,
    result: Seq<char>,
) -> Seq<char> {
    r"\bullet \int_{"@ + lo + "}^{"@ + hi + "}"@ + f + tail + " = "@ + result
}

/// `p + q + r + s`.
pub open spec fn sum4_text(p: Seq<char>, q: Seq<char>, r: Seq<char>, s: Seq<char>) -> Seq<char> {
    p + " + "@ + q + " + "@ + r + " + "@ + s
}

/// `lhs = raw \Rightarrow a = a_value \Rightarrow result`.
pub open spec fn reduction_text(
    lhs: Seq<char>,
    raw: Seq<char>,
    a_value: Seq<char>,
    result: Seq<char>,
) -> Seq<char> {
    lhs + " = "@ + raw + r" \Rightarrow a = "@ + a_value + r" \Rightarrow "@ + result
}

/// A function given by four pieces on the intervals that `a`, `0` and `b`
/// bound; `last_rel` is the relation shown for the last interval.
pub open spec fn piecewise_text(
    name: Seq<char>,
    v1: Seq<char>,
    v2: Seq<char>,
    v3: Seq<char>,
    v4: Seq<char>,
    a: Seq<char>,
    b: Seq<char>,
    last_rel: Seq<char>,
) -> Seq<char> {
    name + r" = \left\{\matrix{"@ + v1 + r", & x \leq  "@ + a + r" \\ "@ + v2 + ", & "@ + a
        + r" < x \leq  0 \\ "@ + v3 + r", & 0 < x \leq  "@ + b + r" \\ "@ + v4 + ", & x "@
        + last_rel + "  "@ + b + r"}\right."@
}

/// The input and the density function.
#[verifier::opaque]
pub open spec fn input_section(a: Seq<char>, b: Seq<char>, m: Map<Seq<char>, Seq<char>>) -> Seq<Seq<char>> {
    let l1 = res_text(m, "Line1"@);
    let l2 = res_text(m, "Line2"@);
    let l3 = res_text(m, "Line3"@);
    let l4 = res_text(m, "Line4"@);
    seq![
        latex_block(r"\text{Input: } A = "@ + a + ", B = "@ + b + r" \\"@),
        latex_block(r"\text{Equation of a straight line: } \frac{x-x_0}{x_1-x_0}=\frac{y-y_0}{y_1-y_0}"@),
        query_block("Line equation, points ("@ + a + ",0), (0,a)"@),
        latex_block(l2),
        query_block("Line equation, points (0, a), ("@ + b + ", 0)"@),
        latex_block(l3),
        latex_block(piecewise_text("f(x)"@, l1, l2, l3, l4, a, b, r"\geq"@)),
    ]
}

/// Finding the parameter `a` from the normalisation of the density.
#[verifier::opaque]
pub open spec fn find_a_section(a: Seq<char>, b: Seq<char>, m: Map<Seq<char>, Seq<char>>) -> Seq<Seq<char>> {
    let l1 = res_text(m, "Line1"@);
    let l2 = res_text(m, "Line2"@);
    let l3 = res_text(m, "Line3"@);
    let l4 = res_text(m, "Line4"@);
    let a1 = res_text(m, "A1Integral"@);
    let a2 = res_text(m, "A2Integral"@);
    let a3 = res_text(m, "A3Integral"@);
    let a4 = res_text(m, "A4Integral"@);
    let asum = res_text(m, "ASum"@);
    seq![
        title_block("Find a:"@),
        latex_block(r"\text{Formula:}"@),
        latex_block(r"\int_{-\infty}^{\infty}f(x)dx = 1 \Rightarrow"@),
        latex_block(r"\star \int_{-\infty}^{"@ + a + "}"@ + l1 + r"dx + \int_{"@ + a + "}^{0}("@ + l2
            + r")dx + \int_{0}^{"@ + b + "}("@ + l3 + r")dx + \int_{"@ + b + r"}^{\infty}"@ + l4
            + "dx = ... = 1? "@),
        latex_block(r"\text{Each integral separately:}"@),
        latex_block(integral_text(r"-\infty"@, a, l1, "dx"@, a1)),
        latex_block(integral_text(a, "0"@, paren_text(l2), "dx"@, a2)),
        latex_block(integral_text("0"@, b, paren_text(l3), "dx"@, a3)),
        latex_block(integral_text(b, r"\infty"@, l4, "dx"@, a4)),
        latex_block(r"\star \text{Sum:}"@),
        latex_block(sum4_text(a1, a2, a3, a4) + " = "@ + asum + r" \Rightarrow "@ + asum + " = 1"@),
        latex_block("a = "@ + res_text(m, "A"@)),
    ]
}

/// Finding the distribution function `F(x)` interval by interval.
#[verifier::opaque]
pub open spec fn find_f_section(a: Seq<char>, b: Seq<char>, m: Map<Seq<char>, Seq<char>>) -> Seq<Seq<char>> {
    let l1 = res_text(m, "Line1"@);
    let l2 = res_text(m, "Line2"@);
    let l3 = res_text(m, "Line3"@);
    let l4 = res_text(m, "Line4"@);
    let a1 = res_text(m, "A1Integral"@);
    let a2 = res_text(m, "A2Integral"@);
    let a3 = res_text(m, "A3Integral"@);
    let av = res_text(m, "A"@);
    let fx1 = res_text(m, "Fx1Integral"@);
    let fx2 = res_text(m, "Fx2Integral"@);
    let fx3 = res_text(m, "Fx3Integral"@);
    let fx4 = res_text(m, "Fx4Integral"@);
    let fx2_sum = res_text(m, "Fx2Sum"@);
    let fx3_sum = res_text(m, "Fx3Sum"@);
    seq![
        title_block("Find F(x):"@),
        latex_block(r"\text{Formula:}"@),
        latex_block(r"F(x) = \int_{-\infty}^{x}f(x)dx"@),
        latex_block(r"\text{Number line on 4 intervals:}"@),
        latex_block(piecewise_text("f(x)"@, l1, l2, l3, l4, a, b, ">"@)),
        query_block("Line "@ + a + ", 0, "@ + b),
        latex_block(r"1) -\infty; "@ + a),
        latex_block(integral_text(r"-\infty"@, "x"@, l1, "dx"@, fx1)),
        latex_block("2) "@ + a + "; 0"@),
        latex_block(r"\star \int_{-\infty}^{"@ + a + "}"@ + l1 + r"dx + \int_{"@ + a + "}^{x}("@ + l2
            + r")dx = ... \Rightarrow"@),
        latex_block(integral_text(r"-\infty"@, a, l1, "dx"@, a1)),
        latex_block(integral_text(a, "x"@, paren_text(l2), "dx"@, fx2)),
        latex_block(reduction_text(r"\star "@ + a1 + " + "@ + fx2, res_text(m, "Fx2RawSum"@), av, fx2_sum)),
        latex_block("3) 0; "@ + b),
        latex_block(r"\star \int_{-\infty}^{"@ + a + "}"@ + l1 + r"dx + \int_{"@ + a + "}^{0}("@ + l2
            + r")dx + \int_{0}^{x}("@ + l3 + r")dx = ... \Rightarrow"@),
        latex_block(integral_text(r"-\infty"@, a, l1, "dx"@, a1)),
        latex_block(integral_text(a, "0"@, paren_text(l2), "dx"@, a2)),
        latex_block(integral_text("0"@, "x"@, paren_text(l3), "dx"@, fx3)),
        latex_block(reduction_text(r"\star "@ + a1 + " + "@ + a2 + " + "@ + fx3, res_text(m, "Fx3RawSum"@),
            av, fx3_sum)),
        latex_block("4) "@ + b + r"; \infty"@),
        latex_block(r"\star \int_{-\infty}^{"@ + a + "}"@ + l1 + r"dx + \int_{"@ + a + "}^{0}("@ + l2
            + r")dx + \int_{0}^{"@ + b + "}("@ + l3 + r")dx + \int_{"@ + b + "}^{x}"@ + l4
            + r"dx = ... \Rightarrow"@),
        latex_block(integral_text(r"-\infty"@, a, l1, "dx"@, a1)),
        latex_block(integral_text(a, "0"@, paren_text(l2), "dx"@, a2)),
        latex_block(integral_text("0"@, b, paren_text(l3), "dx"@, a3)),
        latex_block(integral_text(b, "x"@, l4, "dx"@, fx4)),
        latex_block(reduction_text(r"\star "@ + sum4_text(a1, a2, a3, fx4), res_text(m, "Fx4RawSum"@), av,
            res_text(m, "Fx4Sum"@))),
        latex_block(piecewise_text("F(x)"@, res_text(m, "Fx1Sum"@), fx2_sum, fx3_sum, res_text(m, "Fx4Sum"@),
            a, b, ">"@)),
        latex_block(r"\text{Intersection with the y-axis: }"@),
        query_block(fx2_sum + ", where x = 0"@),
        query_block(fx3_sum + ", where x = 0"@),
        latex_block(r"\text{Plot. Unfortunately, you have to draw it yourself :(}"@),
    ]
}

/// Finding the expectation `M(x)`.
#[verifier::opaque]
pub open spec fn find_m_section(a: Seq<char>, b: Seq<char>, m: Map<Seq<char>, Seq<char>>) -> Seq<Seq<char>> {
    let l1 = res_text(m, "Line1"@);
    let l2 = res_text(m, "Line2"@);
    let l3 = res_text(m, "Line3"@);
    let l4 = res_text(m, "Line4"@);
    let m1 = res_text(m, "Mx1Integral"@);
    let m2 = res_text(m, "Mx2Integral"@);
    let m3 = res_text(m, "Mx3Integral"@);
    let m4 = res_text(m, "Mx4Integral"@);
    let mx_sum = res_text(m, "MxSum"@);
    seq![
        title_block("Find M(x):"@),
        latex_block(r"\text{Formula:}"@),
        latex_block(r"M(x) = \int_{-\infty}^{\infty}x f(x)dx = ... \Rightarrow"@),
        latex_block(r"\star \int_{-\infty}^{"@ + a + "}"@ + l1 + r"xdx + \int_{"@ + a + "}^{0}("@ + l2
            + r")xdx + \int_{0}^{"@ + b + "}("@ + l3 + r")xdx + \int_{"@ + b + r"}^{\infty}"@ + l4
            + "xdx = ... "@),
        latex_block(r"\text{Each integral separately:}"@),
        latex_block(integral_text(r"-\infty"@, a, l1, "xdx"@, m1)),
        latex_block(integral_text(a, "0"@, paren_text(l2), "xdx"@, m2)),
        latex_block(integral_text("0"@, b, paren_text(l3), "xdx"@, m3)),
        latex_block(integral_text(b, r"\infty"@, l4, "xdx"@, m4)),
        latex_block(r"\star \text{Sum:}"@),
        latex_block(reduction_text(sum4_text(m1, m2, m3, m4), res_text(m, "MxRawSum"@), res_text(m, "A"@),
            mx_sum)),
        latex_block("M(x) = m = "@ + mx_sum + " = "@ + res_text(m, "MxFloat"@)),
    ]
}

/// Finding the variance `D(x)`.
#[verifier::opaque]
pub open spec fn find_d_section(a: Seq<char>, b: Seq<char>, m: Map<Seq<char>, Seq<char>>) -> Seq<Seq<char>> {
    let l1 = res_text(m, "Line1"@);
    let l2 = res_text(m, "Line2"@);
    let l3 = res_text(m, "Line3"@);
    let l4 = res_text(m, "Line4"@);
    let d1 = res_text(m, "Mx2Integral1"@);
    let d2 = res_text(m, "Mx2Integral2"@);
    let d3 = res_text(m, "Mx2Integral3"@);
    let d4 = res_text(m, "Mx2Integral4"@);
    let mx2_sum = res_text(m, "Mx2Sum"@);
    let m2_sum = res_text(m, "m2Sum"@);
    let dx = res_text(m, "Dx"@);
    seq![
        title_block("Find D(x):"@),
        latex_block(r"\text{Formula:}"@),
        latex_block(r"D(x) = M(x^2)-[M(x)]^2 = d - m^2 = ... "@),
        latex_block(r"M(x^2) = d = ... \Rightarrow"@),
        latex_block(r"\star \int_{-\infty}^{"@ + a + "}"@ + l1 + r"x^2dx + \int_{"@ + a + "}^{0}x^2("@ + l2
            + r")dx + \int_{0}^{"@ + b + "}x^2("@ + l3 + r")dx + \int_{"@ + b + r"}^{\infty}"@ + l4
            + "x^2dx = ... "@),
        latex_block(r"\text{Each integral separately:}"@),
        latex_block(integral_text(r"-\infty"@, a, l1, "x^2dx"@, d1)),
        latex_block(integral_text(a, "0"@, paren_text(l2), "x^2dx"@, d2)),
        latex_block(integral_text("0"@, b, paren_text(l3), "x^2dx"@, d3)),
        latex_block(integral_text(b, r"\infty"@, l4, "x^2dx"@, d4)),
        latex_block(r"\star \text{Sum:}"@),
        latex_block(reduction_text(sum4_text(d1, d2, d3, d4), res_text(m, "Mx2RawSum"@), res_text(m, "A"@),
            mx2_sum)),
        latex_block("M(x^2) = d = "@ + mx2_sum),
        latex_block("M(x)^2 = m^2 = ("@ + res_text(m, "MxSum"@) + ")^2 = "@ + m2_sum),
        latex_block("D(x) = M(x^2)-[M(x)]^2 = d - m^2 = "@ + mx2_sum + " - "@ + m2_sum + " = "@ + dx),
        latex_block("D(x) = "@ + dx + " = "@ + res_text(m, "DxFloat"@)),
    ]
}

/// Finding the standard deviation.
#[verifier::opaque]
pub open spec fn find_g_section(m: Map<Seq<char>, Seq<char>>) -> Seq<Seq<char>> {
    let g = res_text(m, "G"@);
    seq![
        title_block("Find G(x):"@),
        latex_block(r"\text{Formula:}"@),
        latex_block(r"\sigma(x) = \sqrt{D(x)} = \sqrt{"@ + res_text(m, "Dx"@) + "} = "@ + g),
        latex_block(r"\sigma(x) = "@ + g),
    ]
}

/// All blocks of the report, in order.
pub open spec fn report_blocks(input: Input, m: Map<Seq<char>, Seq<char>>) -> Seq<Seq<char>> {
    let a = int_decimal(input.a as int);
    let b = int_decimal(input.b as int);
    input_section(a, b, m) + find_a_section(a, b, m) + find_f_section(a, b, m) + find_m_section(a, b, m)
        + find_d_section(a, b, m) + find_g_section(m)
}

/// The whole page for a task and its results.
pub open spec fn report_document(input: Input, m: Map<Seq<char>, Seq<char>>) -> Seq<char> {
    report_header() + report_blocks(input, m).flatten() + report_footer()
}

/// Result `k` has the same text in `m1` and in `m2` (`?` where absent).
pub open spec fn same_text(m1: Map<Seq<char>, Seq<char>>, m2: Map<Seq<char>, Seq<char>>,
    k: Seq<char>) -> bool {
    res_text(m1, k) == res_text(m2, k)
}

/// The input part of the report shows only the density's four pieces
/// (`Line1` to `Line4`) among the results.
pub proof fn lemma_input_section_reads(a: Seq<char>, b: Seq<char>, m1: Map<Seq<char>, Seq<char>>,
    m2: Map<Seq<char>, Seq<char>>)
    requires
        same_text(m1, m2, "Line1"@),
        same_text(m1, m2, "Line2"@),
        same_text(m1, m2, "Line3"@),
        same_text(m1, m2, "Line4"@),
    ensures
        input_section(a, b, m1) == input_section(a, b, m2),
{
    reveal(input_section);
}

/// The part that finds `a` shows only the density's pieces, the four
/// integrals of the normalisation, their sum and `A` among the results.
pub proof fn lemma_a_section_reads(a: Seq<char>, b: Seq<char>, m1: Map<Seq<char>, Seq<char>>,
    m2: Map<Seq<char>, Seq<char>>)
    requires
        same_text(m1, m2, "Line1"@),
        same_text(m1, m2, "Line2"@),
        same_text(m1, m2, "Line3"@),
        same_text(m1, m2, "Line4"@),
        same_text(m1, m2, "A1Integral"@),
        same_text(m1, m2, "A2Integral"@),
        same_text(m1, m2, "A3Integral"@),
        same_text(m1, m2, "A4Integral"@),
        same_text(m1, m2, "ASum"@),
        same_text(m1, m2, "A"@),
    ensures
        find_a_section(a, b, m1) == find_a_section(a, b, m2),
{
    reveal(find_a_section);
}

/// The part that finds `F(x)` shows only the density's pieces, `A`, the
/// integrals and sums of the distribution function among the results.
pub proof fn lemma_f_section_reads(a: Seq<char>, b: Seq<char>, m1: Map<Seq<char>, Seq<char>>,
    m2: Map<Seq<char>, Seq<char>>)
    requires
        same_text(m1, m2, "Line1"@),
        same_text(m1, m2, "Line2"@),
        same_text(m1, m2, "Line3"@),
        same_text(m1, m2, "Line4"@),
        same_text(m1, m2, "A1Integral"@),
        same_text(m1, m2, "A2Integral"@),
        same_text(m1, m2, "A3Integral"@),
        same_text(m1, m2, "A"@),
        same_text(m1, m2, "Fx1Integral"@),
        same_text(m1, m2, "Fx2Integral"@),
        same_text(m1, m2, "Fx3Integral"@),
        same_text(m1, m2, "Fx4Integral"@),
        same_text(m1, m2, "Fx1Sum"@),
        same_text(m1, m2, "Fx2Sum"@),
        same_text(m1, m2, "Fx3Sum"@),
        same_text(m1, m2, "Fx4Sum"@),
        same_text(m1, m2, "Fx2RawSum"@),
        same_text(m1, m2, "Fx3RawSum"@),
        same_text(m1, m2, "Fx4RawSum"@),
    ensures
        find_f_section(a, b, m1) == find_f_section(a, b, m2),
{
    reveal(find_f_section);
}

/// The part that finds `M(x)` shows only the density's pieces, `A` and the
/// results of the expectation (`Mx1Integral` to `Mx4Integral`, `MxRawSum`,
/// `MxSum`, `MxFloat`) among the results.
pub proof fn lemma_m_section_reads(a: Seq<char>, b: Seq<char>, m1: Map<Seq<char>, Seq<char>>,
    m2: Map<Seq<char>, Seq<char>>)
    requires
        same_text(m1, m2, "Line1"@),
        same_text(m1, m2, "Line2"@),
        same_text(m1, m2, "Line3"@),
        same_text(m1, m2, "Line4"@),
        same_text(m1, m2, "Mx1Integral"@),
        same_text(m1, m2, "Mx2Integral"@),
        same_text(m1, m2, "Mx3Integral"@),
        same_text(m1, m2, "Mx4Integral"@),
        same_text(m1, m2, "MxRawSum"@),
        same_text(m1, m2, "A"@),
        same_text(m1, m2, "MxSum"@),
        same_text(m1, m2, "MxFloat"@),
    ensures
        find_m_section(a, b, m1) == find_m_section(a, b, m2),
{
    reveal(find_m_section);
}

/// The part that finds `D(x)` shows only the density's pieces, `A` and the
/// results of the variance (`Mx2Integral1` to `Mx2Integral4`, `Mx2RawSum`,
/// `Mx2Sum`, `MxSum`, `m2Sum`, `Dx`, `DxFloat`) among the results.
pub proof fn lemma_d_section_reads(a: Seq<char>, b: Seq<char>, m1: Map<Seq<char>, Seq<char>>,
    m2: Map<Seq<char>, Seq<char>>)
    requires
        same_text(m1, m2, "Line1"@),
        same_text(m1, m2, "Line2"@),
        same_text(m1, m2, "Line3"@),
        same_text(m1, m2, "Line4"@),
        same_text(m1, m2, "Mx2Integral1"@),
        same_text(m1, m2, "Mx2Integral2"@),
        same_text(m1, m2, "Mx2Integral3"@),
        same_text(m1, m2, "Mx2Integral4"@),
        same_text(m1, m2, "Mx2RawSum"@),
        same_text(m1, m2, "A"@),
        same_text(m1, m2, "Mx2Sum"@),
        same_text(m1, m2, "MxSum"@),
        same_text(m1, m2, "m2Sum"@),
        same_text(m1, m2, "Dx"@),
        same_text(m1, m2, "DxFloat"@),
    ensures
        find_d_section(a, b, m1) == find_d_section(a, b, m2),
{
    reveal(find_d_section);
}

/// The part that finds the standard deviation shows only `Dx` and `G`
/// among the results.
pub proof fn lemma_g_section_reads(m1: Map<Seq<char>, Seq<char>>, m2: Map<Seq<char>, Seq<char>>)
    requires
        same_text(m1, m2, "Dx"@),
        same_text(m1, m2, "G"@),
    ensures
        find_g_section(m1) == find_g_section(m2),
{
    reveal(find_g_section);
}

/// A block of a list is part of the text of the whole list.
proof fn lemma_block_in_text(blocks: Seq<Seq<char>>, k: int)
    requires
        0 <= k < blocks.len(),
    ensures
        contains_seq(blocks.flatten(), blocks[k]),
{
    let pre = blocks.take(k);
    let rest = blocks.skip(k);
    assert(blocks =~= pre + rest);
    vstd::seq_lib::lemma_flatten_concat(pre, rest);
    assert(rest.first() == blocks[k]);
    assert(rest.flatten() == blocks[k] + rest.drop_first().flatten());
    let i: int = pre.flatten().len() as int;
    assert(blocks.flatten().subrange(i, i + blocks[k].len() as int) =~= blocks[k]);
}

/// What a text holds, a text that surrounds it holds too.
proof fn lemma_contains_in_middle(x: Seq<char>, y: Seq<char>, z: Seq<char>, p: Seq<char>)
    requires
        contains_seq(y, p),
    ensures
        contains_seq(x + y + z, p),
{
    let i = choose|i: int| 0 <= i && i + p.len() <= y.len() && #[trigger] y.subrange(i, i + p.len()) == p;
    let j: int = x.len() + i;
    assert((x + y + z).subrange(j, j + p.len()) =~= y.subrange(i, i + p.len()));
}

/// The page is the header, the text of each part in order, and the end.
proof fn lemma_document_parts(input: Input, m: Map<Seq<char>, Seq<char>>)
    ensures
        report_document(input, m) == report_header()
            + input_section(int_decimal(input.a as int), int_decimal(input.b as int), m).flatten()
            + find_a_section(int_decimal(input.a as int), int_decimal(input.b as int), m).flatten()
            + find_f_section(int_decimal(input.a as int), int_decimal(input.b as int), m).flatten()
            + find_m_section(int_decimal(input.a as int), int_decimal(input.b as int), m).flatten()
            + find_d_section(int_decimal(input.a as int), int_decimal(input.b as int), m).flatten()
            + find_g_section(m).flatten() + report_footer(),
{
    let a = int_decimal(input.a as int);
    let b = int_decimal(input.b as int);
    let x1 = input_section(a, b, m);
    let x2 = find_a_section(a, b, m);
    let x3 = find_f_section(a, b, m);
    let x4 = find_m_section(a, b, m);
    let x5 = find_d_section(a, b, m);
    let x6 = find_g_section(m);
    vstd::seq_lib::lemma_flatten_concat(x1, x2);
    vstd::seq_lib::lemma_flatten_concat(x1 + x2, x3);
    vstd::seq_lib::lemma_flatten_concat(x1 + x2 + x3, x4);
    vstd::seq_lib::lemma_flatten_concat(x1 + x2 + x3 + x4, x5);
    vstd::seq_lib::lemma_flatten_concat(x1 + x2 + x3 + x4 + x5, x6);
    assert(report_document(input, m) =~= report_header() + x1.flatten() + x2.flatten() + x3.flatten()
        + x4.flatten() + x5.flatten() + x6.flatten() + report_footer());
}

/// What the text of a part of the report holds, the page holds.
proof fn lemma_part_in_document(input: Input, m: Map<Seq<char>, Seq<char>>, p: Seq<char>)
    requires
        ({
            let a = int_decimal(input.a as int);
            let b = int_decimal(input.b as int);
            ||| contains_seq(input_section(a, b, m).flatten(), p)
            ||| contains_seq(find_a_section(a, b, m).flatten(), p)
            ||| contains_seq(find_f_section(a, b, m).flatten(), p)
            ||| contains_seq(find_m_section(a, b, m).flatten(), p)
            ||| contains_seq(find_d_section(a, b, m).flatten(), p)
            ||| contains_seq(find_g_section(m).flatten(), p)
        }),
    ensures
        contains_seq(report_document(input, m), p),
{
    let a = int_decimal(input.a as int);
    let b = int_decimal(input.b as int);
    let h = report_header();
    let f1 = input_section(a, b, m).flatten();
    let f2 = find_a_section(a, b, m).flatten();
    let f3 = find_f_section(a, b, m).flatten();
    let f4 = find_m_section(a, b, m).flatten();
    let f5 = find_d_section(a, b, m).flatten();
    let f6 = find_g_section(m).flatten();
    let t = report_footer();
    lemma_document_parts(input, m);
    if contains_seq(f1, p) {
        lemma_contains_in_middle(h, f1, f2 + f3 + f4 + f5 + f6 + t, p);
        assert(h + f1 + (f2 + f3 + f4 + f5 + f6 + t) =~= report_document(input, m));
    }
    if contains_seq(f2, p) {
        lemma_contains_in_middle(h + f1, f2, f3 + f4 + f5 + f6 + t, p);
        assert(h + f1 + f2 + (f3 + f4 + f5 + f6 + t) =~= report_document(input, m));
    }
    if contains_seq(f3, p) {
        lemma_contains_in_middle(h + f1 + f2, f3, f4 + f5 + f6 + t, p);
        assert(h + f1 + f2 + f3 + (f4 + f5 + f6 + t) =~= report_document(input, m));
    }
    if contains_seq(f4, p) {
        lemma_contains_in_middle(h + f1 + f2 + f3, f4, f5 + f6 + t, p);
        assert(h + f1 + f2 + f3 + f4 + (f5 + f6 + t) =~= report_document(input, m));
    }
    if contains_seq(f5, p) {
        lemma_contains_in_middle(h + f1 + f2 + f3 + f4, f5, f6 + t, p);
        assert(h + f1 + f2 + f3 + f4 + f5 + (f6 + t) =~= report_document(input, m));
    }
    if contains_seq(f6, p) {
        lemma_contains_in_middle(h + f1 + f2 + f3 + f4 + f5, f6, t, p);
        assert(h + f1 + f2 + f3 + f4 + f5 + f6 + (t) =~= report_document(input, m));
    }
}

/// A block of a part of the report is part of the page's text.
proof fn lemma_shown_block(input: Input, m: Map<Seq<char>, Seq<char>>, blocks: Seq<Seq<char>>, k: int)
    requires
        0 <= k < blocks.len(),
        ({
            let a = int_decimal(input.a as int);
            let b = int_decimal(input.b as int);
            ||| blocks == input_section(a, b, m)
            ||| blocks == find_a_section(a, b, m)
            ||| blocks == find_f_section(a, b, m)
            ||| blocks == find_m_section(a, b, m)
            ||| blocks == find_d_section(a, b, m)
            ||| blocks == find_g_section(m)
        }),
    ensures
        contains_seq(report_document(input, m), blocks[k]),
{
    lemma_block_in_text(blocks, k);
    lemma_part_in_document(input, m, blocks[k]);
}

/// Blocks of the input part that the page holds.
proof fn lemma_input_section_shown(input: Input, m: Map<Seq<char>, Seq<char>>)
    ensures
        contains_seq(report_document(input, m),
            latex_block(r"\text{Input: } A = "@ + int_decimal(input.a as int) + ", B = "@
                + int_decimal(input.b as int) + r" \\"@)),
        contains_seq(report_document(input, m), latex_block(res_text(m, "Line2"@))),
        contains_seq(report_document(input, m), latex_block(res_text(m, "Line3"@))),
        contains_seq(report_document(input, m),
            latex_block(piecewise_text("f(x)"@, res_text(m, "Line1"@), res_text(m, "Line2"@),
                res_text(m, "Line3"@), res_text(m, "Line4"@), int_decimal(input.a as int),
                    int_decimal(input.b as int), r"\geq"@))),
{
    let a = int_decimal(input.a as int);
    let b = int_decimal(input.b as int);
    reveal(input_section);
    lemma_shown_block(input, m, input_section(a, b, m), 0);
    lemma_shown_block(input, m, input_section(a, b, m), 3);
    lemma_shown_block(input, m, input_section(a, b, m), 5);
    lemma_shown_block(input, m, input_section(a, b, m), 6);
}

/// Blocks of the part that finds `a` that the page holds.
proof fn lemma_a_section_shown(input: Input, m: Map<Seq<char>, Seq<char>>)
    ensures
        contains_seq(report_document(input, m),
            latex_block(integral_text(r"-\infty"@, int_decimal(input.a as int), res_text(m, "Line1"@), "dx"@,
                res_text(m, "A1Integral"@)))),
        contains_seq(report_document(input, m),
            latex_block(integral_text(int_decimal(input.a as int), "0"@, paren_text(res_text(m, "Line2"@)),
                "dx"@, res_text(m, "A2Integral"@)))),
        contains_seq(report_document(input, m),
            latex_block(integral_text("0"@, int_decimal(input.b as int), paren_text(res_text(m, "Line3"@)),
                "dx"@, res_text(m, "A3Integral"@)))),
        contains_seq(report_document(input, m),
            latex_block(integral_text(int_decimal(input.b as int), r"\infty"@, res_text(m, "Line4"@), "dx"@,
                res_text(m, "A4Integral"@)))),
        contains_seq(report_document(input, m),
            latex_block(sum4_text(res_text(m, "A1Integral"@), res_text(m, "A2Integral"@),
                res_text(m, "A3Integral"@), res_text(m, "A4Integral"@)) + " = "@ + res_text(m, "ASum"@)
                    + r" \Rightarrow "@ + res_text(m, "ASum"@) + " = 1"@)),
        contains_seq(report_document(input, m), latex_block("a = "@ + res_text(m, "A"@))),
{
    let a = int_decimal(input.a as int);
    let b = int_decimal(input.b as int);
    reveal(find_a_section);
    lemma_shown_block(input, m, find_a_section(a, b, m), 5);
    lemma_shown_block(input, m, find_a_section(a, b, m), 6);
    lemma_shown_block(input, m, find_a_section(a, b, m), 7);
    lemma_shown_block(input, m, find_a_section(a, b, m), 8);
    lemma_shown_block(input, m, find_a_section(a, b, m), 10);
    lemma_shown_block(input, m, find_a_section(a, b, m), 11);
}

/// Blocks of the part that finds `F(x)` that the page holds.
#[verifier::rlimit(60)]
proof fn lemma_f_section_shown(input: Input, m: Map<Seq<char>, Seq<char>>)
    ensures
        contains_seq(report_document(input, m),
            latex_block(integral_text(r"-\infty"@, "x"@, res_text(m, "Line1"@), "dx"@,
                res_text(m, "Fx1Integral"@)))),
        contains_seq(report_document(input, m),
            latex_block(integral_text(int_decimal(input.a as int), "x"@, paren_text(res_text(m, "Line2"@)),
                "dx"@, res_text(m, "Fx2Integral"@)))),
        contains_seq(report_document(input, m),
            latex_block(reduction_text(r"\star "@ + res_text(m, "A1Integral"@) + " + "@
                + res_text(m, "Fx2Integral"@), res_text(m, "Fx2RawSum"@), res_text(m, "A"@),
                res_text(m, "Fx2Sum"@)))),
        contains_seq(report_document(input, m),
            latex_block(integral_text("0"@, "x"@, paren_text(res_text(m, "Line3"@)), "dx"@,
                res_text(m, "Fx3Integral"@)))),
        contains_seq(report_document(input, m),
            latex_block(reduction_text(r"\star "@ + res_text(m, "A1Integral"@) + " + "@
                + res_text(m, "A2Integral"@) + " + "@ + res_text(m, "Fx3Integral"@),
                res_text(m, "Fx3RawSum"@), res_text(m, "A"@), res_text(m, "Fx3Sum"@)))),
        contains_seq(report_document(input, m),
            latex_block(integral_text(int_decimal(input.b as int), "x"@, res_text(m, "Line4"@), "dx"@,
                res_text(m, "Fx4Integral"@)))),
        contains_seq(report_document(input, m),
            latex_block(reduction_text(r"\star "@
                + sum4_text(res_text(m, "A1Integral"@), res_text(m, "A2Integral"@),
                res_text(m, "A3Integral"@), res_text(m, "Fx4Integral"@)), res_text(m, "Fx4RawSum"@),
                    res_text(m, "A"@), res_text(m, "Fx4Sum"@)))),
        contains_seq(report_document(input, m),
            latex_block(piecewise_text("F(x)"@, res_text(m, "Fx1Sum"@), res_text(m, "Fx2Sum"@),
                res_text(m, "Fx3Sum"@), res_text(m, "Fx4Sum"@), int_decimal(input.a as int),
                    int_decimal(input.b as int), ">"@))),
{
    let a = int_decimal(input.a as int);
    let b = int_decimal(input.b as int);
    reveal(find_f_section);
    lemma_shown_block(input, m, find_f_section(a, b, m), 7);
    lemma_shown_block(input, m, find_f_section(a, b, m), 11);
    lemma_shown_block(input, m, find_f_section(a, b, m), 12);
    lemma_shown_block(input, m, find_f_section(a, b, m), 17);
    lemma_shown_block(input, m, find_f_section(a, b, m), 18);
    lemma_shown_block(input, m, find_f_section(a, b, m), 24);
    lemma_shown_block(input, m, find_f_section(a, b, m), 25);
    lemma_shown_block(input, m, find_f_section(a, b, m), 26);
}

/// Blocks of the part that finds `M(x)` that the page holds.
proof fn lemma_m_section_shown(input: Input, m: Map<Seq<char>, Seq<char>>)
    ensures
        contains_seq(report_document(input, m),
            latex_block(integral_text(r"-\infty"@, int_decimal(input.a as int), res_text(m, "Line1"@), "xdx"@,
                res_text(m, "Mx1Integral"@)))),
        contains_seq(report_document(input, m),
            latex_block(integral_text(int_decimal(input.a as int), "0"@, paren_text(res_text(m, "Line2"@)),
                "xdx"@, res_text(m, "Mx2Integral"@)))),
        contains_seq(report_document(input, m),
            latex_block(integral_text("0"@, int_decimal(input.b as int), paren_text(res_text(m, "Line3"@)),
                "xdx"@, res_text(m, "Mx3Integral"@)))),
        contains_seq(report_document(input, m),
            latex_block(integral_text(int_decimal(input.b as int), r"\infty"@, res_text(m, "Line4"@), "xdx"@,
                res_text(m, "Mx4Integral"@)))),
        contains_seq(report_document(input, m),
            latex_block(reduction_text(sum4_text(res_text(m, "Mx1Integral"@), res_text(m, "Mx2Integral"@),
                res_text(m, "Mx3Integral"@), res_text(m, "Mx4Integral"@)), res_text(m, "MxRawSum"@),
                    res_text(m, "A"@), res_text(m, "MxSum"@)))),
        contains_seq(report_document(input, m),
            latex_block("M(x) = m = "@ + res_text(m, "MxSum"@) + " = "@ + res_text(m, "MxFloat"@))),
{
    let a = int_decimal(input.a as int);
    let b = int_decimal(input.b as int);
    reveal(find_m_section);
    lemma_shown_block(input, m, find_m_section(a, b, m), 5);
    lemma_shown_block(input, m, find_m_section(a, b, m), 6);
    lemma_shown_block(input, m, find_m_section(a, b, m), 7);
    lemma_shown_block(input, m, find_m_section(a, b, m), 8);
    lemma_shown_block(input, m, find_m_section(a, b, m), 10);
    lemma_shown_block(input, m, find_m_section(a, b, m), 11);
}

/// Blocks of the part that finds `D(x)` that the page holds.
proof fn lemma_d_section_shown(input: Input, m: Map<Seq<char>, Seq<char>>)
    ensures
        contains_seq(report_document(input, m),
            latex_block(integral_text(r"-\infty"@, int_decimal(input.a as int), res_text(m, "Line1"@),
                "x^2dx"@, res_text(m, "Mx2Integral1"@)))),
        contains_seq(report_document(input, m),
            latex_block(integral_text(int_decimal(input.a as int), "0"@, paren_text(res_text(m, "Line2"@)),
                "x^2dx"@, res_text(m, "Mx2Integral2"@)))),
        contains_seq(report_document(input, m),
            latex_block(integral_text("0"@, int_decimal(input.b as int), paren_text(res_text(m, "Line3"@)),
                "x^2dx"@, res_text(m, "Mx2Integral3"@)))),
        contains_seq(report_document(input, m),
            latex_block(integral_text(int_decimal(input.b as int), r"\infty"@, res_text(m, "Line4"@),
                "x^2dx"@, res_text(m, "Mx2Integral4"@)))),
        contains_seq(report_document(input, m),
            latex_block(reduction_text(sum4_text(res_text(m, "Mx2Integral1"@), res_text(m, "Mx2Integral2"@),
                res_text(m, "Mx2Integral3"@), res_text(m, "Mx2Integral4"@)), res_text(m, "Mx2RawSum"@),
                    res_text(m, "A"@), res_text(m, "Mx2Sum"@)))),
        contains_seq(report_document(input, m), latex_block("M(x^2) = d = "@ + res_text(m, "Mx2Sum"@))),
        contains_seq(report_document(input, m),
            latex_block("M(x)^2 = m^2 = ("@ + res_text(m, "MxSum"@) + ")^2 = "@ + res_text(m, "m2Sum"@))),
        contains_seq(report_document(input, m),
            latex_block("D(x) = M(x^2)-[M(x)]^2 = d - m^2 = "@ + res_text(m, "Mx2Sum"@) + " - "@
                + res_text(m, "m2Sum"@) + " = "@ + res_text(m, "Dx"@))),
        contains_seq(report_document(input, m),
            latex_block("D(x) = "@ + res_text(m, "Dx"@) + " = "@ + res_text(m, "DxFloat"@))),
{
    let a = int_decimal(input.a as int);
    let b = int_decimal(input.b as int);
    reveal(find_d_section);
    lemma_shown_block(input, m, find_d_section(a, b, m), 6);
    lemma_shown_block(input, m, find_d_section(a, b, m), 7);
    lemma_shown_block(input, m, find_d_section(a, b, m), 8);
    lemma_shown_block(input, m, find_d_section(a, b, m), 9);
    lemma_shown_block(input, m, find_d_section(a, b, m), 11);
    lemma_shown_block(input, m, find_d_section(a, b, m), 12);
    lemma_shown_block(input, m, find_d_section(a, b, m), 13);
    lemma_shown_block(input, m, find_d_section(a, b, m), 14);
    lemma_shown_block(input, m, find_d_section(a, b, m), 15);
}

/// Blocks of the part that finds the standard deviation that the page holds.
proof fn lemma_g_section_shown(input: Input, m: Map<Seq<char>, Seq<char>>)
    ensures
        contains_seq(report_document(input, m),
            latex_block(r"\sigma(x) = \sqrt{D(x)} = \sqrt{"@ + res_text(m, "Dx"@) + "} = "@
                + res_text(m, "G"@))),
        contains_seq(report_document(input, m), latex_block(r"\sigma(x) = "@ + res_text(m, "G"@))),
{
    let a = int_decimal(input.a as int);
    let b = int_decimal(input.b as int);
    reveal(find_g_section);
    lemma_shown_block(input, m, find_g_section(m), 2);
    lemma_shown_block(input, m, find_g_section(m), 3);
}

/// The page shows the task and each result by name, on the line that
/// belongs to it: the bounds; the density's pieces; each integral of the
/// density, of `x f(x)` and of `x^2 f(x)` with its result; the sums, with
/// the value after substituting `a`; the parameter `a` (result `A`); the
/// distribution function built from `Fx1Sum` to `Fx4Sum`; the expectation
/// `MxSum` with its decimal value `MxFloat`; `M(x^2)` (`Mx2Sum`); `M(x)^2`
/// (`MxSum` squared, `m2Sum`); the variance as `Mx2Sum - m2Sum = Dx`; the
/// variance `Dx` with its decimal value `DxFloat`; and the standard
/// deviation `G` as the square root of `Dx`.
pub proof fn lemma_report_shows_answers(input: Input, m: Map<Seq<char>, Seq<char>>)
    ensures
        contains_seq(report_document(input, m),
            latex_block(r"\text{Input: } A = "@ + int_decimal(input.a as int) + ", B = "@
                + int_decimal(input.b as int) + r" \\"@)),
        contains_seq(report_document(input, m), latex_block(res_text(m, "Line2"@))),
        contains_seq(report_document(input, m), latex_block(res_text(m, "Line3"@))),
        contains_seq(report_document(input, m),
            latex_block(piecewise_text("f(x)"@, res_text(m, "Line1"@), res_text(m, "Line2"@),
                res_text(m, "Line3"@), res_text(m, "Line4"@), int_decimal(input.a as int),
                    int_decimal(input.b as int), r"\geq"@))),
        contains_seq(report_document(input, m),
            latex_block(integral_text(r"-\infty"@, int_decimal(input.a as int), res_text(m, "Line1"@), "dx"@,
                res_text(m, "A1Integral"@)))),
        contains_seq(report_document(input, m),
            latex_block(integral_text(int_decimal(input.a as int), "0"@, paren_text(res_text(m, "Line2"@)),
                "dx"@, res_text(m, "A2Integral"@)))),
        contains_seq(report_document(input, m),
            latex_block(integral_text("0"@, int_decimal(input.b as int), paren_text(res_text(m, "Line3"@)),
                "dx"@, res_text(m, "A3Integral"@)))),
        contains_seq(report_document(input, m),
            latex_block(integral_text(int_decimal(input.b as int), r"\infty"@, res_text(m, "Line4"@), "dx"@,
                res_text(m, "A4Integral"@)))),
        contains_seq(report_document(input, m),
            latex_block(sum4_text(res_text(m, "A1Integral"@), res_text(m, "A2Integral"@),
                res_text(m, "A3Integral"@), res_text(m, "A4Integral"@)) + " = "@ + res_text(m, "ASum"@)
                    + r" \Rightarrow "@ + res_text(m, "ASum"@) + " = 1"@)),
        contains_seq(report_document(input, m), latex_block("a = "@ + res_text(m, "A"@))),
        contains_seq(report_document(input, m),
            latex_block(integral_text(r"-\infty"@, "x"@, res_text(m, "Line1"@), "dx"@,
                res_text(m, "Fx1Integral"@)))),
        contains_seq(report_document(input, m),
            latex_block(integral_text(int_decimal(input.a as int), "x"@, paren_text(res_text(m, "Line2"@)),
                "dx"@, res_text(m, "Fx2Integral"@)))),
        contains_seq(report_document(input, m),
            latex_block(reduction_text(r"\star "@ + res_text(m, "A1Integral"@) + " + "@
                + res_text(m, "Fx2Integral"@), res_text(m, "Fx2RawSum"@), res_text(m, "A"@),
                res_text(m, "Fx2Sum"@)))),
        contains_seq(report_document(input, m),
            latex_block(integral_text("0"@, "x"@, paren_text(res_text(m, "Line3"@)), "dx"@,
                res_text(m, "Fx3Integral"@)))),
        contains_seq(report_document(input, m),
            latex_block(reduction_text(r"\star "@ + res_text(m, "A1Integral"@) + " + "@
                + res_text(m, "A2Integral"@) + " + "@ + res_text(m, "Fx3Integral"@),
                res_text(m, "Fx3RawSum"@), res_text(m, "A"@), res_text(m, "Fx3Sum"@)))),
        contains_seq(report_document(input, m),
            latex_block(integral_text(int_decimal(input.b as int), "x"@, res_text(m, "Line4"@), "dx"@,
                res_text(m, "Fx4Integral"@)))),
        contains_seq(report_document(input, m),
            latex_block(reduction_text(r"\star "@
                + sum4_text(res_text(m, "A1Integral"@), res_text(m, "A2Integral"@),
                res_text(m, "A3Integral"@), res_text(m, "Fx4Integral"@)), res_text(m, "Fx4RawSum"@),
                    res_text(m, "A"@), res_text(m, "Fx4Sum"@)))),
        contains_seq(report_document(input, m),
            latex_block(piecewise_text("F(x)"@, res_text(m, "Fx1Sum"@), res_text(m, "Fx2Sum"@),
                res_text(m, "Fx3Sum"@), res_text(m, "Fx4Sum"@), int_decimal(input.a as int),
                    int_decimal(input.b as int), ">"@))),
        contains_seq(report_document(input, m),
            latex_block(integral_text(r"-\infty"@, int_decimal(input.a as int), res_text(m, "Line1"@), "xdx"@,
                res_text(m, "Mx1Integral"@)))),
        contains_seq(report_document(input, m),
            latex_block(integral_text(int_decimal(input.a as int), "0"@, paren_text(res_text(m, "Line2"@)),
                "xdx"@, res_text(m, "Mx2Integral"@)))),
        contains_seq(report_document(input, m),
            latex_block(integral_text("0"@, int_decimal(input.b as int), paren_text(res_text(m, "Line3"@)),
                "xdx"@, res_text(m, "Mx3Integral"@)))),
        contains_seq(report_document(input, m),
            latex_block(integral_text(int_decimal(input.b as int), r"\infty"@, res_text(m, "Line4"@), "xdx"@,
                res_text(m, "Mx4Integral"@)))),
        contains_seq(report_document(input, m),
            latex_block(reduction_text(sum4_text(res_text(m, "Mx1Integral"@), res_text(m, "Mx2Integral"@),
                res_text(m, "Mx3Integral"@), res_text(m, "Mx4Integral"@)), res_text(m, "MxRawSum"@),
                    res_text(m, "A"@), res_text(m, "MxSum"@)))),
        contains_seq(report_document(input, m),
            latex_block("M(x) = m = "@ + res_text(m, "MxSum"@) + " = "@ + res_text(m, "MxFloat"@))),
        contains_seq(report_document(input, m),
            latex_block(integral_text(r"-\infty"@, int_decimal(input.a as int), res_text(m, "Line1"@),
                "x^2dx"@, res_text(m, "Mx2Integral1"@)))),
        contains_seq(report_document(input, m),
            latex_block(integral_text(int_decimal(input.a as int), "0"@, paren_text(res_text(m, "Line2"@)),
                "x^2dx"@, res_text(m, "Mx2Integral2"@)))),
        contains_seq(report_document(input, m),
            latex_block(integral_text("0"@, int_decimal(input.b as int), paren_text(res_text(m, "Line3"@)),
                "x^2dx"@, res_text(m, "Mx2Integral3"@)))),
        contains_seq(report_document(input, m),
            latex_block(integral_text(int_decimal(input.b as int), r"\infty"@, res_text(m, "Line4"@),
                "x^2dx"@, res_text(m, "Mx2Integral4"@)))),
        contains_seq(report_document(input, m),
            latex_block(reduction_text(sum4_text(res_text(m, "Mx2Integral1"@), res_text(m, "Mx2Integral2"@),
                res_text(m, "Mx2Integral3"@), res_text(m, "Mx2Integral4"@)), res_text(m, "Mx2RawSum"@),
                    res_text(m, "A"@), res_text(m, "Mx2Sum"@)))),
        contains_seq(report_document(input, m), latex_block("M(x^2) = d = "@ + res_text(m, "Mx2Sum"@))),
        contains_seq(report_document(input, m),
            latex_block("M(x)^2 = m^2 = ("@ + res_text(m, "MxSum"@) + ")^2 = "@ + res_text(m, "m2Sum"@))),
        contains_seq(report_document(input, m),
            latex_block("D(x) = M(x^2)-[M(x)]^2 = d - m^2 = "@ + res_text(m, "Mx2Sum"@) + " - "@
                + res_text(m, "m2Sum"@) + " = "@ + res_text(m, "Dx"@))),
        contains_seq(report_document(input, m),
            latex_block("D(x) = "@ + res_text(m, "Dx"@) + " = "@ + res_text(m, "DxFloat"@))),
        contains_seq(report_document(input, m),
            latex_block(r"\sigma(x) = \sqrt{D(x)} = \sqrt{"@ + res_text(m, "Dx"@) + "} = "@
                + res_text(m, "G"@))),
        contains_seq(report_document(input, m), latex_block(r"\sigma(x) = "@ + res_text(m, "G"@))),
{
    lemma_input_section_shown(input, m);
    lemma_a_section_shown(input, m);
    lemma_f_section_shown(input, m);
    lemma_m_section_shown(input, m);
    lemma_d_section_shown(input, m);
    lemma_g_section_shown(input, m);
}


// ---------------------------------------------------------------------------
// How it is rendered
// ---------------------------------------------------------------------------

/// The page head.
pub const REPORT_HEADER: &'static str = r#"<!DOCTYPE html>
<html>
<head>
    <meta charset="utf-8">
    <title>Calculations Report</title>
    <script>
        MathJax = {
            chtml: { displayAlign: 'left', displayIndent: '0em' },
            svg: { displayAlign: 'left', displayIndent: '0em' }
        };
    </script>
    <script id="MathJax-script" async src="https://cdn.jsdelivr.net/npm/mathjax@3/es5/tex-mml-chtml.js"></script>
    <style>
        body { font-family: Arial, sans-serif; max-width: 800px; margin: 20px auto; font-size: 18px; }
        .math-block { margin: 15px 0; overflow-x: auto; text-align: left; }
        h2 { margin-top: 30px; }
    </style>
</head>
<body>
"#;

/// The page end.
pub const REPORT_FOOTER: &'static str = "</body>\n</html>";

/// The texts of a list of strings.
pub open spec fn views(v: Seq<String>) -> Seq<Seq<char>> {
    v.map_values(|s: String| s@)
}

/// `x` in round brackets.
fn paren(x: &str) -> (s: String)
    ensures
        s@ == paren_text(x@),
{
    String::from_str("(").concat(x).concat(")")
}

/// One line of an integral and its value.
fn integral_line(lo: &str, hi: &str, f: &str, tail: &str, result: &str) -> (s: String)
    ensures
        s@ == integral_text(lo@, hi@, f@, tail@, result@),
{
    String::from_str(r"\bullet \int_{").concat(lo).concat("}^{").concat(hi).concat("}").concat(f).concat(
        tail,
    ).concat(" = ").concat(result)
}

/// A sum of four terms.
pub(crate) fn sum4_line(p: &str, q: &str, r: &str, s: &str) -> (t: String)
    ensures
        t@ == sum4_text(p@, q@, r@, s@),
{
    String::from_str(p).concat(" + ").concat(q).concat(" + ").concat(r).concat(" + ").concat(s)
}

/// A sum, its raw value and the value after substituting `a`.
fn reduction_line(lhs: &str, raw: &str, a_value: &str, result: &str) -> (s: String)
    ensures
        s@ == reduction_text(lhs@, raw@, a_value@, result@),
{
    String::from_str(lhs).concat(" = ").concat(raw).concat(r" \Rightarrow a = ").concat(a_value).concat(
        r" \Rightarrow ",
    ).concat(result)
}

/// A function given piece by piece.
fn piecewise_line(
    name: &str,
    v1: &str,
    v2: &str,
    v3: &str,
    v4: &str,
    a: &str,
    b: &str,
    last_rel: &str,
) -> (s: String)
    ensures
        s@ == piecewise_text(name@, v1@, v2@, v3@, v4@, a@, b@, last_rel@),
{
    String::from_str(name).concat(r" = \left\{\matrix{").concat(v1).concat(r", & x \leq  ").concat(a).concat(
        r" \\ ",
    ).concat(v2).concat(", & ").concat(a).concat(r" < x \leq  0 \\ ").concat(v3).concat(
        r", & 0 < x \leq  ",
    ).concat(b).concat(r" \\ ").concat(v4).concat(", & x ").concat(last_rel).concat("  ").concat(b).concat(
        r"}\right.",
    )
}

/// Builds the report page of a task from its named results.
pub struct ReportMaker {
    input: Input,
    results: ResultMap,
    buffer: String,
}

impl ReportMaker {
    /// The task the report is about.
    pub closed spec fn input_value(&self) -> Input {
        self.input
    }

    /// The results the report shows.
    pub closed spec fn results_map(&self) -> Map<Seq<char>, Seq<char>> {
        self.results@
    }

    /// The text written so far.
    pub closed spec fn buffer_text(&self) -> Seq<char> {
        self.buffer@
    }

    /// A report maker for `input` and `results` that has written nothing yet.
    pub fn new(input: Input, results: ResultMap) -> (r: ReportMaker)
        ensures
            r.input_value() == input,
            r.results_map() == results@,
            r.buffer_text() == Seq::<char>::empty(),
    {
        ReportMaker { input, results, buffer: String::new() }
    }

    /// The text of result `key`, or `?` where there is none.
    fn get_res(&self, key: &str) -> (s: String)
        ensures
            s@ == res_text(self.results@, key@),
    {
        self.results.text_or_unknown(key)
    }

    /// Adds a displayed formula.
    fn add_latex(out: &mut Vec<String>, latex: &str)
        ensures
            views(final(out)@) == views(old(out)@).push(latex_block(latex@)),
    {
        let block = String::from_str(r#"<div class="math-block">\[ "#).concat(latex).concat(" \\]</div>\n");
        out.push(block);
        assert(views(out@) =~= views(old(out)@).push(latex_block(latex@)));
    }

    /// Adds a section heading.
    fn add_title(out: &mut Vec<String>, text: &str)
        ensures
            views(final(out)@) == views(old(out)@).push(title_block(text@)),
    {
        let block = String::from_str("<h2><u>").concat(text).concat("</u></h2>\n");
        out.push(block);
        assert(views(out@) =~= views(old(out)@).push(title_block(text@)));
    }

    /// Adds the text of a query where its picture would stand.
    fn add_query_image_fallback(out: &mut Vec<String>, query: &str)
        ensures
            views(final(out)@) == views(old(out)@).push(query_block(query@)),
    {
        let block = String::from_str(r#"<div class="math-block">\[ \text{"#).concat(query).concat(
            "} \\]</div>\n",
        );
        out.push(block);
        assert(views(out@) =~= views(old(out)@).push(query_block(query@)));
    }

    fn input_blocks(&self, a: &str, b: &str) -> (v: Vec<String>)
        ensures
            views(v@) == input_section(a@, b@, self.results@),
    {
        let l1 = self.get_res("Line1");
        let l2 = self.get_res("Line2");
        let l3 = self.get_res("Line3");
        let l4 = self.get_res("Line4");
        let mut v: Vec<String> = Vec::new();
        Self::add_latex(
            &mut v,
            String::from_str(r"\text{Input: } A = ").concat(a).concat(", B = ").concat(b).concat(r" \\").as_str(),
        );
        Self::add_latex(&mut v,
            r"\text{Equation of a straight line: } \frac{x-x_0}{x_1-x_0}=\frac{y-y_0}{y_1-y_0}");
        Self::add_query_image_fallback(
            &mut v,
            String::from_str("Line equation, points (").concat(a).concat(",0), (0,a)").as_str(),
        );
        Self::add_latex(&mut v, l2.as_str());
        Self::add_query_image_fallback(
            &mut v,
            String::from_str("Line equation, points (0, a), (").concat(b).concat(", 0)").as_str(),
        );
        Self::add_latex(&mut v, l3.as_str());
        Self::add_latex(
            &mut v,
            piecewise_line("f(x)", l1.as_str(), l2.as_str(), l3.as_str(), l4.as_str(), a, b,
                r"\geq").as_str(),
        );
        reveal(input_section);
        assert(views(v@) =~= input_section(a@, b@, self.results@));
        v
    }

    fn find_a_blocks(&self, a: &str, b: &str) -> (v: Vec<String>)
        ensures
            views(v@) == find_a_section(a@, b@, self.results@),
    {
        let l1 = self.get_res("Line1");
        let l2 = self.get_res("Line2");
        let l3 = self.get_res("Line3");
        let l4 = self.get_res("Line4");
        let a1 = self.get_res("A1Integral");
        let a2 = self.get_res("A2Integral");
        let a3 = self.get_res("A3Integral");
        let a4 = self.get_res("A4Integral");
        let asum = self.get_res("ASum");
        let av = self.get_res("A");
        let mut v: Vec<String> = Vec::new();
        Self::add_title(&mut v, "Find a:");
        Self::add_latex(&mut v, r"\text{Formula:}");
        Self::add_latex(&mut v, r"\int_{-\infty}^{\infty}f(x)dx = 1 \Rightarrow");
        Self::add_latex(
            &mut v,
            String::from_str(r"\star \int_{-\infty}^{").concat(a).concat("}").concat(l1.as_str()).concat(
                r"dx + \int_{",
            ).concat(a).concat("}^{0}(").concat(l2.as_str()).concat(r")dx + \int_{0}^{").concat(b).concat(
                "}(",
            ).concat(l3.as_str()).concat(r")dx + \int_{").concat(b).concat(r"}^{\infty}").concat(
                l4.as_str(),
            ).concat("dx = ... = 1? ").as_str(),
        );
        Self::add_latex(&mut v, r"\text{Each integral separately:}");
        Self::add_latex(&mut v, integral_line(r"-\infty", a, l1.as_str(), "dx", a1.as_str()).as_str());
        Self::add_latex(&mut v,
            integral_line(a, "0", paren(l2.as_str()).as_str(), "dx", a2.as_str()).as_str());
        Self::add_latex(&mut v,
            integral_line("0", b, paren(l3.as_str()).as_str(), "dx", a3.as_str()).as_str());
        Self::add_latex(&mut v, integral_line(b, r"\infty", l4.as_str(), "dx", a4.as_str()).as_str());
        Self::add_latex(&mut v, r"\star \text{Sum:}");
        Self::add_latex(
            &mut v,
            sum4_line(a1.as_str(), a2.as_str(), a3.as_str(), a4.as_str()).concat(" = ").concat(
                asum.as_str(),
            ).concat(r" \Rightarrow ").concat(asum.as_str()).concat(" = 1").as_str(),
        );
        Self::add_latex(&mut v, String::from_str("a = ").concat(av.as_str()).as_str());
        reveal(find_a_section);
        assert(views(v@) =~= find_a_section(a@, b@, self.results@));
        v
    }

    #[verifier::rlimit(40)]
    fn find_f_blocks(&self, a: &str, b: &str) -> (v: Vec<String>)
        ensures
            views(v@) == find_f_section(a@, b@, self.results@),
    {
        let l1 = self.get_res("Line1");
        let l2 = self.get_res("Line2");
        let l3 = self.get_res("Line3");
        let l4 = self.get_res("Line4");
        let a1 = self.get_res("A1Integral");
        let a2 = self.get_res("A2Integral");
        let a3 = self.get_res("A3Integral");
        let av = self.get_res("A");
        let fx1 = self.get_res("Fx1Integral");
        let fx2 = self.get_res("Fx2Integral");
        let fx3 = self.get_res("Fx3Integral");
        let fx4 = self.get_res("Fx4Integral");
        let fx1_sum = self.get_res("Fx1Sum");
        let fx2_sum = self.get_res("Fx2Sum");
        let fx3_sum = self.get_res("Fx3Sum");
        let fx4_sum = self.get_res("Fx4Sum");
        let fx2_raw = self.get_res("Fx2RawSum");
        let fx3_raw = self.get_res("Fx3RawSum");
        let fx4_raw = self.get_res("Fx4RawSum");
        let mut v: Vec<String> = Vec::new();
        Self::add_title(&mut v, "Find F(x):");
        Self::add_latex(&mut v, r"\text{Formula:}");
        Self::add_latex(&mut v, r"F(x) = \int_{-\infty}^{x}f(x)dx");
        Self::add_latex(&mut v, r"\text{Number line on 4 intervals:}");
        Self::add_latex(
            &mut v,
            piecewise_line("f(x)", l1.as_str(), l2.as_str(), l3.as_str(), l4.as_str(), a, b, ">").as_str(),
        );
        Self::add_query_image_fallback(&mut v,
            String::from_str("Line ").concat(a).concat(", 0, ").concat(b).as_str());
        Self::add_latex(&mut v, String::from_str(r"1) -\infty; ").concat(a).as_str());
        Self::add_latex(&mut v, integral_line(r"-\infty", "x", l1.as_str(), "dx", fx1.as_str()).as_str());
        Self::add_latex(&mut v, String::from_str("2) ").concat(a).concat("; 0").as_str());
        Self::add_latex(
            &mut v,
            String::from_str(r"\star \int_{-\infty}^{").concat(a).concat("}").concat(l1.as_str()).concat(
                r"dx + \int_{",
            ).concat(a).concat("}^{x}(").concat(l2.as_str()).concat(r")dx = ... \Rightarrow").as_str(),
        );
        Self::add_latex(&mut v, integral_line(r"-\infty", a, l1.as_str(), "dx", a1.as_str()).as_str());
        Self::add_latex(&mut v,
            integral_line(a, "x", paren(l2.as_str()).as_str(), "dx", fx2.as_str()).as_str());
        Self::add_latex(
            &mut v,
            reduction_line(
                String::from_str(r"\star ").concat(a1.as_str()).concat(" + ").concat(fx2.as_str()).as_str(),
                fx2_raw.as_str(),
                av.as_str(),
                fx2_sum.as_str(),
            ).as_str(),
        );
        Self::add_latex(&mut v, String::from_str("3) 0; ").concat(b).as_str());
        Self::add_latex(
            &mut v,
            String::from_str(r"\star \int_{-\infty}^{").concat(a).concat("}").concat(l1.as_str()).concat(
                r"dx + \int_{",
            ).concat(a).concat("}^{0}(").concat(l2.as_str()).concat(r")dx + \int_{0}^{x}(").concat(
                l3.as_str(),
            ).concat(r")dx = ... \Rightarrow").as_str(),
        );
        Self::add_latex(&mut v, integral_line(r"-\infty", a, l1.as_str(), "dx", a1.as_str()).as_str());
        Self::add_latex(&mut v,
            integral_line(a, "0", paren(l2.as_str()).as_str(), "dx", a2.as_str()).as_str());
        Self::add_latex(&mut v,
            integral_line("0", "x", paren(l3.as_str()).as_str(), "dx", fx3.as_str()).as_str());
        Self::add_latex(
            &mut v,
            reduction_line(
                String::from_str(r"\star ").concat(a1.as_str()).concat(" + ").concat(a2.as_str()).concat(
                    " + ",
                ).concat(fx3.as_str()).as_str(),
                fx3_raw.as_str(),
                av.as_str(),
                fx3_sum.as_str(),
            ).as_str(),
        );
        Self::add_latex(&mut v, String::from_str("4) ").concat(b).concat(r"; \infty").as_str());
        Self::add_latex(
            &mut v,
            String::from_str(r"\star \int_{-\infty}^{").concat(a).concat("}").concat(l1.as_str()).concat(
                r"dx + \int_{",
            ).concat(a).concat("}^{0}(").concat(l2.as_str()).concat(r")dx + \int_{0}^{").concat(b).concat(
                "}(",
            ).concat(l3.as_str()).concat(r")dx + \int_{").concat(b).concat("}^{x}").concat(l4.as_str()).concat(
                r"dx = ... \Rightarrow",
            ).as_str(),
        );
        Self::add_latex(&mut v, integral_line(r"-\infty", a, l1.as_str(), "dx", a1.as_str()).as_str());
        Self::add_latex(&mut v,
            integral_line(a, "0", paren(l2.as_str()).as_str(), "dx", a2.as_str()).as_str());
        Self::add_latex(&mut v,
            integral_line("0", b, paren(l3.as_str()).as_str(), "dx", a3.as_str()).as_str());
        Self::add_latex(&mut v, integral_line(b, "x", l4.as_str(), "dx", fx4.as_str()).as_str());
        Self::add_latex(
            &mut v,
            reduction_line(
                String::from_str(r"\star ").concat(
                    sum4_line(a1.as_str(), a2.as_str(), a3.as_str(), fx4.as_str()).as_str(),
                ).as_str(),
                fx4_raw.as_str(),
                av.as_str(),
                fx4_sum.as_str(),
            ).as_str(),
        );
        Self::add_latex(
            &mut v,
            piecewise_line(
                "F(x)",
                fx1_sum.as_str(),
                fx2_sum.as_str(),
                fx3_sum.as_str(),
                fx4_sum.as_str(),
                a,
                b,
                ">",
            ).as_str(),
        );
        Self::add_latex(&mut v, r"\text{Intersection with the y-axis: }");
        Self::add_query_image_fallback(&mut v, fx2_sum.clone().concat(", where x = 0").as_str());
        Self::add_query_image_fallback(&mut v, fx3_sum.clone().concat(", where x = 0").as_str());
        Self::add_latex(&mut v, r"\text{Plot. Unfortunately, you have to draw it yourself :(}");
        reveal(find_f_section);
        assert(views(v@) =~= find_f_section(a@, b@, self.results@));
        v
    }

    fn find_m_blocks(&self, a: &str, b: &str) -> (v: Vec<String>)
        ensures
            views(v@) == find_m_section(a@, b@, self.results@),
    {
        let l1 = self.get_res("Line1");
        let l2 = self.get_res("Line2");
        let l3 = self.get_res("Line3");
        let l4 = self.get_res("Line4");
        let m1 = self.get_res("Mx1Integral");
        let m2 = self.get_res("Mx2Integral");
        let m3 = self.get_res("Mx3Integral");
        let m4 = self.get_res("Mx4Integral");
        let raw = self.get_res("MxRawSum");
        let av = self.get_res("A");
        let mx_sum = self.get_res("MxSum");
        let mx_float = self.get_res("MxFloat");
        let mut v: Vec<String> = Vec::new();
        Self::add_title(&mut v, "Find M(x):");
        Self::add_latex(&mut v, r"\text{Formula:}");
        Self::add_latex(&mut v, r"M(x) = \int_{-\infty}^{\infty}x f(x)dx = ... \Rightarrow");
        Self::add_latex(
            &mut v,
            String::from_str(r"\star \int_{-\infty}^{").concat(a).concat("}").concat(l1.as_str()).concat(
                r"xdx + \int_{",
            ).concat(a).concat("}^{0}(").concat(l2.as_str()).concat(r")xdx + \int_{0}^{").concat(b).concat(
                "}(",
            ).concat(l3.as_str()).concat(r")xdx + \int_{").concat(b).concat(r"}^{\infty}").concat(
                l4.as_str(),
            ).concat("xdx = ... ").as_str(),
        );
        Self::add_latex(&mut v, r"\text{Each integral separately:}");
        Self::add_latex(&mut v, integral_line(r"-\infty", a, l1.as_str(), "xdx", m1.as_str()).as_str());
        Self::add_latex(&mut v,
            integral_line(a, "0", paren(l2.as_str()).as_str(), "xdx", m2.as_str()).as_str());
        Self::add_latex(&mut v,
            integral_line("0", b, paren(l3.as_str()).as_str(), "xdx", m3.as_str()).as_str());
        Self::add_latex(&mut v, integral_line(b, r"\infty", l4.as_str(), "xdx", m4.as_str()).as_str());
        Self::add_latex(&mut v, r"\star \text{Sum:}");
        Self::add_latex(
            &mut v,
            reduction_line(
                sum4_line(m1.as_str(), m2.as_str(), m3.as_str(), m4.as_str()).as_str(),
                raw.as_str(),
                av.as_str(),
                mx_sum.as_str(),
            ).as_str(),
        );
        Self::add_latex(
            &mut v,
            String::from_str("M(x) = m = ").concat(mx_sum.as_str()).concat(" = ").concat(mx_float.as_str()).as_str(),
        );
        reveal(find_m_section);
        assert(views(v@) =~= find_m_section(a@, b@, self.results@));
        v
    }

    fn find_d_blocks(&self, a: &str, b: &str) -> (v: Vec<String>)
        ensures
            views(v@) == find_d_section(a@, b@, self.results@),
    {
        let l1 = self.get_res("Line1");
        let l2 = self.get_res("Line2");
        let l3 = self.get_res("Line3");
        let l4 = self.get_res("Line4");
        let d1 = self.get_res("Mx2Integral1");
        let d2 = self.get_res("Mx2Integral2");
        let d3 = self.get_res("Mx2Integral3");
        let d4 = self.get_res("Mx2Integral4");
        let raw = self.get_res("Mx2RawSum");
        let av = self.get_res("A");
        let mx2_sum = self.get_res("Mx2Sum");
        let mx_sum = self.get_res("MxSum");
        let m2_sum = self.get_res("m2Sum");
        let dx = self.get_res("Dx");
        let dx_float = self.get_res("DxFloat");
        let mut v: Vec<String> = Vec::new();
        Self::add_title(&mut v, "Find D(x):");
        Self::add_latex(&mut v, r"\text{Formula:}");
        Self::add_latex(&mut v, r"D(x) = M(x^2)-[M(x)]^2 = d - m^2 = ... ");
        Self::add_latex(&mut v, r"M(x^2) = d = ... \Rightarrow");
        Self::add_latex(
            &mut v,
            String::from_str(r"\star \int_{-\infty}^{").concat(a).concat("}").concat(l1.as_str()).concat(
                r"x^2dx + \int_{",
            ).concat(a).concat("}^{0}x^2(").concat(l2.as_str()).concat(r")dx + \int_{0}^{").concat(b).concat(
                "}x^2(",
            ).concat(l3.as_str()).concat(r")dx + \int_{").concat(b).concat(r"}^{\infty}").concat(
                l4.as_str(),
            ).concat("x^2dx = ... ").as_str(),
        );
        Self::add_latex(&mut v, r"\text{Each integral separately:}");
        Self::add_latex(&mut v, integral_line(r"-\infty", a, l1.as_str(), "x^2dx", d1.as_str()).as_str());
        Self::add_latex(&mut v,
            integral_line(a, "0", paren(l2.as_str()).as_str(), "x^2dx", d2.as_str()).as_str());
        Self::add_latex(&mut v,
            integral_line("0", b, paren(l3.as_str()).as_str(), "x^2dx", d3.as_str()).as_str());
        Self::add_latex(&mut v, integral_line(b, r"\infty", l4.as_str(), "x^2dx", d4.as_str()).as_str());
        Self::add_latex(&mut v, r"\star \text{Sum:}");
        Self::add_latex(
            &mut v,
            reduction_line(
                sum4_line(d1.as_str(), d2.as_str(), d3.as_str(), d4.as_str()).as_str(),
                raw.as_str(),
                av.as_str(),
                mx2_sum.as_str(),
            ).as_str(),
        );
        Self::add_latex(&mut v, String::from_str("M(x^2) = d = ").concat(mx2_sum.as_str()).as_str());
        Self::add_latex(
            &mut v,
            String::from_str("M(x)^2 = m^2 = (").concat(mx_sum.as_str()).concat(")^2 = ").concat(
                m2_sum.as_str(),
            ).as_str(),
        );
        Self::add_latex(
            &mut v,
            String::from_str("D(x) = M(x^2)-[M(x)]^2 = d - m^2 = ").concat(mx2_sum.as_str()).concat(" - ").concat(
                m2_sum.as_str(),
            ).concat(" = ").concat(dx.as_str()).as_str(),
        );
        Self::add_latex(
            &mut v,
            String::from_str("D(x) = ").concat(dx.as_str()).concat(" = ").concat(dx_float.as_str()).as_str(),
        );
        reveal(find_d_section);
        assert(views(v@) =~= find_d_section(a@, b@, self.results@));
        v
    }

    fn find_g_blocks(&self) -> (v: Vec<String>)
        ensures
            views(v@) == find_g_section(self.results@),
    {
        let dx = self.get_res("Dx");
        let g = self.get_res("G");
        let mut v: Vec<String> = Vec::new();
        Self::add_title(&mut v, "Find G(x):");
        Self::add_latex(&mut v, r"\text{Formula:}");
        Self::add_latex(
            &mut v,
            String::from_str(r"\sigma(x) = \sqrt{D(x)} = \sqrt{").concat(dx.as_str()).concat("} = ").concat(
                g.as_str(),
            ).as_str(),
        );
        Self::add_latex(&mut v, String::from_str(r"\sigma(x) = ").concat(g.as_str()).as_str());
        reveal(find_g_section);
        assert(views(v@) =~= find_g_section(self.results@));
        v
    }

    /// Writes the blocks, one after the other.
    fn write_blocks(&mut self, blocks: &Vec<String>)
        ensures
            final(self).buffer@ == old(self).buffer@ + views(blocks@).flatten(),
            final(self).input == old(self).input,
            final(self).results == old(self).results,
    {
        let n = blocks.len();
        let mut i: usize = 0;
        while i < n
            invariant
                n == blocks.len(),
                i <= n,
                self.buffer@ == old(self).buffer@ + views(blocks@.take(i as int)).flatten(),
                self.input == old(self).input,
                self.results == old(self).results,
            decreases n - i,
        {
            proof {
                assert(views(blocks@.take(i + 1)) =~= views(blocks@.take(i as int)).push(blocks@[i as int]@));
                views(blocks@.take(i as int)).lemma_flatten_push(blocks@[i as int]@);
                vstd::seq_lib::lemma_concat_associative(
                    old(self).buffer@,
                    views(blocks@.take(i as int)).flatten(),
                    blocks@[i as int]@,
                );
            }
            self.buffer.append(blocks[i].as_str());
            i = i + 1;
        }
        assert(blocks@.take(n as int) =~= blocks@);
    }

    /// Writes the whole page after what was written before and returns all
    /// that has been written.
    pub fn generate_html_report(&mut self) -> (page: String)
        ensures
            final(self).buffer_text() == old(self).buffer_text() + report_document(
                old(self).input_value(),
                old(self).results_map(),
            ),
            page@ == final(self).buffer_text(),
            final(self).input_value() == old(self).input_value(),
            final(self).results_map() == old(self).results_map(),
    {
        let a = isize_to_decimal(self.input.a);
        let b = isize_to_decimal(self.input.b);
        let ghost m = self.results@;
        let ghost start = self.buffer@;
        self.buffer.append(REPORT_HEADER);
        let s1 = self.input_blocks(a.as_str(), b.as_str());
        self.write_blocks(&s1);
        let s2 = self.find_a_blocks(a.as_str(), b.as_str());
        self.write_blocks(&s2);
        let s3 = self.find_f_blocks(a.as_str(), b.as_str());
        self.write_blocks(&s3);
        let s4 = self.find_m_blocks(a.as_str(), b.as_str());
        self.write_blocks(&s4);
        let s5 = self.find_d_blocks(a.as_str(), b.as_str());
        self.write_blocks(&s5);
        let s6 = self.find_g_blocks();
        self.write_blocks(&s6);
        self.buffer.append(REPORT_FOOTER);
        proof {
            let x1 = input_section(a@, b@, m);
            let x2 = find_a_section(a@, b@, m);
            let x3 = find_f_section(a@, b@, m);
            let x4 = find_m_section(a@, b@, m);
            let x5 = find_d_section(a@, b@, m);
            let x6 = find_g_section(m);
            vstd::seq_lib::lemma_flatten_concat(x1, x2);
            vstd::seq_lib::lemma_flatten_concat(x1 + x2, x3);
            vstd::seq_lib::lemma_flatten_concat(x1 + x2 + x3, x4);
            vstd::seq_lib::lemma_flatten_concat(x1 + x2 + x3 + x4, x5);
            vstd::seq_lib::lemma_flatten_concat(x1 + x2 + x3 + x4 + x5, x6);
            let f1 = x1.flatten();
            let f2 = x2.flatten();
            let f3 = x3.flatten();
            let f4 = x4.flatten();
            let f5 = x5.flatten();
            let f6 = x6.flatten();
            assert(report_blocks(self.input, m) == x1 + x2 + x3 + x4 + x5 + x6);
            assert(report_blocks(self.input, m).flatten() == f1 + f2 + f3 + f4 + f5 + f6);
            assert(self.buffer@ =~= start
                + (report_header() + (f1 + f2 + f3 + f4 + f5 + f6) + report_footer()));
        }
        self.buffer.clone()
    }
}

} // verus!
