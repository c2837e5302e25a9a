//! Reading the answers of the computer-algebra service: which status codes
//! are answers, which answer block holds the result, and how a result line
//! is reduced to the formula it states.

use vstd::prelude::*;

use rand::distr::SampleString;

use crate::api::errors::ApiError;
use crate::api::models::{Container, Pod, PodId, QueryResult, pod_name};
use crate::text::{
    after_last, after_last_str, contains_seq, contains_str, is_white, lemma_after_last_shape, trim, trim_end, trim_start,
    trim_str,
};

verus! {

/// The block kinds tried, in this order, when the requested one is absent.
/// `Input` stands high because trivial calculations often put their result
/// in the echo of the input.
pub open spec fn answer_list() -> Seq<PodId> {
    seq![
        PodId::Result,
        PodId::ExpandedForm,
        PodId::AlternateForm,
        PodId::PolynomialForm,
        PodId::Solution,
        PodId::Value,
        PodId::Input,
        PodId::Integral,
        PodId::DefiniteIntegral,
        PodId::IndefiniteIntegral,
    ]
}

/// The first block at or after `start` whose identifier is `id`.
pub open spec fn first_pod_from(pods: Seq<Pod>, id: Seq<char>, start: int) -> Option<int>
    decreases pods.len() - start,
{
    if start < 0 || start >= pods.len() {
        None
    } else if pods[start].id@ == id {
        Some(start)
    } else {
        first_pod_from(pods, id, start + 1)
    }
}

/// The first block whose identifier is `id`.
pub open spec fn first_pod(pods: Seq<Pod>, id: Seq<char>) -> Option<int> {
    first_pod_from(pods, id, 0)
}

/// The first block of the first kind in `list` at or after `k` that occurs.
pub open spec fn first_listed(pods: Seq<Pod>, list: Seq<PodId>, k: int) -> Option<int>
    decreases list.len() - k,
{
    if k < 0 || k >= list.len() {
        None
    } else {
        match first_pod(pods, pod_name(list[k])) {
            Some(i) => Some(i),
            None => first_listed(pods, list, k + 1),
        }
    }
}

/// The block that holds the answer: the first of the requested kind; else
/// the first of the first kind of the priority list that occurs; else the
/// very first block; none where there are no blocks.
pub open spec fn target_pod(pods: Seq<Pod>, wanted: PodId) -> Option<int> {
    match first_pod(pods, pod_name(wanted)) {
        Some(i) => Some(i),
        None => match first_listed(pods, answer_list(), 0) {
            Some(i) => Some(i),
            None => if pods.len() > 0 {
                Some(0)
            } else {
                None
            },
        },
    }
}

/// The plain text of the first part of the answer block, if there is one.
pub open spec fn plain_text_of(pods: Seq<Pod>, wanted: PodId) -> Option<Seq<char>> {
    match target_pod(pods, wanted) {
        Some(i) => if pods[i].sub_pods@.len() > 0 {
            match pods[i].sub_pods@[0].plain_text {
                Some(t) => Some(t@),
                None => None,
            }
        } else {
            None
        },
        None => None,
    }
}

/// The address of the picture of the first part of the answer block, if
/// there is one.
pub open spec fn image_source_of(pods: Seq<Pod>, wanted: PodId) -> Option<Seq<char>> {
    match target_pod(pods, wanted) {
        Some(i) => if pods[i].sub_pods@.len() > 0 {
            match pods[i].sub_pods@[0].img {
                Some(img) => Some(img.src@),
                None => None,
            }
        } else {
            None
        },
        None => None,
    }
}

/// The formula that a result line states: a line with a condition
/// (` where `) is kept whole; otherwise the part after the last `=` is
/// taken. Surrounding white space is dropped either way.
pub open spec fn operand_text(text: Seq<char>) -> Seq<char> {
    if contains_seq(text, " where "@) {
        trim(text)
    } else {
        trim(after_last(text, '='))
    }
}

/// The length of the random names given to downloaded pictures.
pub const IMAGE_NAME_LEN: usize = 16;

/// An ASCII letter or digit.
pub open spec fn is_ascii_alphanumeric(c: char) -> bool {
    ('a' <= c && c <= 'z') || ('A' <= c && c <= 'Z') || ('0' <= c && c <= '9')
}

/// Calls `rand::distr::SampleString::sample_string` for the distribution
/// `rand::distr::Alphanumeric` on the thread's generator `rand::rng()`.
/// Trusted: that the result has `len` characters, each an ASCII letter or
/// digit (rand draws each byte from `A-Za-z0-9`). Which ones is chance and
/// is not stated. `rand::rng()` panics where the system's random source
/// cannot be opened, which no argument decides.
#[verifier::external_body]
fn sample_alphanumeric(len: usize) -> (s: String)
    ensures
        s@.len() == len,
        forall|i: int| 0 <= i < len ==> is_ascii_alphanumeric(#[trigger] s@[i]),
{
    rand::distr::Alphanumeric.sample_string(&mut rand::rng(), len)
}

proof fn lemma_first_pod_from(pods: Seq<Pod>, id: Seq<char>, start: int)
    requires
        0 <= start,
    ensures
        match first_pod_from(pods, id, start) {
            Some(i) => start <= i < pods.len() && pods[i].id@ == id && forall|j: int|
                start <= j < i ==> pods[j].id@ != id,
            None => forall|j: int| start <= j < pods.len() ==> pods[j].id@ != id,
        },
    decreases pods.len() - start,
{
    if start < pods.len() && pods[start].id@ != id {
        lemma_first_pod_from(pods, id, start + 1);
    }
}

proof fn lemma_first_listed_in_range(pods: Seq<Pod>, list: Seq<PodId>, k: int)
    ensures
        first_listed(pods, list, k) matches Some(i) ==> 0 <= i < pods.len(),
    decreases list.len() - k,
{
    if 0 <= k < list.len() {
        lemma_first_pod_from(pods, pod_name(list[k]), 0);
        lemma_first_listed_in_range(pods, list, k + 1);
    }
}

/// A block is chosen exactly when the answer has any block; it is one of
/// the answer's blocks; and where blocks of the requested kind exist, the
/// first of them is chosen.
pub proof fn lemma_target_pod(pods: Seq<Pod>, wanted: PodId)
    ensures
        target_pod(pods, wanted) is Some <==> pods.len() > 0,
        target_pod(pods, wanted) matches Some(i) ==> 0 <= i < pods.len(),
        (exists|j: int| 0 <= j < pods.len() && #[trigger] pods[j].id@ == pod_name(wanted)) ==> (target_pod(
            pods,
            wanted,
        ) matches Some(i) && pods[i].id@ == pod_name(wanted) && forall|j: int|
            0 <= j < i ==> pods[j].id@ != pod_name(wanted)),
{
    lemma_first_pod_from(pods, pod_name(wanted), 0);
    lemma_first_listed_in_range(pods, answer_list(), 0);
}

/// Whether the answer has a block of kind `p`.
pub open spec fn has_pod(pods: Seq<Pod>, p: PodId) -> bool {
    exists|j: int| 0 <= j < pods.len() && #[trigger] pods[j].id@ == pod_name(p)
}

/// Where the answer has no block of the requested kind, the first block of
/// the earliest kind that occurs in the order Result, ExpandedForm,
/// AlternateForm, PolynomialForm, Solution, Value, Input, Integral,
/// DefiniteIntegral, IndefiniteIntegral is chosen; where none of these
/// occurs, the very first block.
pub proof fn lemma_answer_priority(pods: Seq<Pod>, wanted: PodId)
    requires
        !has_pod(pods, wanted),
    ensures
        has_pod(pods, PodId::Result) ==> target_pod(pods, wanted) == first_pod(pods, pod_name(PodId::Result)),
        ({
            &&& !has_pod(pods, PodId::Result)
            &&& has_pod(pods, PodId::ExpandedForm)
        }) ==> target_pod(pods, wanted) == first_pod(pods, pod_name(PodId::ExpandedForm)),
        ({
            &&& !has_pod(pods, PodId::Result)
            &&& !has_pod(pods, PodId::ExpandedForm)
            &&& has_pod(pods, PodId::AlternateForm)
        }) ==> target_pod(pods, wanted) == first_pod(pods, pod_name(PodId::AlternateForm)),
        ({
            &&& !has_pod(pods, PodId::Result)
            &&& !has_pod(pods, PodId::ExpandedForm)
            &&& !has_pod(pods, PodId::AlternateForm)
            &&& has_pod(pods, PodId::PolynomialForm)
        }) ==> target_pod(pods, wanted) == first_pod(pods, pod_name(PodId::PolynomialForm)),
        ({
            &&& !has_pod(pods, PodId::Result)
            &&& !has_pod(pods, PodId::ExpandedForm)
            &&& !has_pod(pods, PodId::AlternateForm)
            &&& !has_pod(pods, PodId::PolynomialForm)
            &&& has_pod(pods, PodId::Solution)
        }) ==> target_pod(pods, wanted) == first_pod(pods, pod_name(PodId::Solution)),
        ({
            &&& !has_pod(pods, PodId::Result)
            &&& !has_pod(pods, PodId::ExpandedForm)
            &&& !has_pod(pods, PodId::AlternateForm)
            &&& !has_pod(pods, PodId::PolynomialForm)
            &&& !has_pod(pods, PodId::Solution)
            &&& has_pod(pods, PodId::Value)
        }) ==> target_pod(pods, wanted) == first_pod(pods, pod_name(PodId::Value)),
        ({
            &&& !has_pod(pods, PodId::Result)
            &&& !has_pod(pods, PodId::ExpandedForm)
            &&& !has_pod(pods, PodId::AlternateForm)
            &&& !has_pod(pods, PodId::PolynomialForm)
            &&& !has_pod(pods, PodId::Solution)
            &&& !has_pod(pods, PodId::Value)
            &&& has_pod(pods, PodId::Input)
        }) ==> target_pod(pods, wanted) == first_pod(pods, pod_name(PodId::Input)),
        ({
            &&& !has_pod(pods, PodId::Result)
            &&& !has_pod(pods, PodId::ExpandedForm)
            &&& !has_pod(pods, PodId::AlternateForm)
            &&& !has_pod(pods, PodId::PolynomialForm)
            &&& !has_pod(pods, PodId::Solution)
            &&& !has_pod(pods, PodId::Value)
            &&& !has_pod(pods, PodId::Input)
            &&& has_pod(pods, PodId::Integral)
        }) ==> target_pod(pods, wanted) == first_pod(pods, pod_name(PodId::Integral)),
        ({
            &&& !has_pod(pods, PodId::Result)
            &&& !has_pod(pods, PodId::ExpandedForm)
            &&& !has_pod(pods, PodId::AlternateForm)
            &&& !has_pod(pods, PodId::PolynomialForm)
            &&& !has_pod(pods, PodId::Solution)
            &&& !has_pod(pods, PodId::Value)
            &&& !has_pod(pods, PodId::Input)
            &&& !has_pod(pods, PodId::Integral)
            &&& has_pod(pods, PodId::DefiniteIntegral)
        }) ==> target_pod(pods, wanted) == first_pod(pods, pod_name(PodId::DefiniteIntegral)),
        ({
            &&& !has_pod(pods, PodId::Result)
            &&& !has_pod(pods, PodId::ExpandedForm)
            &&& !has_pod(pods, PodId::AlternateForm)
            &&& !has_pod(pods, PodId::PolynomialForm)
            &&& !has_pod(pods, PodId::Solution)
            &&& !has_pod(pods, PodId::Value)
            &&& !has_pod(pods, PodId::Input)
            &&& !has_pod(pods, PodId::Integral)
            &&& !has_pod(pods, PodId::DefiniteIntegral)
            &&& has_pod(pods, PodId::IndefiniteIntegral)
        }) ==> target_pod(pods, wanted) == first_pod(pods, pod_name(PodId::IndefiniteIntegral)),
        ({
            &&& !has_pod(pods, PodId::Result)
            &&& !has_pod(pods, PodId::ExpandedForm)
            &&& !has_pod(pods, PodId::AlternateForm)
            &&& !has_pod(pods, PodId::PolynomialForm)
            &&& !has_pod(pods, PodId::Solution)
            &&& !has_pod(pods, PodId::Value)
            &&& !has_pod(pods, PodId::Input)
            &&& !has_pod(pods, PodId::Integral)
            &&& !has_pod(pods, PodId::DefiniteIntegral)
            &&& !has_pod(pods, PodId::IndefiniteIntegral)
        }) ==> target_pod(pods, wanted) == if pods.len() > 0 {
            Some(0int)
        } else {
            None
        },
{
    reveal_with_fuel(first_listed, 11);
    lemma_first_pod_from(pods, pod_name(wanted), 0);
    lemma_first_pod_from(pods, pod_name(PodId::Result), 0);
    lemma_first_pod_from(pods, pod_name(PodId::ExpandedForm), 0);
    lemma_first_pod_from(pods, pod_name(PodId::AlternateForm), 0);
    lemma_first_pod_from(pods, pod_name(PodId::PolynomialForm), 0);
    lemma_first_pod_from(pods, pod_name(PodId::Solution), 0);
    lemma_first_pod_from(pods, pod_name(PodId::Value), 0);
    lemma_first_pod_from(pods, pod_name(PodId::Input), 0);
    lemma_first_pod_from(pods, pod_name(PodId::Integral), 0);
    lemma_first_pod_from(pods, pod_name(PodId::DefiniteIntegral), 0);
    lemma_first_pod_from(pods, pod_name(PodId::IndefiniteIntegral), 0);
}

proof fn lemma_trim_start_shape(s: Seq<char>)
    ensures
        trim_start(s).len() > 0 ==> !is_white(trim_start(s)[0]),
        trim_start(s).len() <= s.len(),
        trim_start(s) == s.subrange(s.len() - trim_start(s).len(), s.len() as int),
    decreases s.len(),
{
    if s.len() > 0 && is_white(s[0]) {
        lemma_trim_start_shape(s.drop_first());
        assert(s.drop_first().subrange(
            s.drop_first().len() - trim_start(s).len(),
            s.drop_first().len() as int,
        ) =~= s.subrange(s.len() - trim_start(s).len(), s.len() as int));
    } else {
        assert(s.subrange(0, s.len() as int) =~= s);
    }
}

proof fn lemma_trim_end_shape(s: Seq<char>)
    ensures
        trim_end(s).len() > 0 ==> !is_white(trim_end(s).last()),
        trim_end(s).len() <= s.len(),
        trim_end(s) == s.subrange(0, trim_end(s).len() as int),
    decreases s.len(),
{
    if s.len() > 0 && is_white(s.last()) {
        lemma_trim_end_shape(s.drop_last());
        assert(s.drop_last().subrange(0, trim_end(s).len() as int) =~= s.subrange(
            0,
            trim_end(s).len() as int,
        ));
    } else {
        assert(s.subrange(0, s.len() as int) =~= s);
    }
}

/// A cleaned answer has no white space at either end.
pub proof fn lemma_operand_trimmed(text: Seq<char>)
    ensures
        operand_text(text).len() > 0 ==> !is_white(operand_text(text)[0]) && !is_white(
            operand_text(text).last(),
        ),
{
    let base = if contains_seq(text, " where "@) {
        text
    } else {
        after_last(text, '=')
    };
    let t = trim_start(base);
    lemma_trim_start_shape(base);
    lemma_trim_end_shape(t);
    let r = trim_end(t);
    if r.len() > 0 {
        assert(r[0] == t[0]);
    }
}

/// A cleaned answer is the whole line where the line states a condition
/// (` where `); otherwise it is the part after the line's last `=`, or the
/// whole line where it holds no `=`; white space at either end is dropped.
pub proof fn lemma_operand_text_shape(text: Seq<char>)
    ensures
        contains_seq(text, " where "@) ==> operand_text(text) == trim(text),
        !contains_seq(text, " where "@) && (forall|i: int| 0 <= i < text.len() ==> text[i] != '=')
            ==> operand_text(text) == trim(text),
        !contains_seq(text, " where "@) && (exists|i: int| 0 <= i < text.len() && text[i] == '=') ==> exists|i: int|
            0 <= i < text.len() && text[i] == '=' && (forall|j: int| i < j < text.len() ==> text[j] != '=')
                && operand_text(text) == trim(text.subrange(i + 1, text.len() as int)),
{
    lemma_after_last_shape(text, '=');
}

/// The first block whose identifier is `id`.
fn find_pod(pods: &Vec<Pod>, id: &String) -> (r: Option<usize>)
    ensures
        match r {
            Some(i) => first_pod(pods@, id@) == Some(i as int),
            None => first_pod(pods@, id@) is None,
        },
        r matches Some(i) ==> i < pods@.len(),
{
    let n = pods.len();
    let mut i: usize = 0;
    while i < n
        invariant
            n == pods@.len(),
            i <= n,
            first_pod(pods@, id@) == first_pod_from(pods@, id@, i as int),
        decreases n - i,
    {
        if pods[i].id == *id {
            return Some(i);
        }
        i = i + 1;
    }
    None
}

/// The kinds of the priority list.
fn answer_list_vec() -> (v: Vec<PodId>)
    ensures
        v@ == answer_list(),
{
    let v = vec![
        PodId::Result,
        PodId::ExpandedForm,
        PodId::AlternateForm,
        PodId::PolynomialForm,
        PodId::Solution,
        PodId::Value,
        PodId::Input,
        PodId::Integral,
        PodId::DefiniteIntegral,
        PodId::IndefiniteIntegral,
    ];
    assert(v@ =~= answer_list());
    v
}

/// A client of the computer-algebra service, known by its application key.
#[derive(Debug)]
pub struct WolframClient {
    app_id: String,
}

impl WolframClient {
    /// The application key the client sends.
    pub closed spec fn app_id_text(&self) -> Seq<char> {
        self.app_id@
    }

    /// A client that sends `app_id`.
    pub fn new(app_id: String) -> (c: WolframClient)
        ensures
            c.app_id_text() == app_id@,
    {
        WolframClient { app_id }
    }

    /// The application key the client sends.
    pub fn app_id(&self) -> (s: &str)
        ensures
            s@ == self.app_id_text(),
    {
        self.app_id.as_str()
    }

    /// Whether an HTTP status is a success (`200` to `299`); any other
    /// status is reported as `ApiError::Http` with that status.
    pub fn check_status(status: u16) -> (r: Result<(), ApiError>)
        ensures
            200 <= status <= 299 ==> r == Ok::<(), ApiError>(()),
            !(200 <= status <= 299) ==> r == Err::<(), ApiError>(ApiError::Http(status)),
    {
        if 200 <= status && status <= 299 {
            Ok(())
        } else {
            Err(ApiError::Http(status))
        }
    }

    /// Accepts an answer that the service marks as a success; refuses any
    /// other with `ApiError::Wolfram`.
    pub fn accept_answer(container: Container) -> (r: Result<Container, ApiError>)
        ensures
            container.result.success ==> r == Ok::<Container, ApiError>(container),
            !container.result.success ==> (r matches Err(ApiError::Wolfram(m)) && m@
                == "Wolfram Alpha returned success = false"@),
    {
        if container.result.success {
            Ok(container)
        } else {
            Err(ApiError::Wolfram(String::from_str("Wolfram Alpha returned success = false")))
        }
    }

    /// The position of the block that holds the answer (see `target_pod`).
    pub fn target_pod(result: &QueryResult, wanted: PodId) -> (r: Option<usize>)
        ensures
            match r {
                Some(i) => target_pod(result.pods@, wanted) == Some(i as int),
                None => target_pod(result.pods@, wanted) is None,
            },
            r matches Some(i) ==> i < result.pods@.len(),
    {
        let pods = &result.pods;
        let wanted_name = wanted.to_string();
        match find_pod(pods, &wanted_name) {
            Some(i) => {
                return Some(i);
            },
            None => {},
        }
        let list = answer_list_vec();
        let n = list.len();
        let mut k: usize = 0;
        while k < n
            invariant
                n == list@.len(),
                list@ == answer_list(),
                k <= n,
                first_listed(pods@, answer_list(), 0) == first_listed(pods@, answer_list(), k as int),
                pods@ == result.pods@,
                first_pod(pods@, pod_name(wanted)) is None,
            decreases n - k,
        {
            let name = list[k].to_string();
            match find_pod(pods, &name) {
                Some(i) => {
                    return Some(i);
                },
                None => {},
            }
            k = k + 1;
        }
        if pods.len() > 0 {
            Some(0)
        } else {
            None
        }
    }

    /// The plain-text result of an answer for the requested block kind.
    pub fn plain_text_from(container: &Container, wanted: PodId) -> (r: Result<String, ApiError>)
        ensures
            match plain_text_of(container.result.pods@, wanted) {
                Some(t) => r matches Ok(s) && s@ == t,
                None => r == Err::<String, ApiError>(ApiError::PlainTextNotFound),
            },
    {
        let pods = &container.result.pods;
        match Self::target_pod(&container.result, wanted) {
            Some(i) => {
                if pods[i].sub_pods.len() > 0 {
                    match &pods[i].sub_pods[0].plain_text {
                        Some(t) => Ok(t.clone()),
                        None => Err(ApiError::PlainTextNotFound),
                    }
                } else {
                    Err(ApiError::PlainTextNotFound)
                }
            },
            None => Err(ApiError::PlainTextNotFound),
        }
    }

    /// The address of the picture of an answer for the requested block kind.
    pub fn image_source_from(container: &Container, wanted: PodId) -> (r: Result<String, ApiError>)
        ensures
            match image_source_of(container.result.pods@, wanted) {
                Some(t) => r matches Ok(s) && s@ == t,
                None => r == Err::<String, ApiError>(ApiError::ImageNotFound),
            },
    {
        let pods = &container.result.pods;
        match Self::target_pod(&container.result, wanted) {
            Some(i) => {
                if pods[i].sub_pods.len() > 0 {
                    match &pods[i].sub_pods[0].img {
                        Some(img) => Ok(img.src.clone()),
                        None => Err(ApiError::ImageNotFound),
                    }
                } else {
                    Err(ApiError::ImageNotFound)
                }
            },
            None => Err(ApiError::ImageNotFound),
        }
    }

    /// The formula that a result line states (see `operand_text`).
    pub fn operand_from_result(&self, text: &str) -> (r: String)
        ensures
            r@ == operand_text(text@),
    {
        operand_of(text)
    }

    /// A fresh random name for a downloaded picture: `IMAGE_NAME_LEN` ASCII
    /// letters and digits.
    pub fn image_file_name() -> (name: String)
        ensures
            name@.len() == IMAGE_NAME_LEN,
            forall|i: int| 0 <= i < name@.len() ==> is_ascii_alphanumeric(#[trigger] name@[i]),
    {
        sample_alphanumeric(IMAGE_NAME_LEN)
    }
}

/// The formula that a result line states (see `operand_text`).
pub fn operand_of(text: &str) -> (r: String)
    ensures
        r@ == operand_text(text@),
{
    if contains_str(text, " where ") {
        trim_str(text)
    } else {
        let last = after_last_str(text, '=');
        trim_str(last.as_str())
    }
}

} // verus!
