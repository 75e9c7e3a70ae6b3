use vstd::prelude::*;
use vstd::string::*;
use crate::text::has_prefix;

verus! {

/// What the workflow runner prints first when it started a pipeline run.
pub const RUN_STARTED: &'static str = "PipelineRun started: ";

/// `r` is `s` up to, and without, its first line break (all of `s` when it has none).
pub open spec fn is_first_line(s: Seq<char>, r: Seq<char>) -> bool {
    &&& r.len() <= s.len()
    &&& r == s.subrange(0, r.len() as int)
    &&& r.len() == s.len() || s[r.len() as int] == '\n'
    &&& forall|j: int| 0 <= j < r.len() ==> (#[trigger] r[j]) != '\n'
}

/// `r` is `s` without the line breaks that end it.
pub open spec fn is_without_trailing_breaks(s: Seq<char>, r: Seq<char>) -> bool {
    &&& r.len() <= s.len()
    &&& r == s.subrange(0, r.len() as int)
    &&& forall|j: int| r.len() <= j < s.len() ==> (#[trigger] s[j]) == '\n'
    &&& r.len() == 0 || r.last() != '\n'
}

/// `s` up to, and without, its first line break.
pub fn first_line(s: &str) -> (r: String)
    ensures
        is_first_line(s@, r@),
{
    let n = s.unicode_len();
    let mut k: usize = 0;
    while k < n && s.get_char(k) != '\n'
        invariant
            n == s@.len(),
            k <= n,
            forall|j: int| 0 <= j < k ==> (#[trigger] s@[j]) != '\n',
        decreases n - k,
    {
        k += 1;
    }
    s.substring_char(0, k).to_owned()
}

/// `s` without the line breaks that end it.
pub fn trim_trailing_breaks(s: &str) -> (r: String)
    ensures
        is_without_trailing_breaks(s@, r@),
{
    let mut k = s.unicode_len();
    while k > 0 && s.get_char(k - 1) == '\n'
        invariant
            k <= s@.len(),
            forall|j: int| k <= j < s@.len() ==> (#[trigger] s@[j]) == '\n',
        decreases k,
    {
        k -= 1;
    }
    s.substring_char(0, k).to_owned()
}

/// The handle of the run that the runner reports having started: the rest of the first
/// line after `PipelineRun started: `. None when the output does not begin so.
pub fn started_run_name(stdout: &str) -> (r: Option<String>)
    ensures
        has_started_prefix(stdout@) <==> r is Some,
        r matches Some(name) ==> is_first_line(
            stdout@.subrange(RUN_STARTED@.len() as int, stdout@.len() as int),
            name@,
        ),
{
    if has_prefix(stdout, RUN_STARTED) {
        let rest = stdout.substring_char(RUN_STARTED.unicode_len(), stdout.unicode_len());
        Some(first_line(rest))
    } else {
        None
    }
}

/// The output begins with `PipelineRun started: `.
pub open spec fn has_started_prefix(s: Seq<char>) -> bool {
    RUN_STARTED@.len() <= s.len() && s.subrange(0, RUN_STARTED@.len() as int) == RUN_STARTED@
}

/// The status reason of a pipeline run, from the output of the query that describes it:
/// the output without its trailing line breaks.
pub fn pipeline_run_stats(describe_output: &str) -> (r: String)
    ensures
        is_without_trailing_breaks(describe_output@, r@),
{
    trim_trailing_breaks(describe_output)
}

/// The results of a pipeline run, from the output of the query that lists them: the
/// output without its trailing line breaks.
pub fn pipeline_run_results(describe_output: &str) -> (r: String)
    ensures
        is_without_trailing_breaks(describe_output@, r@),
{
    trim_trailing_breaks(describe_output)
}

} // verus!
