use vstd::prelude::*;
use crate::text::{join_with, joined};

verus! {

/// What `Path::with_file_name` (read back as text) gives for a path and a file name.
pub uninterp spec fn path_with_file_name(path: Seq<char>, name: Seq<char>) -> Seq<char>;

/// A line without the carriage return that ended it before its line feed.
pub open spec fn strip_cr(l: Seq<char>) -> Seq<char> {
    if l.len() > 0 && l.last() == '\r' {
        l.drop_last()
    } else {
        l
    }
}

/// The lines of `s`, the current one begun as `cur`: each line feed ends a line
/// (dropping a carriage return just before it), and a last line is kept only
/// when it is not empty.
pub open spec fn lines_from(s: Seq<char>, cur: Seq<char>) -> Seq<Seq<char>>
    decreases s.len(),
{
    if s.len() == 0 {
        if cur.len() == 0 {
            Seq::empty()
        } else {
            seq![cur]
        }
    } else if s[0] == '\n' {
        seq![strip_cr(cur)] + lines_from(s.drop_first(), Seq::empty())
    } else {
        lines_from(s.drop_first(), cur.push(s[0]))
    }
}

/// The lines of a text as `str::lines` splits them.
pub open spec fn lines_of(s: Seq<char>) -> Seq<Seq<char>> {
    lines_from(s, Seq::empty())
}

/// Relies on `Path::with_file_name` and `to_string_lossy`: the path with its last
/// component replaced by `name`.
#[verifier::external_body]
pub(crate) fn with_file_name(path: &str, name: &str) -> (r: String)
    ensures
        r@ == path_with_file_name(path@, name@),
{
    std::path::Path::new(path).with_file_name(name).to_string_lossy().to_string()
}

/// Relies on `str::lines`: the lines of a text, split at `\n`, without a `\r`
/// just before it, and with no final empty line.
#[verifier::external_body]
pub(crate) fn text_lines(s: &str) -> (r: Vec<String>)
    ensures
        r.deep_view() == lines_of(s@),
{
    s.lines().map(|l| l.to_string()).collect()
}

/// Most diagnostic lines a transcoding failure message carries.
pub const MAX_DIAGNOSTIC_LINES: usize = 5;

/// Message of a failure that left no diagnostic text.
pub open spec fn silent_failure_spec() -> Seq<char> {
    "FFmpeg failed (no stderr). Check ffmpeg is installed and path is valid."@
}

/// The error text built from the diagnostic lines: the first few, joined by spaces.
pub open spec fn summary_spec(lines: Seq<Seq<char>>) -> Seq<char> {
    let n = if lines.len() < MAX_DIAGNOSTIC_LINES { lines.len() } else {
        MAX_DIAGNOSTIC_LINES as nat
    };
    "FFmpeg failed: "@ + joined(lines.take(n as int), " "@)
}

/// The error text of a failed transcode: the generic message when the engine said
/// nothing, else a summary of its diagnostic lines.
pub open spec fn failure_spec(stderr: Seq<char>) -> Seq<char> {
    if stderr.len() == 0 {
        silent_failure_spec()
    } else {
        summary_spec(lines_of(stderr))
    }
}

/// File name of the transcoded video, beside the input.
pub open spec fn output_name() -> Seq<char> {
    "vibe_output.mp4"@
}

/// Where the transcoded video of an input goes: a fixed name in its directory.
pub open spec fn output_path_spec(input: Seq<char>) -> Seq<char> {
    path_with_file_name(input, output_name())
}

/// The filter-graph expression: the directives joined by commas, applied in order.
pub fn filter_graph(filters: &Vec<String>) -> (r: String)
    ensures
        r@ == joined(filters.deep_view(), ","@),
{
    join_with(filters, ",")
}

/// Where the transcoded video of `input_path` is written.
pub fn output_path(input_path: &str) -> (r: String)
    ensures
        r@ == output_path_spec(input_path@),
{
    with_file_name(input_path, "vibe_output.mp4")
}

/// The bounded, human-readable message for a failed transcode, given its
/// diagnostic output.
pub fn failure_message(stderr: &str) -> (r: String)
    ensures
        r@ == failure_spec(stderr@),
{
    if stderr.is_empty() {
        return String::from_str(
            "FFmpeg failed (no stderr). Check ffmpeg is installed and path is valid.",
        );
    }
    diagnostic_summary(&text_lines(stderr))
}

/// The error text for a transcode whose diagnostic output has these lines.
pub fn diagnostic_summary(lines: &Vec<String>) -> (r: String)
    ensures
        r@ == summary_spec(lines.deep_view()),
{
    let mut first: Vec<String> = Vec::new();
    let mut i: usize = 0;
    while i < lines.len() && i < MAX_DIAGNOSTIC_LINES
        invariant
            i <= lines.len(),
            i <= MAX_DIAGNOSTIC_LINES,
            first.len() == i,
            forall|j: int| 0 <= j < i ==> #[trigger] first@[j]@ == lines.deep_view()[j],
        decreases lines.len() - i,
    {
        first.push(lines[i].clone());
        i = i + 1;
    }
    assert(first.deep_view() =~= lines.deep_view().take(i as int));
    let mut r = String::from_str("FFmpeg failed: ");
    r.append(join_with(&first, " ").as_str());
    r
}

/// Interprets the engine's exit: the output path on success, else the failure
/// message built from its diagnostic output.
pub fn transcode_result(success: bool, stderr: &str, output: String) -> (r: Result<
    String,
    String,
>)
    ensures
        success ==> r == Ok::<String, String>(output),
        !success ==> r is Err && r->Err_0@ == failure_spec(stderr@),
{
    if success {
        Ok(output)
    } else {
        Err(failure_message(stderr))
    }
}

} // verus!
