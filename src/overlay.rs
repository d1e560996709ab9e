use vstd::prelude::*;
use crate::text::{contains, has_substring, lower_of, lowercase};
use crate::transcode::{path_with_file_name, with_file_name};

verus! {

/// Whether an already lower-cased prompt asks for an animated overlay.
pub open spec fn overlay_wanted(lowered: Seq<char>) -> bool {
    has_substring(lowered, "add animation"@) || has_substring(lowered, "animation in between"@)
        || has_substring(lowered, "transparent overlay"@) || has_substring(lowered, "overlay"@)
}

/// Whether the overlay pass runs: an explicit choice is honoured exactly, else the
/// prompt's keywords decide.
pub open spec fn composite_spec(explicit: Option<bool>, prompt: Seq<char>) -> bool {
    match explicit {
        Some(b) => b,
        None => overlay_wanted(lower_of(prompt)),
    }
}

/// File name of the overlay-composited video, beside the input.
pub open spec fn overlay_name() -> Seq<char> {
    "vibe_output_overlay.mp4"@
}

/// Where the overlay-composited video of an input goes.
pub open spec fn overlay_path_spec(input: Seq<char>) -> Seq<char> {
    path_with_file_name(input, overlay_name())
}

/// Keyword test on an already lower-cased prompt.
pub fn wants_overlay_lowered(lowered: &str) -> (r: bool)
    ensures
        r == overlay_wanted(lowered@),
{
    contains(lowered, "add animation") || contains(lowered, "animation in between") || contains(
        lowered,
        "transparent overlay",
    ) || contains(lowered, "overlay")
}

/// Whether the prompt, lower-cased, asks for an animated overlay.
pub fn wants_overlay(prompt: &str) -> (r: bool)
    ensures
        r == overlay_wanted(lower_of(prompt@)),
{
    let lowered = lowercase(prompt);
    wants_overlay_lowered(lowered.as_str())
}

/// Decides whether to attempt the overlay pass.
pub fn should_composite(explicit: Option<bool>, prompt: &str) -> (r: bool)
    ensures
        r == composite_spec(explicit, prompt@),
{
    match explicit {
        Some(b) => b,
        None => wants_overlay(prompt),
    }
}

/// Where the overlay-composited video of `input_path` is written.
pub fn overlay_output_path(input_path: &str) -> (r: String)
    ensures
        r@ == overlay_path_spec(input_path@),
{
    with_file_name(input_path, "vibe_output_overlay.mp4")
}

} // verus!
