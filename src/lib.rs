//! Prompt-driven video editing: turns a free-text "vibe" prompt into a chain of
//! three transcoder filter directives, gates the output behind a license, and
//! drives the transcode / overlay / persistence steps as a verified state machine.
mod filters;
mod json;
mod laws;
mod overlay;
mod pipeline;
mod remote;
mod text;
mod transcode;

pub use filters::{
    classify_lowered, classify_mood, drawtext_font, ensure_three_filters, fallback_filters,
    mood_filters, normalize_filters, resolve_filters, watermark_filter, Mood,
};
pub use text::{contains, join_with};
pub use remote::{
    filters_from_response, filters_from_text, request_around, request_body, response_text,
};
pub use transcode::{
    diagnostic_summary, failure_message, filter_graph, output_path, transcode_result,
    MAX_DIAGNOSTIC_LINES,
};
pub use overlay::{overlay_output_path, should_composite, wants_overlay, wants_overlay_lowered};
pub use pipeline::{chain_fixed, paths_fixed, Action, EditOutcome, EditRequest, EditSession, Event, Stage};
pub use laws::{
    chain_always_has_three, energetic_wins, fallback_outcome, licensed_chain_untouched, output_names_are_stable,
    remote_failure_falls_back, silent_transcode_failure_saves_nothing,
    unlicensed_third_is_watermark,
};
