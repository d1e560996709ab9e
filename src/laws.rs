use vstd::prelude::*;
use crate::filters::{fallback_spec, mood_of, normalized, three_of, watermark_spec, Mood};
use crate::overlay::overlay_path_spec;
use crate::pipeline::{chain_fixed, paths_fixed, transition, unexpected_spec, Action, EditSession, Event, Stage};
use crate::text::{has_substring, lower_of};
use crate::transcode::{output_path_spec, silent_failure_spec};

verus! {

/// Whatever chain the remote path returned (none, one, two, three or more
/// directives), a completed edit returns, as applied, exactly three directives.
pub proof fn chain_always_has_three(pre: EditSession, post: EditSession, act: Action)
    requires
        pre.stage == Stage::AwaitSave,
        chain_fixed(pre),
        transition(pre, Event::Saved(Ok(())), post, act),
    ensures
        act matches Action::Finish(o) && o.filters.deep_view().len() == 3,
        forall|c: Seq<Seq<char>>, licensed: bool, is_macos: bool|
            #[trigger] normalized(c, licensed, is_macos).len() == 3,
{
}

/// A completed unlicensed edit returns the trial watermark as its third
/// directive, whatever the resolver put there, and reports itself watermarked.
pub proof fn unlicensed_third_is_watermark(pre: EditSession, post: EditSession, act: Action)
    requires
        pre.stage == Stage::AwaitSave,
        chain_fixed(pre),
        !pre.licensed,
        transition(pre, Event::Saved(Ok(())), post, act),
    ensures
        act matches Action::Finish(o) && o.filters.deep_view()[2] == watermark_spec(pre.is_macos)
            && o.watermarked,
{
}

/// A completed licensed edit is not watermarked, and returns the resolver's own
/// chain cut or padded to three, the third slot included.
pub proof fn licensed_chain_untouched(pre: EditSession, post: EditSession, act: Action)
    requires
        pre.stage == Stage::AwaitSave,
        chain_fixed(pre),
        pre.licensed,
        transition(pre, Event::Saved(Ok(())), post, act),
    ensures
        act matches Action::Finish(o) && !o.watermarked && o.filters.deep_view() == three_of(
            pre.resolved.deep_view(),
        ),
{
}

/// Mood rules are tried in order: a prompt with an energetic keyword is
/// energetic, whatever calm keywords it also holds.
pub proof fn energetic_wins(prompt: Seq<char>)
    requires
        has_substring(lower_of(prompt), "energetic"@) || has_substring(lower_of(prompt), "fast"@),
    ensures
        mood_of(lower_of(prompt)) == Mood::Energetic,
{
}

/// When the remote path fails, the edit records that it did not use it and
/// takes the keyword-rule chain of the prompt's mood.
pub proof fn remote_failure_falls_back(pre: EditSession, post: EditSession, act: Action)
    requires
        pre.stage == Stage::AwaitFilters,
        transition(pre, Event::FiltersFetched(None), post, act),
    ensures
        !post.used_remote,
        post.resolved.deep_view() == fallback_spec(pre.request.prompt@, pre.is_macos),
{
}

/// A completed edit that did not use the remote path returns the keyword-rule
/// chain of the prompt's mood, normalized for the license.
pub proof fn fallback_outcome(pre: EditSession, post: EditSession, act: Action)
    requires
        pre.stage == Stage::AwaitSave,
        chain_fixed(pre),
        transition(pre, Event::Saved(Ok(())), post, act),
    ensures
        act matches Action::Finish(o) && (!o.used_remote ==> o.filters.deep_view() == normalized(
            fallback_spec(pre.request.prompt@, pre.is_macos),
            pre.licensed,
            pre.is_macos,
        )),
{
}

/// A transcode that exits non-zero without any diagnostic ends the edit with the
/// generic message, and a failed edit never asks to save a project record.
pub proof fn silent_transcode_failure_saves_nothing(
    pre: EditSession,
    stderr: String,
    post: EditSession,
    act: Action,
    ev: Event,
    post2: EditSession,
    act2: Action,
)
    requires
        pre.stage == Stage::AwaitTranscode,
        stderr@.len() == 0,
        transition(pre, Event::Transcoded { success: false, stderr }, post, act),
        transition(post, ev, post2, act2),
    ensures
        post.stage == Stage::Failed,
        act matches Action::Fail(m) && m@ == silent_failure_spec(),
        post2.stage == Stage::Failed,
        act2 matches Action::Fail(m) && m@ == unexpected_spec(),
{
}

/// Re-running an edit reuses the same file names: every step keeps the paths
/// fixed by the input path, so the recorded and returned output is one of two
/// names that depend on the input path alone.
pub proof fn output_names_are_stable(pre: EditSession, ev: Event, post: EditSession, act: Action)
    requires
        paths_fixed(pre),
        post.request == pre.request,
        transition(pre, ev, post, act),
    ensures
        paths_fixed(post),
        act matches Action::SaveProject { output_path, .. } ==> (output_path@ == output_path_spec(
            pre.request.input_path@,
        ) || output_path@ == overlay_path_spec(pre.request.input_path@)),
        act matches Action::Finish(o) ==> (o.output_path@ == output_path_spec(
            pre.request.input_path@,
        ) || o.output_path@ == overlay_path_spec(pre.request.input_path@)),
{
}

} // verus!
