use vstd::prelude::*;
use crate::filters::{
    fallback_spec, normalize_filters, normalized, resolve_filters, watermark_spec,
};
use crate::overlay::{composite_spec, overlay_output_path, overlay_path_spec, should_composite};
use crate::text::joined;
use crate::transcode::{
    failure_message, failure_spec, filter_graph, output_path, output_path_spec,
};

verus! {

/// One edit as the caller asked for it.
pub struct EditRequest {
    pub input_path: String,
    pub prompt: String,
    pub license_key: Option<String>,
    pub overlay_override: Option<bool>,
}

/// What a completed edit hands back.
pub struct EditOutcome {
    pub output_path: String,
    pub filters: Vec<String>,
    pub used_remote: bool,
    pub watermarked: bool,
}

/// Where an edit stands between two outside steps.
#[derive(Clone, Copy, Debug, PartialEq, Eq, Structural)]
pub enum Stage {
    Start,
    AwaitLicense,
    AwaitFilters,
    AwaitTranscode,
    AwaitOverlay,
    AwaitSave,
    Finished,
    Failed,
}

/// What the outside world reports back to an edit.
pub enum Event {
    /// The caller starts the edit.
    Begin,
    /// Result of the license lookup; `Err` is a persistence failure.
    LicenseChecked(Result<bool, String>),
    /// The chain from the remote path, or `None` when that path failed anywhere.
    FiltersFetched(Option<Vec<String>>),
    /// The transcoding engine ran and exited, successfully or not.
    Transcoded { success: bool, stderr: String },
    /// The transcoding engine could not be started.
    LaunchFailed(String),
    /// The overlay pass ended; `true` only when it ran and exited successfully.
    OverlayDone(bool),
    /// Result of appending the project record.
    Saved(Result<(), String>),
}

/// The outside work an edit asks for next, or how it ended.
pub enum Action {
    /// Look up whether this key is a valid license.
    CheckLicense(String),
    /// Ask the remote inference service for a chain for this prompt.
    FetchFilters(String),
    /// Run the transcoding engine.
    Transcode { input_path: String, filter_graph: String, output_path: String },
    /// Run the overlay engine on the transcoded video (best effort).
    Composite { video_path: String, overlay_path: String },
    /// Append the project record.
    SaveProject { input_path: String, output_path: String, prompt: String },
    /// The edit completed.
    Finish(EditOutcome),
    /// The edit failed with this message.
    Fail(String),
}

/// The decisions of one edit, driven by events from the outside steps.
pub struct EditSession {
    pub request: EditRequest,
    pub is_macos: bool,
    pub stage: Stage,
    pub licensed: bool,
    /// The chain the resolver produced, before normalization.
    pub resolved: Vec<String>,
    pub filters: Vec<String>,
    pub used_remote: bool,
    pub watermarked: bool,
    pub output_path: String,
    pub final_output: String,
}

/// The paths an edit has fixed so far follow from its input path alone: the
/// transcoded file has the fixed output name, and the final file is either that
/// one or the fixed overlay name.
pub open spec fn paths_fixed(s: EditSession) -> bool {
    let input = s.request.input_path@;
    &&& (s.stage == Stage::AwaitTranscode || s.stage == Stage::AwaitOverlay
        || s.stage == Stage::AwaitSave) ==> s.output_path@ == output_path_spec(input)
    &&& (s.stage == Stage::AwaitOverlay || s.stage == Stage::AwaitSave) ==> (s.final_output@
        == output_path_spec(input) || s.final_output@ == overlay_path_spec(input))
}

/// The message of an event that the current stage does not expect.
pub open spec fn unexpected_spec() -> Seq<char> {
    "unexpected event for the current stage"@
}

/// The chain fetch that follows the license decision.
pub open spec fn fetches(pre: EditSession, post: EditSession, act: Action, licensed: bool) -> bool {
    &&& post.stage == Stage::AwaitFilters
    &&& post.licensed == licensed
    &&& act == Action::FetchFilters(pre.request.prompt)
}

/// The chain and flags fixed at the filter step stay as they were.
pub open spec fn keeps_chain(pre: EditSession, post: EditSession) -> bool {
    &&& post.filters == pre.filters
    &&& post.resolved == pre.resolved
    &&& post.used_remote == pre.used_remote
    &&& post.watermarked == pre.watermarked
    &&& post.licensed == pre.licensed
}

/// Once the filter step is done, the chain is the resolver's chain normalized for
/// the license, the watermark flag is set exactly when unlicensed, and the
/// resolver's chain is the keyword-rule chain whenever the remote path was not used.
pub open spec fn chain_fixed(s: EditSession) -> bool {
    (s.stage == Stage::AwaitTranscode || s.stage == Stage::AwaitOverlay || s.stage
        == Stage::AwaitSave) ==> {
        &&& s.filters.deep_view() == normalized(s.resolved.deep_view(), s.licensed, s.is_macos)
        &&& s.watermarked == !s.licensed
        &&& !s.used_remote ==> s.resolved.deep_view() == fallback_spec(s.request.prompt@, s.is_macos)
    }
}

/// The record append that follows the transcode and the optional overlay pass.
pub open spec fn saves(pre: EditSession, post: EditSession, act: Action, out: String) -> bool {
    &&& post.stage == Stage::AwaitSave
    &&& post.output_path == pre.output_path
    &&& keeps_chain(pre, post)
    &&& post.final_output == out
    &&& act == Action::SaveProject {
        input_path: pre.request.input_path,
        output_path: out,
        prompt: pre.request.prompt,
    }
}

/// A failure with the given message.
pub open spec fn fails(post: EditSession, act: Action, msg: Seq<char>) -> bool {
    &&& post.stage == Stage::Failed
    &&& act matches Action::Fail(m) && m@ == msg
}

/// One step of an edit: from the session before, and an event, to the session
/// after and the action asked for.
pub open spec fn transition(pre: EditSession, ev: Event, post: EditSession, act: Action) -> bool {
    let req = pre.request;
    match pre.stage {
        Stage::Start => match ev {
            Event::Begin => match req.license_key {
                Some(k) => post.stage == Stage::AwaitLicense && act == Action::CheckLicense(k),
                None => fetches(pre, post, act, false),
            },
            _ => fails(post, act, unexpected_spec()),
        },
        Stage::AwaitLicense => match ev {
            Event::LicenseChecked(Ok(valid)) => fetches(pre, post, act, valid),
            Event::LicenseChecked(Err(e)) => post.stage == Stage::Failed && act == Action::Fail(e),
            _ => fails(post, act, unexpected_spec()),
        },
        Stage::AwaitFilters => match ev {
            Event::FiltersFetched(remote) => {
                let candidate = match remote {
                    Some(v) => v.deep_view(),
                    None => fallback_spec(req.prompt@, pre.is_macos),
                };
                &&& post.stage == Stage::AwaitTranscode
                &&& post.resolved.deep_view() == candidate
                &&& post.filters.deep_view() == normalized(candidate, pre.licensed, pre.is_macos)
                &&& post.used_remote == remote is Some
                &&& post.watermarked == !pre.licensed
                &&& post.output_path@ == output_path_spec(req.input_path@)
                &&& match act {
                    Action::Transcode { input_path, filter_graph, output_path } => {
                        &&& input_path == req.input_path
                        &&& filter_graph@ == joined(post.filters.deep_view(), ","@)
                        &&& output_path == post.output_path
                    },
                    _ => false,
                }
            },
            _ => fails(post, act, unexpected_spec()),
        },
        Stage::AwaitTranscode => match ev {
            Event::Transcoded { success, stderr } => if !success {
                fails(post, act, failure_spec(stderr@))
            } else if composite_spec(req.overlay_override, req.prompt@) {
                &&& post.stage == Stage::AwaitOverlay
                &&& post.output_path == pre.output_path
                &&& keeps_chain(pre, post)
                &&& post.final_output == pre.output_path
                &&& match act {
                    Action::Composite { video_path, overlay_path } => {
                        video_path == pre.output_path && overlay_path@ == overlay_path_spec(
                            req.input_path@,
                        )
                    },
                    _ => false,
                }
            } else {
                saves(pre, post, act, pre.output_path)
            },
            Event::LaunchFailed(e) => post.stage == Stage::Failed && act == Action::Fail(e),
            _ => fails(post, act, unexpected_spec()),
        },
        Stage::AwaitOverlay => match ev {
            Event::OverlayDone(adopted) => if adopted {
                saves(pre, post, act, post.final_output) && post.final_output@ == overlay_path_spec(
                    req.input_path@,
                )
            } else {
                saves(pre, post, act, pre.final_output)
            },
            _ => fails(post, act, unexpected_spec()),
        },
        Stage::AwaitSave => match ev {
            Event::Saved(Ok(())) => {
                &&& post.stage == Stage::Finished
                &&& act == Action::Finish(
                    EditOutcome {
                        output_path: pre.final_output,
                        filters: pre.filters,
                        used_remote: pre.used_remote,
                        watermarked: pre.watermarked,
                    },
                )
            },
            Event::Saved(Err(e)) => post.stage == Stage::Failed && act == Action::Fail(e),
            _ => fails(post, act, unexpected_spec()),
        },
        Stage::Finished | Stage::Failed => fails(post, act, unexpected_spec()),
    }
}

impl EditSession {
    /// A fresh edit of `request`; `is_macos` picks the overlay font.
    pub fn new(request: EditRequest, is_macos: bool) -> (r: EditSession)
        ensures
            r.request == request,
            r.is_macos == is_macos,
            r.stage == Stage::Start,
            paths_fixed(r),
            chain_fixed(r),
    {
        EditSession {
            request,
            is_macos,
            stage: Stage::Start,
            licensed: false,
            resolved: Vec::new(),
            filters: Vec::new(),
            used_remote: false,
            watermarked: false,
            output_path: String::new(),
            final_output: String::new(),
        }
    }

    /// Fails the edit because the event does not fit the current stage.
    fn unexpected(self) -> (r: (EditSession, Action))
        ensures
            r.0.request == self.request,
            r.0.is_macos == self.is_macos,
            fails(r.0, r.1, unexpected_spec()),
    {
        let mut s = self;
        s.stage = Stage::Failed;
        (s, Action::Fail(String::from_str("unexpected event for the current stage")))
    }

    /// Moves the edit on by one event and says what outside work comes next.
    pub fn step(self, event: Event) -> (r: (EditSession, Action))
        ensures
            r.0.request == self.request,
            r.0.is_macos == self.is_macos,
            transition(self, event, r.0, r.1),
            paths_fixed(self) ==> paths_fixed(r.0),
            chain_fixed(self) ==> chain_fixed(r.0),
    {
        let mut s = self;
        match s.stage {
            Stage::Start => match event {
                Event::Begin => match &s.request.license_key {
                    Some(k) => {
                        let key = k.clone();
                        s.stage = Stage::AwaitLicense;
                        (s, Action::CheckLicense(key))
                    },
                    None => {
                        s.licensed = false;
                        s.stage = Stage::AwaitFilters;
                        let prompt = s.request.prompt.clone();
                        (s, Action::FetchFilters(prompt))
                    },
                },
                _ => s.unexpected(),
            },
            Stage::AwaitLicense => match event {
                Event::LicenseChecked(Ok(valid)) => {
                    s.licensed = valid;
                    s.stage = Stage::AwaitFilters;
                    let prompt = s.request.prompt.clone();
                    (s, Action::FetchFilters(prompt))
                },
                Event::LicenseChecked(Err(e)) => {
                    s.stage = Stage::Failed;
                    (s, Action::Fail(e))
                },
                _ => s.unexpected(),
            },
            Stage::AwaitFilters => match event {
                Event::FiltersFetched(remote) => {
                    let (candidate, used_remote) = resolve_filters(
                        s.request.prompt.as_str(),
                        remote,
                        s.is_macos,
                    );
                    let resolved = candidate.clone();
                    proof {
                        assert(forall|i: int|
                            0 <= i < resolved.len() ==> #[trigger] resolved.deep_view()[i]
                                == candidate.deep_view()[i]);
                        assert(resolved.deep_view() =~= candidate.deep_view());
                    }
                    s.resolved = resolved;
                    let (filters, watermarked) = normalize_filters(
                        candidate,
                        s.licensed,
                        s.is_macos,
                    );
                    let graph = filter_graph(&filters);
                    let output = output_path(s.request.input_path.as_str());
                    s.filters = filters;
                    s.used_remote = used_remote;
                    s.watermarked = watermarked;
                    s.output_path = output.clone();
                    s.stage = Stage::AwaitTranscode;
                    let input_path = s.request.input_path.clone();
                    (s, Action::Transcode { input_path, filter_graph: graph, output_path: output })
                },
                _ => s.unexpected(),
            },
            Stage::AwaitTranscode => match event {
                Event::Transcoded { success, stderr } => {
                    if !success {
                        s.stage = Stage::Failed;
                        (s, Action::Fail(failure_message(stderr.as_str())))
                    } else {
                        s.final_output = s.output_path.clone();
                        if should_composite(s.request.overlay_override, s.request.prompt.as_str()) {
                            s.stage = Stage::AwaitOverlay;
                            let video_path = s.output_path.clone();
                            let overlay_path = overlay_output_path(s.request.input_path.as_str());
                            (s, Action::Composite { video_path, overlay_path })
                        } else {
                            s.stage = Stage::AwaitSave;
                            let act = Action::SaveProject {
                                input_path: s.request.input_path.clone(),
                                output_path: s.final_output.clone(),
                                prompt: s.request.prompt.clone(),
                            };
                            (s, act)
                        }
                    }
                },
                Event::LaunchFailed(e) => {
                    s.stage = Stage::Failed;
                    (s, Action::Fail(e))
                },
                _ => s.unexpected(),
            },
            Stage::AwaitOverlay => match event {
                Event::OverlayDone(adopted) => {
                    if adopted {
                        s.final_output = overlay_output_path(s.request.input_path.as_str());
                    }
                    s.stage = Stage::AwaitSave;
                    let act = Action::SaveProject {
                        input_path: s.request.input_path.clone(),
                        output_path: s.final_output.clone(),
                        prompt: s.request.prompt.clone(),
                    };
                    (s, act)
                },
                _ => s.unexpected(),
            },
            Stage::AwaitSave => match event {
                Event::Saved(Ok(())) => {
                    let EditSession {
                        request,
                        is_macos,
                        stage: _,
                        licensed,
                        resolved,
                        filters,
                        used_remote,
                        watermarked,
                        output_path,
                        final_output,
                    } = s;
                    let outcome = EditOutcome {
                        output_path: final_output,
                        filters,
                        used_remote,
                        watermarked,
                    };
                    let done = EditSession {
                        request,
                        is_macos,
                        stage: Stage::Finished,
                        licensed,
                        resolved,
                        filters: Vec::new(),
                        used_remote,
                        watermarked,
                        output_path,
                        final_output: String::new(),
                    };
                    (done, Action::Finish(outcome))
                },
                Event::Saved(Err(e)) => {
                    s.stage = Stage::Failed;
                    (s, Action::Fail(e))
                },
                _ => s.unexpected(),
            },
            Stage::Finished | Stage::Failed => s.unexpected(),
        }
    }
}

} // verus!
