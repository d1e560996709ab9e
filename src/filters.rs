use vstd::prelude::*;
use crate::text::{contains, has_substring, lower_of, lowercase};

verus! {

/// The coarse editing intent read from a prompt by the keyword rules.
#[derive(Clone, Copy, Debug, PartialEq, Eq, Structural)]
pub enum Mood {
    Energetic,
    Chill,
    Action,
}

/// The font argument of every text-overlay directive on the given platform.
pub open spec fn font_spec(is_macos: bool) -> Seq<char> {
    if is_macos {
        "fontfile=/System/Library/Fonts/Supplemental/Arial.ttf"@
    } else {
        "fontfile=FreeSerif.ttf"@
    }
}

/// A text-overlay directive that prints `label` in the top-left corner.
pub open spec fn label_directive(font: Seq<char>, label: Seq<char>) -> Seq<char> {
    "drawtext="@ + font + ":text='"@ + label + "':x=16:y=16:fontsize=24:fontcolor=white"@
}

/// The trial watermark that unlicensed output carries in its last slot.
pub open spec fn watermark_spec(is_macos: bool) -> Seq<char> {
    label_directive(font_spec(is_macos), "TRIAL"@)
}

/// The neutral saturation directive used to pad a short chain.
pub open spec fn pad_directive() -> Seq<char> {
    "hue=s=1"@
}

/// Mood of an already lower-cased prompt: energetic keywords win over calm
/// ones, which win over the default.
pub open spec fn mood_of(lowered: Seq<char>) -> Mood {
    if has_substring(lowered, "energetic"@) || has_substring(lowered, "fast"@) {
        Mood::Energetic
    } else if has_substring(lowered, "chill"@) || has_substring(lowered, "calm"@) {
        Mood::Chill
    } else {
        Mood::Action
    }
}

/// The fixed three-directive chain of a mood: speed, saturation, mood label.
pub open spec fn mood_chain(m: Mood, is_macos: bool) -> Seq<Seq<char>> {
    let font = font_spec(is_macos);
    match m {
        Mood::Energetic => seq!["setpts=0.85*PTS"@, "hue=s=1.25"@,
            label_directive(font, "VIBE: ENERGETIC"@)],
        Mood::Chill => seq!["setpts=1.05*PTS"@, "hue=s=0.8"@, label_directive(font, "VIBE: CHILL"@)],
        Mood::Action => seq!["setpts=1.0*PTS"@, "hue=s=1.0"@, label_directive(font, "VIBE: ACTION"@)],
    }
}

/// The deterministic chain chosen for a prompt when no remote chain is at hand.
pub open spec fn fallback_spec(prompt: Seq<char>, is_macos: bool) -> Seq<Seq<char>> {
    mood_chain(mood_of(lower_of(prompt)), is_macos)
}

/// A candidate chain cut or padded to exactly three directives.
pub open spec fn three_of(c: Seq<Seq<char>>) -> Seq<Seq<char>> {
    Seq::new(3, |i: int| if i < c.len() { c[i] } else { pad_directive() })
}

/// The chain sent to the transcoder: three directives, the last one replaced by
/// the trial watermark when the request is unlicensed.
pub open spec fn normalized(c: Seq<Seq<char>>, licensed: bool, is_macos: bool) -> Seq<Seq<char>> {
    if licensed {
        three_of(c)
    } else {
        three_of(c).update(2, watermark_spec(is_macos))
    }
}

/// Font argument of the text-overlay directives on the given platform.
pub fn drawtext_font(is_macos: bool) -> (r: &'static str)
    ensures
        r@ == font_spec(is_macos),
{
    if is_macos {
        "fontfile=/System/Library/Fonts/Supplemental/Arial.ttf"
    } else {
        "fontfile=FreeSerif.ttf"
    }
}

/// Builds the text-overlay directive that prints `label`.
fn label_filter(is_macos: bool, label: &str) -> (r: String)
    ensures
        r@ == label_directive(font_spec(is_macos), label@),
{
    let mut r = String::from_str("drawtext=");
    r.append(drawtext_font(is_macos));
    r.append(":text='");
    r.append(label);
    r.append("':x=16:y=16:fontsize=24:fontcolor=white");
    r
}

/// The trial-watermark directive.
pub fn watermark_filter(is_macos: bool) -> (r: String)
    ensures
        r@ == watermark_spec(is_macos),
{
    label_filter(is_macos, "TRIAL")
}

/// Cuts a candidate chain to its first three directives, padding a short one
/// with the neutral saturation directive.
pub fn ensure_three_filters(filters: Vec<String>) -> (r: Vec<String>)
    ensures
        r.deep_view() == three_of(filters.deep_view()),
        r.len() == 3,
{
    let ghost orig = filters.deep_view();
    let mut filters = filters;
    while filters.len() < 3
        invariant
            filters.len() <= 3 || filters.len() == orig.len(),
            forall|i: int|
                0 <= i < filters.len() ==> #[trigger] filters@[i]@ == (if i < orig.len() {
                    orig[i]
                } else {
                    pad_directive()
                }),
            filters.len() >= orig.len(),
        decreases 3 - filters.len(),
    {
        filters.push(String::from_str("hue=s=1"));
    }
    filters.truncate(3);
    assert(forall|i: int| 0 <= i < 3 ==> #[trigger] filters.deep_view()[i] == filters@[i]@);
    assert(filters.deep_view() =~= three_of(orig));
    filters
}

/// Classifies an already lower-cased prompt; the rules are tried in order and the
/// first match wins.
pub fn classify_lowered(lowered: &str) -> (r: Mood)
    ensures
        r == mood_of(lowered@),
{
    if contains(lowered, "energetic") || contains(lowered, "fast") {
        Mood::Energetic
    } else if contains(lowered, "chill") || contains(lowered, "calm") {
        Mood::Chill
    } else {
        Mood::Action
    }
}

/// Classifies a prompt by its lower-cased keywords.
pub fn classify_mood(prompt: &str) -> (r: Mood)
    ensures
        r == mood_of(lower_of(prompt@)),
{
    let lowered = lowercase(prompt);
    classify_lowered(lowered.as_str())
}

/// The fixed chain of a mood.
pub fn mood_filters(m: Mood, is_macos: bool) -> (r: Vec<String>)
    ensures
        r.deep_view() == mood_chain(m, is_macos),
{
    let mut r: Vec<String> = Vec::new();
    match m {
        Mood::Energetic => {
            r.push(String::from_str("setpts=0.85*PTS"));
            r.push(String::from_str("hue=s=1.25"));
            r.push(label_filter(is_macos, "VIBE: ENERGETIC"));
        },
        Mood::Chill => {
            r.push(String::from_str("setpts=1.05*PTS"));
            r.push(String::from_str("hue=s=0.8"));
            r.push(label_filter(is_macos, "VIBE: CHILL"));
        },
        Mood::Action => {
            r.push(String::from_str("setpts=1.0*PTS"));
            r.push(String::from_str("hue=s=1.0"));
            r.push(label_filter(is_macos, "VIBE: ACTION"));
        },
    }
    assert(r.deep_view() =~= mood_chain(m, is_macos));
    r
}

/// The deterministic keyword-rule chain for a prompt.
pub fn fallback_filters(prompt: &str, is_macos: bool) -> (r: Vec<String>)
    ensures
        r.deep_view() == fallback_spec(prompt@, is_macos),
{
    mood_filters(classify_mood(prompt), is_macos)
}

/// Picks the chain for a prompt: the remote chain when the remote path produced
/// one, else the keyword-rule chain. The flag tells which was used.
pub fn resolve_filters(prompt: &str, remote: Option<Vec<String>>, is_macos: bool) -> (r: (
    Vec<String>,
    bool,
))
    ensures
        match remote {
            Some(v) => r.0.deep_view() == v.deep_view() && r.1,
            None => r.0.deep_view() == fallback_spec(prompt@, is_macos) && !r.1,
        },
{
    match remote {
        Some(v) => (v, true),
        None => (fallback_filters(prompt, is_macos), false),
    }
}

/// Normalizes a candidate chain to three directives and forces the trial
/// watermark into the last slot when unlicensed; the flag tells whether it did.
pub fn normalize_filters(candidate: Vec<String>, licensed: bool, is_macos: bool) -> (r: (
    Vec<String>,
    bool,
))
    ensures
        r.0.deep_view() == normalized(candidate.deep_view(), licensed, is_macos),
        r.1 == !licensed,
{
    let mut filters = ensure_three_filters(candidate);
    let watermarked = !licensed;
    if watermarked {
        filters[2] = watermark_filter(is_macos);
        assert(filters.deep_view() =~= normalized(candidate.deep_view(), licensed, is_macos));
    }
    (filters, watermarked)
}

} // verus!
