use vibe_edit::{
    classify_lowered, classify_mood, drawtext_font, ensure_three_filters, fallback_filters,
    contains, join_with, mood_filters, normalize_filters, resolve_filters, watermark_filter, Mood,
};

fn strings(v: &[&str]) -> Vec<String> {
    v.iter().map(|s| s.to_string()).collect()
}

const WATERMARK: &str = "drawtext=fontfile=FreeSerif.ttf:text='TRIAL':x=16:y=16:fontsize=24:fontcolor=white";

#[test]
fn ensure_three_pads_empty() {
    assert_eq!(ensure_three_filters(vec![]), strings(&["hue=s=1", "hue=s=1", "hue=s=1"]));
}

#[test]
fn ensure_three_pads_short_chains() {
    assert_eq!(ensure_three_filters(strings(&["a"])), strings(&["a", "hue=s=1", "hue=s=1"]));
    assert_eq!(ensure_three_filters(strings(&["a", "b"])), strings(&["a", "b", "hue=s=1"]));
}

#[test]
fn ensure_three_keeps_and_truncates() {
    assert_eq!(ensure_three_filters(strings(&["a", "b", "c"])), strings(&["a", "b", "c"]));
    assert_eq!(ensure_three_filters(strings(&["a", "b", "c", "d", "e"])), strings(&["a", "b", "c"]));
}

#[test]
fn fonts_per_platform() {
    assert_eq!(drawtext_font(false), "fontfile=FreeSerif.ttf");
    assert_eq!(drawtext_font(true), "fontfile=/System/Library/Fonts/Supplemental/Arial.ttf");
}

#[test]
fn watermark_directive_text() {
    assert_eq!(watermark_filter(false), WATERMARK);
    assert_eq!(
        watermark_filter(true),
        "drawtext=fontfile=/System/Library/Fonts/Supplemental/Arial.ttf:text='TRIAL':x=16:y=16:fontsize=24:fontcolor=white"
    );
}

#[test]
fn energetic_beats_calm() {
    assert_eq!(classify_mood("so energetic and calm"), Mood::Energetic);
    assert_eq!(classify_lowered("so energetic and calm"), Mood::Energetic);
}

#[test]
fn mood_keywords_ignore_case() {
    assert_eq!(classify_mood("Go FAST"), Mood::Energetic);
    assert_eq!(classify_mood("make it Chill"), Mood::Chill);
    assert_eq!(classify_mood("stay CALM"), Mood::Chill);
    assert_eq!(classify_mood("explosions"), Mood::Action);
    assert_eq!(classify_mood(""), Mood::Action);
}

#[test]
fn mood_reads_mixed_case_prompt() {
    assert_eq!(classify_mood("MaKe It ChIlL"), Mood::Chill);
    assert_eq!(classify_lowered("MaKe It ChIlL"), Mood::Action);
}

#[test]
fn fallback_chains_per_mood() {
    assert_eq!(
        fallback_filters("make it energetic", false),
        strings(&[
            "setpts=0.85*PTS",
            "hue=s=1.25",
            "drawtext=fontfile=FreeSerif.ttf:text='VIBE: ENERGETIC':x=16:y=16:fontsize=24:fontcolor=white",
        ])
    );
    assert_eq!(
        fallback_filters("calm down", false),
        strings(&[
            "setpts=1.05*PTS",
            "hue=s=0.8",
            "drawtext=fontfile=FreeSerif.ttf:text='VIBE: CHILL':x=16:y=16:fontsize=24:fontcolor=white",
        ])
    );
    assert_eq!(
        fallback_filters("anything else", false),
        strings(&[
            "setpts=1.0*PTS",
            "hue=s=1.0",
            "drawtext=fontfile=FreeSerif.ttf:text='VIBE: ACTION':x=16:y=16:fontsize=24:fontcolor=white",
        ])
    );
    assert_eq!(mood_filters(Mood::Chill, false), fallback_filters("chill", false));
}

#[test]
fn resolve_prefers_remote() {
    let (chain, used) = resolve_filters("make it chill", Some(strings(&["x"])), false);
    assert_eq!(chain, strings(&["x"]));
    assert!(used);
}

#[test]
fn resolve_falls_back_without_remote() {
    let (chain, used) = resolve_filters("make it chill", None, false);
    assert_eq!(chain, fallback_filters("make it chill", false));
    assert!(!used);
}

#[test]
fn unlicensed_chain_gets_watermark() {
    for n in 0..6 {
        let candidate: Vec<String> = (0..n).map(|i| format!("f{}", i)).collect();
        let (chain, watermarked) = normalize_filters(candidate, false, false);
        assert_eq!(chain.len(), 3);
        assert_eq!(chain[2], WATERMARK);
        assert!(watermarked);
    }
}

#[test]
fn licensed_chain_keeps_third_slot() {
    let (chain, watermarked) = normalize_filters(fallback_filters("fast", false), true, false);
    assert_eq!(chain, fallback_filters("fast", false));
    assert!(!watermarked);
    let (chain, _) = normalize_filters(strings(&["a", "b"]), true, false);
    assert_eq!(chain, strings(&["a", "b", "hue=s=1"]));
}

#[test]
fn join_puts_separator_between() {
    assert_eq!(join_with(&vec![], ","), "");
    assert_eq!(join_with(&strings(&["a"]), ","), "a");
    assert_eq!(join_with(&strings(&["a", "b", "c"]), ", "), "a, b, c");
}

#[test]
fn substring_search_edges() {
    assert!(contains("make it chill", "chill"));
    assert!(contains("make it chill", "make"));
    assert!(contains("abc", ""));
    assert!(contains("", ""));
    assert!(!contains("", "a"));
    assert!(!contains("chil", "chill"));
    assert!(!contains("make it Chill", "chill"));
    assert!(contains("caf\u{e9} calm", "\u{e9} c"));
}
