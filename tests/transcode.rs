use vibe_edit::{
    diagnostic_summary, failure_message, filter_graph, output_path, overlay_output_path, should_composite,
    transcode_result, wants_overlay, wants_overlay_lowered,
};

const SILENT: &str = "FFmpeg failed (no stderr). Check ffmpeg is installed and path is valid.";

#[test]
fn graph_joins_with_commas() {
    let chain = vec!["setpts=0.85*PTS".to_string(), "hue=s=1.25".to_string(), "x".to_string()];
    assert_eq!(filter_graph(&chain), "setpts=0.85*PTS,hue=s=1.25,x");
}

#[test]
fn output_beside_input() {
    assert_eq!(output_path("clip.mp4"), "vibe_output.mp4");
    assert_eq!(output_path("/videos/clip.mp4"), "/videos/vibe_output.mp4");
    assert_eq!(overlay_output_path("/videos/clip.mp4"), "/videos/vibe_output_overlay.mp4");
}

#[test]
fn silent_failure_message() {
    assert_eq!(failure_message(""), SILENT);
}

#[test]
fn failure_message_keeps_five_lines() {
    assert_eq!(failure_message("one\ntwo\r\nthree"), "FFmpeg failed: one two three");
    assert_eq!(failure_message("1\n2\n3\n4\n5\n6\n7\n"), "FFmpeg failed: 1 2 3 4 5");
}

#[test]
fn transcode_result_by_exit() {
    assert_eq!(transcode_result(true, "noise", "out.mp4".to_string()), Ok("out.mp4".to_string()));
    assert_eq!(transcode_result(false, "", "out.mp4".to_string()), Err(SILENT.to_string()));
    assert_eq!(
        transcode_result(false, "bad input", "out.mp4".to_string()),
        Err("FFmpeg failed: bad input".to_string())
    );
}

#[test]
fn overlay_keywords() {
    assert!(wants_overlay("please add animation to this clip"));
    assert!(!wants_overlay("make it chill"));
    assert!(wants_overlay("Transparent OVERLAY please"));
    assert!(wants_overlay_lowered("animation in between scenes"));
    assert!(!wants_overlay_lowered("ADD ANIMATION"));
}

#[test]
fn explicit_overlay_choice_wins() {
    assert!(!should_composite(Some(false), "add animation"));
    assert!(should_composite(Some(true), "make it chill"));
    assert!(should_composite(None, "add animation"));
    assert!(!should_composite(None, "make it chill"));
}

#[test]
fn summary_of_given_lines() {
    let lines: Vec<String> = ["a", "b", "c", "d", "e", "f"].iter().map(|s| s.to_string()).collect();
    assert_eq!(diagnostic_summary(&lines), "FFmpeg failed: a b c d e");
    assert_eq!(diagnostic_summary(&vec!["only".to_string()]), "FFmpeg failed: only");
    assert_eq!(diagnostic_summary(&vec![]), "FFmpeg failed: ");
}

#[test]
fn bare_carriage_return_stays_in_line() {
    assert_eq!(failure_message("a\rb\n\nc\r"), "FFmpeg failed: a\rb  c\r");
}
