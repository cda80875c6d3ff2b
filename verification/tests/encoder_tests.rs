use transcode_core::encoder::{
    baseline_choice, resolve_next, resolve_start, resolve_with_answers, EncoderChoice,
    ResolveStep, ResolverState,
};
use transcode_core::format::OutputFormat;

fn choice_summary(c: &EncoderChoice) -> (String, Option<String>, Option<String>, Vec<String>) {
    (
        c.video_codec.clone(),
        c.audio_codec.clone(),
        c.preset.clone(),
        c.extra_args.clone(),
    )
}

#[test]
fn mp4_software_baseline() {
    let c = baseline_choice(OutputFormat::Mp4Family);
    assert_eq!(
        choice_summary(&c),
        (
            "libx264".to_string(),
            Some("aac".to_string()),
            Some("medium".to_string()),
            vec![],
        )
    );
}

#[test]
fn webm_baseline_is_vp9_and_opus() {
    let c = baseline_choice(OutputFormat::WebM);
    assert_eq!(
        choice_summary(&c),
        (
            "libvpx-vp9".to_string(),
            Some("libopus".to_string()),
            None,
            vec!["-b:v".to_string(), "0".to_string(), "-crf".to_string(), "30".to_string()],
        )
    );
}

#[test]
fn theora_baseline() {
    let c = baseline_choice(OutputFormat::OggTheora);
    assert_eq!(
        choice_summary(&c),
        (
            "libtheora".to_string(),
            Some("libvorbis".to_string()),
            None,
            vec!["-q:v".to_string(), "7".to_string()],
        )
    );
}

#[test]
fn no_hardware_preference_skips_probing() {
    match resolve_start(OutputFormat::Mp4Family, false) {
        ResolveStep::Done { choice } => assert_eq!(choice.video_codec, "libx264"),
        ResolveStep::Probe { .. } => panic!("no probe expected without hardware preference"),
    }
}

#[test]
fn hardware_preference_probes_nvidia_first() {
    match resolve_start(OutputFormat::Mp4Family, true) {
        ResolveStep::Probe { encoder, state } => {
            assert_eq!(encoder, "h264_nvenc");
            assert_eq!(state.next_candidate, 1);
        }
        ResolveStep::Done { .. } => panic!("probing expected"),
    }
}

#[test]
fn third_candidate_wins_after_two_failures() {
    // Only the AMD candidate probes successfully: the two higher-priority
    // candidates must be probed first, in order, and AMD is adopted.
    let answers = vec![false, false, true, false];
    let (choice, asked) = resolve_with_answers(OutputFormat::Mp4Family, true, &answers);
    assert_eq!(asked, vec!["h264_nvenc", "h264_videotoolbox", "h264_amf"]);
    assert_eq!(choice.video_codec, "h264_amf");
    assert_eq!(choice.preset, Some("medium".to_string()));
    assert_eq!(
        choice.extra_args,
        vec!["-usage".to_string(), "transcoding".to_string()]
    );
}

#[test]
fn first_success_stops_probing() {
    let answers = vec![true, true, true, true];
    let (choice, asked) = resolve_with_answers(OutputFormat::Mp4Family, true, &answers);
    assert_eq!(asked, vec!["h264_nvenc"]);
    assert_eq!(choice.video_codec, "h264_nvenc");
    assert_eq!(choice.preset, Some("p4".to_string()));
    assert!(choice.extra_args.is_empty());
}

#[test]
fn all_probes_failing_falls_back_to_software() {
    let answers = vec![false, false, false, false];
    let (choice, asked) = resolve_with_answers(OutputFormat::Mp4Family, true, &answers);
    assert_eq!(
        asked,
        vec!["h264_nvenc", "h264_videotoolbox", "h264_amf", "h264_qsv"]
    );
    assert_eq!(choice.video_codec, "libx264");
    assert_eq!(choice.audio_codec, Some("aac".to_string()));
    assert_eq!(choice.preset, Some("medium".to_string()));
}

#[test]
fn webm_ignores_hardware_preference() {
    let answers = vec![true, true, true, true];
    let (choice, asked) = resolve_with_answers(OutputFormat::WebM, true, &answers);
    assert!(asked.is_empty());
    assert_eq!(choice.video_codec, "libvpx-vp9");
    assert_eq!(choice.audio_codec, Some("libopus".to_string()));
}

#[test]
fn videotoolbox_has_no_preset() {
    let state = ResolverState { format: OutputFormat::Mp4Family, next_candidate: 2 };
    match resolve_next(state, true) {
        ResolveStep::Done { choice } => {
            assert_eq!(choice.video_codec, "h264_videotoolbox");
            assert_eq!(choice.preset, None);
            assert_eq!(choice.extra_args, vec!["-q:v".to_string(), "55".to_string()]);
        }
        ResolveStep::Probe { .. } => panic!("success must finish resolution"),
    }
}

#[test]
fn quicksync_is_last_candidate() {
    let state = ResolverState { format: OutputFormat::Mp4Family, next_candidate: 4 };
    match resolve_next(state, true) {
        ResolveStep::Done { choice } => {
            assert_eq!(choice.video_codec, "h264_qsv");
            assert_eq!(
                choice.extra_args,
                vec!["-global_quality".to_string(), "25".to_string()]
            );
        }
        ResolveStep::Probe { .. } => panic!("success must finish resolution"),
    }
}
