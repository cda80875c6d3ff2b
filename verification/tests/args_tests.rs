use transcode_core::args::{build_command, probe_command, CompressionRequest, Engine};
use transcode_core::encoder::{baseline_choice, candidate_choice_exec};
use transcode_core::format::OutputFormat;

fn request(input: &str, output: &str) -> CompressionRequest {
    CompressionRequest {
        input_path: input.to_string(),
        output_path: output.to_string(),
        target_width: String::new(),
        target_height: String::new(),
        target_size_bytes: None,
        prefer_hardware: false,
    }
}

#[test]
fn mp4_baseline_arguments() {
    let req = request("in.mp4", "out.mp4");
    let choice = baseline_choice(OutputFormat::Mp4Family);
    let cmd = build_command(&req, OutputFormat::Mp4Family, &choice);
    assert_eq!(cmd.engine, Engine::Ffmpeg);
    assert_eq!(
        cmd.args,
        vec![
            "-i", "in.mp4", "-c:v", "libx264", "-preset", "medium", "-pix_fmt", "yuv420p",
            "-c:a", "aac", "-y", "out.mp4",
        ]
    );
}

#[test]
fn mp4_always_normalizes_pixel_format() {
    // The pixel-format flag must be present for every encoder choice.
    let req = request("a.mov", "b.mkv");
    for k in 0..4 {
        let choice = candidate_choice_exec(k);
        let cmd = build_command(&req, OutputFormat::Mp4Family, &choice);
        assert!(cmd.args.iter().any(|a| a == "-pix_fmt"));
        assert!(cmd.args.iter().any(|a| a == "yuv420p"));
    }
    let cmd = build_command(&req, OutputFormat::Mp4Family, &baseline_choice(OutputFormat::Mp4Family));
    assert!(cmd.args.iter().any(|a| a == "-pix_fmt"));
}

#[test]
fn videotoolbox_arguments_skip_preset() {
    let req = request("in.mp4", "out.mp4");
    let choice = candidate_choice_exec(1);
    let cmd = build_command(&req, OutputFormat::Mp4Family, &choice);
    assert_eq!(
        cmd.args,
        vec![
            "-i", "in.mp4", "-c:v", "h264_videotoolbox", "-pix_fmt", "yuv420p", "-q:v", "55",
            "-c:a", "aac", "-y", "out.mp4",
        ]
    );
}

#[test]
fn webm_arguments_are_deterministic() {
    let req = request("clip.avi", "clip.webm");
    let choice = baseline_choice(OutputFormat::WebM);
    let cmd = build_command(&req, OutputFormat::WebM, &choice);
    assert_eq!(cmd.engine, Engine::Ffmpeg);
    assert_eq!(
        cmd.args,
        vec![
            "-i", "clip.avi", "-c:v", "libvpx-vp9", "-b:v", "0", "-crf", "30", "-c:a",
            "libopus", "-y", "clip.webm",
        ]
    );
}

#[test]
fn theora_arguments() {
    let req = request("clip.mp4", "clip.ogv");
    let choice = baseline_choice(OutputFormat::OggTheora);
    let cmd = build_command(&req, OutputFormat::OggTheora, &choice);
    assert_eq!(
        cmd.args,
        vec![
            "-i", "clip.mp4", "-c:v", "libtheora", "-q:v", "7", "-c:a", "libvorbis", "-y",
            "clip.ogv",
        ]
    );
}

#[test]
fn gif_uses_fixed_pipeline() {
    let req = request("clip.mp4", "clip.gif");
    let choice = baseline_choice(OutputFormat::Gif);
    let cmd = build_command(&req, OutputFormat::Gif, &choice);
    assert_eq!(cmd.engine, Engine::Ffmpeg);
    assert_eq!(
        cmd.args,
        vec![
            "-i", "clip.mp4", "-vf", "fps=15,scale=480:-1:flags=lanczos", "-y", "clip.gif",
        ]
    );
}

#[test]
fn pdf_routes_to_document_converter() {
    let req = request("doc.pdf", "doc_small.pdf");
    let choice = baseline_choice(OutputFormat::Pdf);
    let cmd = build_command(&req, OutputFormat::Pdf, &choice);
    assert_eq!(cmd.engine, Engine::Ghostscript);
    assert_eq!(
        cmd.args,
        vec![
            "-sDEVICE=pdfwrite",
            "-dPDFSETTINGS=/screen",
            "-dNOPAUSE",
            "-dQUIET",
            "-dBATCH",
            "-sOutputFile=doc_small.pdf",
            "doc.pdf",
        ]
    );
}

#[test]
fn still_image_with_size_cap() {
    let mut req = request("photo.png", "photo_small.png");
    req.target_size_bytes = Some(512000);
    let choice = baseline_choice(OutputFormat::StillImage);
    let cmd = build_command(&req, OutputFormat::StillImage, &choice);
    assert_eq!(
        cmd.args,
        vec!["-i", "photo.png", "-fs", "512000", "-y", "photo_small.png"]
    );
}

#[test]
fn still_image_zero_target_has_no_cap() {
    let mut req = request("photo.png", "photo_small.png");
    req.target_size_bytes = Some(0);
    let choice = baseline_choice(OutputFormat::StillImage);
    let cmd = build_command(&req, OutputFormat::StillImage, &choice);
    assert_eq!(cmd.args, vec!["-i", "photo.png", "-y", "photo_small.png"]);
}

#[test]
fn video_never_gets_size_cap() {
    // Even with a target size supplied, video-class formats never carry
    // the file-size-limit flag.
    let mut req = request("in.mp4", "out.mp4");
    req.target_size_bytes = Some(512000);
    for (fmt, choice) in [
        (OutputFormat::Mp4Family, baseline_choice(OutputFormat::Mp4Family)),
        (OutputFormat::WebM, baseline_choice(OutputFormat::WebM)),
        (OutputFormat::OggTheora, baseline_choice(OutputFormat::OggTheora)),
        (OutputFormat::Gif, baseline_choice(OutputFormat::Gif)),
        (OutputFormat::Unknown, baseline_choice(OutputFormat::Unknown)),
    ] {
        let cmd = build_command(&req, fmt, &choice);
        assert!(
            !cmd.args.iter().any(|a| a == "-fs"),
            "size cap leaked into {:?}",
            fmt
        );
    }
}

#[test]
fn scale_preserves_aspect_when_height_is_zero() {
    let mut req = request("photo.jpg", "photo_small.jpg");
    req.target_width = "640".to_string();
    req.target_height = "0".to_string();
    let choice = baseline_choice(OutputFormat::StillImage);
    let cmd = build_command(&req, OutputFormat::StillImage, &choice);
    assert_eq!(
        cmd.args,
        vec!["-i", "photo.jpg", "-vf", "scale=640:-1", "-y", "photo_small.jpg"]
    );
}

#[test]
fn scale_preserves_aspect_when_height_is_empty() {
    let mut req = request("photo.jpg", "out.jpg");
    req.target_width = "640".to_string();
    req.target_height = String::new();
    let choice = baseline_choice(OutputFormat::StillImage);
    let cmd = build_command(&req, OutputFormat::StillImage, &choice);
    assert!(cmd.args.iter().any(|a| a == "scale=640:-1"));
}

#[test]
fn scale_with_only_height_given() {
    let mut req = request("photo.jpg", "out.jpg");
    req.target_width = "0".to_string();
    req.target_height = "480".to_string();
    let choice = baseline_choice(OutputFormat::StillImage);
    let cmd = build_command(&req, OutputFormat::StillImage, &choice);
    assert!(cmd.args.iter().any(|a| a == "scale=-1:480"));
}

#[test]
fn no_scale_when_no_dimension_given() {
    let mut req = request("photo.jpg", "out.jpg");
    req.target_width = "0".to_string();
    req.target_height = String::new();
    let choice = baseline_choice(OutputFormat::StillImage);
    let cmd = build_command(&req, OutputFormat::StillImage, &choice);
    assert_eq!(cmd.args, vec!["-i", "photo.jpg", "-y", "out.jpg"]);
}

#[test]
fn both_dimensions_given() {
    let mut req = request("photo.jpg", "out.jpg");
    req.target_width = "800".to_string();
    req.target_height = "600".to_string();
    let choice = baseline_choice(OutputFormat::StillImage);
    let cmd = build_command(&req, OutputFormat::StillImage, &choice);
    assert!(cmd.args.iter().any(|a| a == "scale=800:600"));
}

#[test]
fn probe_invocation_is_fixed() {
    assert_eq!(
        probe_command("h264_nvenc"),
        vec![
            "-f", "lavfi", "-i", "color=s=1280x720:d=0.1", "-c:v", "h264_nvenc", "-f", "null",
            "-",
        ]
    );
}
