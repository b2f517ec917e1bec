use ffmpeg_screen_recorder::OutputDisposition;
use ffmpeg_screen_recorder::Position;
use ffmpeg_screen_recorder::Resolution;
use ffmpeg_screen_recorder::WindowInfo;
use ffmpeg_screen_recorder::build_encoder_args;
use ffmpeg_screen_recorder::build_recording_command;
use ffmpeg_screen_recorder::encoder_unavailable_message;
use ffmpeg_screen_recorder::get_number_of_processors;
use ffmpeg_screen_recorder::is_rtmp_url;
use ffmpeg_screen_recorder::output_disposition;
use ffmpeg_screen_recorder::plan;
use ffmpeg_screen_recorder::recording_threads;
use ffmpeg_screen_recorder::resolve_output;

#[test]
fn full_screen_normalized_plan_pads_only() {
    let screen = Resolution::new(1920, 1080);
    let p = plan(screen, true, false, Position::new(0, 0));
    assert_eq!(p.output_canvas, Resolution::new(1920, 1080));
    assert_eq!(p.filter_expression, "pad=1920:1080:(ow-iw)/2:(oh-ih)/2");
}

#[test]
fn windowed_normalized_plan_crops_then_pads() {
    let p = plan(Resolution::new(1000, 600), true, true, Position::new(50, 50));
    assert_eq!(p.output_canvas, Resolution::new(1280, 720));
    assert_eq!(
        p.filter_expression,
        "crop=1000:600:50:50,pad=1280:720:(ow-iw)/2:(oh-ih)/2"
    );
}

#[test]
fn raw_pad_plan_rounds_each_dimension_up() {
    let p = plan(Resolution::new(1275, 717), false, true, Position::new(0, 0));
    assert_eq!(p.output_canvas, Resolution::new(1280, 720));
    assert_eq!(
        p.filter_expression,
        "crop=1275:717:0:0,pad=1280:720:(ow-iw)/2:(oh-ih)/2"
    );
}

#[test]
fn file_recording_without_audio_drops_the_audio_stream() {
    let args = build_encoder_args(4, false, false, Resolution::new(1920, 1080), "F", "out.mp4");
    let expected: Vec<&str> = vec![
        "-threads", "4", "-f", "x11grab", "-r", "60", "-s", "1920x1080", "-i", ":0", "-f",
        "pulse", "-ac", "2", "-i", "default", "-vcodec", "libx264", "-preset", "veryfast",
        "-pix_fmt", "yuv420p", "-crf", "18", "-vf", "F", "-an", "out.mp4",
    ];
    assert_eq!(args, expected);
}

#[test]
fn file_recording_with_audio_keeps_the_audio_codec() {
    let args = build_encoder_args(4, false, true, Resolution::new(1920, 1080), "F", "out.mp4");
    let expected: Vec<&str> = vec![
        "-threads", "4", "-f", "x11grab", "-r", "60", "-s", "1920x1080", "-i", ":0", "-f",
        "pulse", "-ac", "2", "-i", "default", "-vcodec", "libx264", "-preset", "veryfast",
        "-pix_fmt", "yuv420p", "-crf", "18", "-vf", "F", "-acodec", "libfdk_aac", "-vbr", "5",
        "-ar", "44100", "out.mp4",
    ];
    assert_eq!(args, expected);
}

#[test]
fn stream_without_audio_is_muted_not_dropped() {
    let args = build_encoder_args(
        2,
        true,
        false,
        Resolution::new(1280, 720),
        "F",
        "rtmp://live/stream",
    );
    let expected: Vec<&str> = vec![
        "-threads", "2", "-f", "x11grab", "-r", "30", "-s", "1280x720", "-i", ":0", "-f",
        "pulse", "-ac", "2", "-i", "default", "-vcodec", "libx264", "-preset", "veryfast",
        "-pix_fmt", "yuv420p", "-crf", "25", "-vf", "F", "-acodec", "libfdk_aac", "-vbr", "5",
        "-ar", "44100", "-af", "volume=0", "-f", "flv", "rtmp://live/stream",
    ];
    assert_eq!(args, expected);
}

#[test]
fn stream_with_audio_has_no_mute_filter() {
    let args = build_encoder_args(
        2,
        true,
        true,
        Resolution::new(1280, 720),
        "F",
        "rtmp://live/stream",
    );
    let expected: Vec<&str> = vec![
        "-threads", "2", "-f", "x11grab", "-r", "30", "-s", "1280x720", "-i", ":0", "-f",
        "pulse", "-ac", "2", "-i", "default", "-vcodec", "libx264", "-preset", "veryfast",
        "-pix_fmt", "yuv420p", "-crf", "25", "-vf", "F", "-acodec", "libfdk_aac", "-vbr", "5",
        "-ar", "44100", "-f", "flv", "rtmp://live/stream",
    ];
    assert_eq!(args, expected);
}

#[test]
fn full_screen_run_builds_the_whole_command() {
    let geometry = WindowInfo::full_screen(Resolution::new(1920, 1080));
    let args = build_recording_command(4, false, false, false, false, &geometry, "out.mp4");
    let expected: Vec<&str> = vec![
        "-threads", "4", "-f", "x11grab", "-r", "60", "-s", "1920x1080", "-i", ":0", "-f",
        "pulse", "-ac", "2", "-i", "default", "-vcodec", "libx264", "-preset", "veryfast",
        "-pix_fmt", "yuv420p", "-crf", "18", "-vf", "pad=1920:1080:(ow-iw)/2:(oh-ih)/2", "-an",
        "out.mp4",
    ];
    assert_eq!(args, expected);
}

#[test]
fn windowed_run_builds_the_whole_command() {
    let geometry = WindowInfo::from_probe(
        Resolution::new(1920, 1080),
        Resolution::new(1000, 600),
        Position::new(50, 50),
    );
    let args = build_recording_command(4, true, false, false, false, &geometry, "out.mp4");
    let expected: Vec<&str> = vec![
        "-threads", "4", "-f", "x11grab", "-r", "60", "-s", "1920x1080", "-i", ":0", "-f",
        "pulse", "-ac", "2", "-i", "default", "-vcodec", "libx264", "-preset", "veryfast",
        "-pix_fmt", "yuv420p", "-crf", "18", "-vf",
        "crop=1000:600:50:50,pad=1280:720:(ow-iw)/2:(oh-ih)/2", "-an", "out.mp4",
    ];
    assert_eq!(args, expected);
}

#[test]
fn rtmp_scheme_selects_streaming_mode() {
    assert!(is_rtmp_url("rtmp://live/stream"));
    assert!(is_rtmp_url("rtmp://"));
    assert!(!is_rtmp_url("rtmps://live/stream"));
    assert!(!is_rtmp_url("rtmp:/"));
    assert!(!is_rtmp_url("/videos/rtmp://x"));
    assert!(!is_rtmp_url("out.mp4"));
}

#[test]
fn given_output_target_is_kept_verbatim() {
    let t = resolve_output(Some(String::from("rtmp://live/stream")));
    assert!(t.rtmp);
    assert_eq!(t.path, "rtmp://live/stream");
    let t = resolve_output(Some(String::from("/tmp/video.mp4")));
    assert!(!t.rtmp);
    assert_eq!(t.path, "/tmp/video.mp4");
}

#[test]
fn default_output_target_is_a_timestamped_mp4_file() {
    let t = resolve_output(None);
    assert!(!t.rtmp);
    assert!(t.path.ends_with(".mp4"));
    assert!(t.path.len() > 4);
}

#[test]
fn exit_code_one_removes_the_output() {
    assert_eq!(output_disposition(Some(1)), OutputDisposition::RemoveOutput);
    assert_eq!(output_disposition(Some(0)), OutputDisposition::KeepOutput);
    assert_eq!(output_disposition(Some(2)), OutputDisposition::KeepOutput);
    assert_eq!(output_disposition(None), OutputDisposition::AbortRun);
}

#[test]
fn encoder_diagnostic_names_the_binary() {
    let m = encoder_unavailable_message("/usr/bin/ffmpeg");
    assert_eq!(m, "Cannot execute \"/usr/bin/ffmpeg\".");
    assert!(m.contains("/usr/bin/ffmpeg"));
}

#[test]
fn thread_count_is_half_the_processors_but_at_least_one() {
    assert_eq!(recording_threads(0), 1);
    assert_eq!(recording_threads(1), 1);
    assert_eq!(recording_threads(2), 1);
    assert_eq!(recording_threads(3), 1);
    assert_eq!(recording_threads(4), 2);
    assert_eq!(recording_threads(16), 8);
    assert!(recording_threads(get_number_of_processors()) >= 1);
}
