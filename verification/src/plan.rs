use vstd::prelude::*;

use crate::decimal::dec_int;
use crate::decimal::dec_nat;
use crate::decimal::i32_to_string;
use crate::decimal::u64_to_string;
use crate::position::Position;
use crate::resolution::Resolution;
use crate::resolution::is_ladder_size;
use crate::resolution::normalized_resolution;
use crate::resolution::pad_dimension;
use crate::resolution::padded8;
use crate::window_info::WindowInfo;

verus! {

/// The pad-only filter expression: the input is centered on a canvas
/// of `cw` by `ch`.
pub open spec fn pad_filter(cw: int, ch: int) -> Seq<char> {
    "pad="@ + dec_int(cw) + ":"@ + dec_int(ch) + ":(ow-iw)/2:(oh-ih)/2"@
}

/// The crop-then-pad filter expression: a `w` by `h` rectangle is cut
/// out at `(x, y)` and centered on a canvas of `cw` by `ch`.
pub open spec fn crop_pad_filter(w: int, h: int, x: int, y: int, cw: int, ch: int) -> Seq<char> {
    "crop="@ + dec_int(w) + ":"@ + dec_int(h) + ":"@ + dec_int(x) + ":"@ + dec_int(y) + ","@
        + pad_filter(cw, ch)
}

/// Builds the pad-only filter expression.
pub fn build_pad_filter(cw: i32, ch: i32) -> (r: String)
    ensures
        r@ == pad_filter(cw as int, ch as int),
{
    let mut s = String::from_str("pad=");
    s.append(i32_to_string(cw).as_str());
    s.append(":");
    s.append(i32_to_string(ch).as_str());
    s.append(":(ow-iw)/2:(oh-ih)/2");
    proof {
        assert(s@ =~= pad_filter(cw as int, ch as int));
    }
    s
}

/// Builds the crop-then-pad filter expression.
pub fn build_crop_pad_filter(w: i32, h: i32, x: i32, y: i32, cw: i32, ch: i32) -> (r: String)
    ensures
        r@ == crop_pad_filter(w as int, h as int, x as int, y as int, cw as int, ch as int),
{
    let mut s = String::from_str("crop=");
    s.append(i32_to_string(w).as_str());
    s.append(":");
    s.append(i32_to_string(h).as_str());
    s.append(":");
    s.append(i32_to_string(x).as_str());
    s.append(":");
    s.append(i32_to_string(y).as_str());
    s.append(",");
    s.append(build_pad_filter(cw, ch).as_str());
    proof {
        assert(s@ =~= crop_pad_filter(w as int, h as int, x as int, y as int, cw as int,
        ch as int));
    }
    s
}

/// The output canvas for a raw rectangle: the ladder size under the
/// normalize policy, each dimension rounded up to a multiple of 8
/// under the raw-pad policy.
pub open spec fn planned_canvas(raw: Resolution, normalize: bool) -> Resolution {
    if normalize {
        normalized_resolution(raw.width as int, raw.height as int)
    } else {
        Resolution {
            width: padded8(raw.width as int) as i32,
            height: padded8(raw.height as int) as i32,
        }
    }
}

/// The filter expression for a plan: crop-then-pad for a window
/// capture, pad only for a full-screen capture.
pub open spec fn planned_filter(
    raw: Resolution,
    pos: Position,
    canvas: Resolution,
    windowed: bool,
) -> Seq<char> {
    if windowed {
        crop_pad_filter(
            raw.width as int,
            raw.height as int,
            pos.x as int,
            pos.y as int,
            canvas.width as int,
            canvas.height as int,
        )
    } else {
        pad_filter(canvas.width as int, canvas.height as int)
    }
}

/// The instruction set for one encoder run: what to capture, where,
/// the output canvas, and the filter expression handed to the encoder.
#[derive(Debug, Clone)]
pub struct CapturePlan {
    pub source_rect: Resolution,
    pub source_position: Position,
    pub output_canvas: Resolution,
    pub filter_expression: String,
}

/// Plans one capture: picks the output canvas under the chosen sizing
/// policy and synthesizes the filter expression.
pub fn plan(raw_rect: Resolution, normalize: bool, is_windowed: bool, position: Position) -> (r:
    CapturePlan)
    requires
        raw_rect.wf(),
        !normalize ==> raw_rect.width + 7 <= i32::MAX && raw_rect.height + 7 <= i32::MAX,
    ensures
        r.source_rect == raw_rect,
        r.source_position == position,
        r.output_canvas == planned_canvas(raw_rect, normalize),
        r.filter_expression@ == planned_filter(raw_rect, position, r.output_canvas, is_windowed),
        normalize ==> is_ladder_size(r.output_canvas),
        !normalize ==> r.output_canvas.width % 8 == 0 && r.output_canvas.height % 8 == 0,
        r.output_canvas.wf(),
{
    let output_canvas = if normalize {
        raw_rect.get_normalized_resolution()
    } else {
        Resolution { width: pad_dimension(raw_rect.width), height: pad_dimension(raw_rect.height) }
    };
    let filter_expression = if is_windowed {
        build_crop_pad_filter(
            raw_rect.width,
            raw_rect.height,
            position.x,
            position.y,
            output_canvas.width,
            output_canvas.height,
        )
    } else {
        build_pad_filter(output_canvas.width, output_canvas.height)
    };
    CapturePlan { source_rect: raw_rect, source_position: position, output_canvas, filter_expression }
}

/// The capture frame rate: 30 for a stream target, 60 otherwise.
pub open spec fn frame_rate(rtmp: bool) -> int {
    if rtmp {
        30
    } else {
        60
    }
}

/// The video codec arguments: constant-rate-factor 25 for a stream
/// target, 18 for a file.
pub open spec fn video_args(rtmp: bool) -> Seq<Seq<char>> {
    seq![
        "-vcodec"@,
        "libx264"@,
        "-preset"@,
        "veryfast"@,
        "-pix_fmt"@,
        "yuv420p"@,
        "-crf"@,
        if rtmp {
            "25"@
        } else {
            "18"@
        },
    ]
}

/// The audio codec arguments: the capture is encoded except when a
/// muted file recording drops the audio stream entirely.
pub open spec fn audio_args(rtmp: bool, with_audio: bool) -> Seq<Seq<char>> {
    if !rtmp && !with_audio {
        seq!["-an"@]
    } else {
        seq!["-acodec"@, "libfdk_aac"@, "-vbr"@, "5"@, "-ar"@, "44100"@]
    }
}

/// A muted stream keeps its audio track but silences it.
pub open spec fn mute_args(rtmp: bool, with_audio: bool) -> Seq<Seq<char>> {
    if rtmp && !with_audio {
        seq!["-af"@, "volume=0"@]
    } else {
        Seq::empty()
    }
}

/// A stream target is wrapped in an FLV container.
pub open spec fn container_args(rtmp: bool) -> Seq<Seq<char>> {
    if rtmp {
        seq!["-f"@, "flv"@]
    } else {
        Seq::empty()
    }
}

/// The leading capture arguments: thread count, the grab source sized
/// to the screen, and the default audio source.
pub open spec fn capture_args(threads: nat, rtmp: bool, screen: Resolution) -> Seq<Seq<char>> {
    seq![
        "-threads"@,
        dec_nat(threads),
        "-f"@,
        "x11grab"@,
        "-r"@,
        dec_int(frame_rate(rtmp)),
        "-s"@,
        dec_int(screen.width as int) + "x"@ + dec_int(screen.height as int),
        "-i"@,
        ":0"@,
        "-f"@,
        "pulse"@,
        "-ac"@,
        "2"@,
        "-i"@,
        "default"@,
    ]
}

/// The whole ordered argument vector of one encoder invocation.
pub open spec fn encoder_args(
    threads: nat,
    rtmp: bool,
    with_audio: bool,
    screen: Resolution,
    filter: Seq<char>,
    output: Seq<char>,
) -> Seq<Seq<char>> {
    capture_args(threads, rtmp, screen) + video_args(rtmp) + seq!["-vf"@, filter] + audio_args(
        rtmp,
        with_audio,
    ) + mute_args(rtmp, with_audio) + container_args(rtmp) + seq![output]
}

/// Appends one literal argument.
fn push_arg(v: &mut Vec<String>, s: &str)
    ensures
        final(v).deep_view() == old(v).deep_view().push(s@),
{
    v.push(String::from_str(s));
    proof {
        assert(v.deep_view() =~= old(v).deep_view().push(s@));
    }
}

/// Appends one computed argument.
fn push_arg_string(v: &mut Vec<String>, s: String)
    ensures
        final(v).deep_view() == old(v).deep_view().push(s@),
{
    v.push(s);
    proof {
        assert(v.deep_view() =~= old(v).deep_view().push(s@));
    }
}

/// Builds the full encoder argument vector for one run.
pub fn build_encoder_args(
    threads: usize,
    rtmp: bool,
    with_audio: bool,
    screen: Resolution,
    filter: &str,
    output: &str,
) -> (r: Vec<String>)
    ensures
        r.deep_view() == encoder_args(threads as nat, rtmp, with_audio, screen, filter@, output@),
{
    let mut r: Vec<String> = Vec::new();
    push_arg(&mut r, "-threads");
    push_arg_string(&mut r, u64_to_string(threads as u64));
    push_arg(&mut r, "-f");
    push_arg(&mut r, "x11grab");
    push_arg(&mut r, "-r");
    let rate: i32 = if rtmp {
        30
    } else {
        60
    };
    push_arg_string(&mut r, i32_to_string(rate));
    push_arg(&mut r, "-s");
    let mut size = i32_to_string(screen.width);
    size.append("x");
    size.append(i32_to_string(screen.height).as_str());
    proof {
        assert(size@ =~= dec_int(screen.width as int) + "x"@ + dec_int(screen.height as int));
    }
    push_arg_string(&mut r, size);
    push_arg(&mut r, "-i");
    push_arg(&mut r, ":0");
    push_arg(&mut r, "-f");
    push_arg(&mut r, "pulse");
    push_arg(&mut r, "-ac");
    push_arg(&mut r, "2");
    push_arg(&mut r, "-i");
    push_arg(&mut r, "default");
    proof {
        assert(r.deep_view() =~= capture_args(threads as nat, rtmp, screen));
    }
    push_arg(&mut r, "-vcodec");
    push_arg(&mut r, "libx264");
    push_arg(&mut r, "-preset");
    push_arg(&mut r, "veryfast");
    push_arg(&mut r, "-pix_fmt");
    push_arg(&mut r, "yuv420p");
    push_arg(&mut r, "-crf");
    if rtmp {
        push_arg(&mut r, "25");
    } else {
        push_arg(&mut r, "18");
    }
    proof {
        assert(r.deep_view() =~= capture_args(threads as nat, rtmp, screen) + video_args(rtmp));
    }
    push_arg(&mut r, "-vf");
    push_arg(&mut r, filter);
    if !rtmp && !with_audio {
        push_arg(&mut r, "-an");
    } else {
        push_arg(&mut r, "-acodec");
        push_arg(&mut r, "libfdk_aac");
        push_arg(&mut r, "-vbr");
        push_arg(&mut r, "5");
        push_arg(&mut r, "-ar");
        push_arg(&mut r, "44100");
    }
    if rtmp && !with_audio {
        push_arg(&mut r, "-af");
        push_arg(&mut r, "volume=0");
    }
    if rtmp {
        push_arg(&mut r, "-f");
        push_arg(&mut r, "flv");
    }
    push_arg(&mut r, output);
    proof {
        assert(r.deep_view() =~= encoder_args(
            threads as nat,
            rtmp,
            with_audio,
            screen,
            filter@,
            output@,
        ));
    }
    r
}

/// The argument vector of a whole recording run over one geometry
/// snapshot: the plan's filter under the chosen policy, then the
/// encoder arguments.
pub open spec fn recording_command(
    threads: nat,
    window_mode: bool,
    with_audio: bool,
    no_normalize: bool,
    rtmp: bool,
    geometry: WindowInfo,
    output: Seq<char>,
) -> Seq<Seq<char>> {
    let canvas = planned_canvas(geometry.resolution, !no_normalize);
    let filter = planned_filter(geometry.resolution, geometry.position, canvas, window_mode);
    encoder_args(threads, rtmp, with_audio, geometry.screen, filter, output)
}

/// Plans the capture for one geometry snapshot and builds the full
/// encoder argument vector for it.
pub fn build_recording_command(
    threads: usize,
    window_mode: bool,
    with_audio: bool,
    no_normalize: bool,
    rtmp: bool,
    geometry: &WindowInfo,
    output: &str,
) -> (r: Vec<String>)
    requires
        geometry.wf(),
        no_normalize ==> geometry.resolution.width + 7 <= i32::MAX && geometry.resolution.height
            + 7 <= i32::MAX,
    ensures
        r.deep_view() == recording_command(
            threads as nat,
            window_mode,
            with_audio,
            no_normalize,
            rtmp,
            *geometry,
            output@,
        ),
{
    let p = plan(geometry.resolution, !no_normalize, window_mode, geometry.position);
    build_encoder_args(
        threads,
        rtmp,
        with_audio,
        geometry.screen,
        p.filter_expression.as_str(),
        output,
    )
}

/// What becomes of the output file once the encoder has ended.
#[derive(Debug, Clone, Copy, PartialEq, Eq, Structural)]
pub enum OutputDisposition {
    /// The encoder exited with status 1: remove the partial file.
    RemoveOutput,
    /// The encoder exited with any other status: keep the file.
    KeepOutput,
    /// The encoder was ended by a signal: fail the run.
    AbortRun,
}

/// Decides the post-run step from the encoder's reported exit code.
pub fn output_disposition(exit_code: Option<i32>) -> (r: OutputDisposition)
    ensures
        r == match exit_code {
            Some(c) => if c == 1 {
                OutputDisposition::RemoveOutput
            } else {
                OutputDisposition::KeepOutput
            },
            None => OutputDisposition::AbortRun,
        },
{
    match exit_code {
        Some(c) => if c == 1 {
            OutputDisposition::RemoveOutput
        } else {
            OutputDisposition::KeepOutput
        },
        None => OutputDisposition::AbortRun,
    }
}

/// The number of encoder threads for a machine with `cpus` logical
/// processors: half of them, but at least one.
pub fn recording_threads(cpus: usize) -> (r: usize)
    ensures
        r as int == if cpus / 2 >= 1 {
            cpus as int / 2
        } else {
            1int
        },
        1 <= r,
{
    let half = cpus / 2;
    if half >= 1 {
        half
    } else {
        1
    }
}

} // verus!
