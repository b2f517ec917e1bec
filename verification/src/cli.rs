use vstd::prelude::*;

verus! {

/// The options of one recording run, as the command line states them.
#[derive(Debug, Clone)]
pub struct CLIArgs {
    /// Record one interactively selected window instead of the screen.
    pub window: bool,
    /// Keep the captured audio instead of muting or dropping it.
    pub with_audio: bool,
    /// Size the canvas by raw padding instead of the standard ladder.
    pub no_normalize: bool,
    /// A file path or an RTMP URL; a timestamped file name when absent.
    pub output: Option<String>,
    /// The encoder binary to run.
    pub ffmpeg_path: String,
}

/// A target string selects streaming mode exactly when it starts with
/// the RTMP scheme.
pub open spec fn is_rtmp_target(s: Seq<char>) -> bool {
    s.len() >= 7 && s.subrange(0, 7) == "rtmp://"@
}

/// True when the output target is an RTMP URL.
pub fn is_rtmp_url(s: &str) -> (r: bool)
    ensures
        r == is_rtmp_target(s@),
{
    proof {
        reveal_strlit("rtmp://");
    }
    let n = s.unicode_len();
    if n < 7 {
        return false;
    }
    let head = s.substring_char(0, 7);
    let m = head.get_char(0) == 'r' && head.get_char(1) == 't' && head.get_char(2) == 'm'
        && head.get_char(3) == 'p' && head.get_char(4) == ':' && head.get_char(5) == '/'
        && head.get_char(6) == '/';
    proof {
        if m {
            assert(head@ =~= "rtmp://"@);
        } else {
            assert(head@ != "rtmp://"@);
        }
    }
    m
}

/// Relies on chrono's `Utc::now` and `DateTime::format`: each strftime
/// item of this fixed format always renders for a UTC date-time, and
/// the literal `.mp4` tail is written through verbatim, so the name
/// always ends in `.mp4`.
#[verifier::external_body]
fn default_output_name() -> (r: String)
    ensures
        r@.len() >= 4,
        r@.subrange(r@.len() - 4, r@.len() as int) == ".mp4"@,
{
    let utc: chrono::DateTime<chrono::Utc> = chrono::Utc::now();
    utc.format("%Y-%m-%d-%H-%M-%S.mp4").to_string()
}

/// Where one run's output goes: a stream or a file.
#[derive(Debug, Clone)]
pub struct OutputTarget {
    /// The output is streamed over RTMP rather than written to a file.
    pub rtmp: bool,
    /// The file path or URL handed to the encoder.
    pub path: String,
}

/// Decides the output target: a given string is kept and selects
/// streaming mode by its RTMP scheme; an absent one becomes a
/// timestamped `.mp4` file name in the working directory.
pub fn resolve_output(output: Option<String>) -> (r: OutputTarget)
    ensures
        match output {
            Some(t) => r.path@ == t@ && r.rtmp == is_rtmp_target(t@),
            None => !r.rtmp && r.path@.len() >= 4 && r.path@.subrange(
                r.path@.len() - 4,
                r.path@.len() as int,
            ) == ".mp4"@,
        },
{
    match output {
        Some(t) => {
            let rtmp = is_rtmp_url(t.as_str());
            OutputTarget { rtmp, path: t }
        },
        None => OutputTarget { rtmp: false, path: default_output_name() },
    }
}

} // verus!
