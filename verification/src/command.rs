//! Building launch specifications for the external transcoder.
//!
//! All orientation-specific flags live here, so the stream controller never
//! branches on orientation itself: it only rebuilds its process host from
//! the command this module returns.

use vstd::prelude::*;

use crate::stream::Orientation;

verus! {

/// A launch specification for an external child process: program, fixed
/// arguments, stdio redirected to null, and whether the child is killed
/// when its handle is dropped.
#[derive(Clone)]
pub struct CommandSpec {
    pub program: String,
    pub args: Vec<String>,
    pub null_stdio: bool,
    pub kill_on_drop: bool,
}

/// The rotation metadata argument for an orientation.
pub open spec fn rotate_arg(o: Orientation) -> Seq<char> {
    match o {
        Orientation::Landscape => "rotate=0"@,
        Orientation::Portrait => "rotate=90"@,
        Orientation::InvertedLandscape => "rotate=180"@,
        Orientation::InvertedPortrait => "rotate=270"@,
    }
}

/// The transcoder's argument list for an orientation, with the stream key
/// information file under `state_dir`.
pub open spec fn transcoder_args(o: Orientation, state_dir: Seq<char>) -> Seq<Seq<char>> {
    seq![
        "-hide_banner"@,
        "-loglevel"@,
        "error"@,
        "-f"@,
        "v4l2"@,
        "-input_format"@,
        "h264"@,
        "-video_size"@,
        "1280x720"@,
        "-i"@,
        "/dev/video0"@,
        "-c:v"@,
        "copy"@,
        "-c:a"@,
        "aac"@,
        "-metadata:s:v:0"@,
        rotate_arg(o),
        "-f"@,
        "hls"@,
        "-hls_flags"@,
        "delete_segments"@,
        "-hls_key_info_file"@,
        state_dir + "/stream.keyinfo"@,
        "/tmp/lunacam/hls/stream.m3u8"@,
    ]
}

/// Whether `c` is the transcoder launch specification for orientation `o`
/// and state directory `state_dir` (kill-on-drop aside, which the process
/// host forces on).
pub open spec fn is_transcoder_command(c: CommandSpec, o: Orientation, state_dir: Seq<char>) -> bool {
    &&& c.program@ == "ffmpeg"@
    &&& c.args.deep_view() == transcoder_args(o, state_dir)
    &&& c.null_stdio
}

/// The rotation metadata argument, as the transcoder takes it.
fn rotate_metadata(o: Orientation) -> (r: &'static str)
    ensures
        r@ == rotate_arg(o),
{
    match o {
        Orientation::Landscape => "rotate=0",
        Orientation::Portrait => "rotate=90",
        Orientation::InvertedLandscape => "rotate=180",
        Orientation::InvertedPortrait => "rotate=270",
    }
}

/// Builds the transcoder launch specification for `o`. The stream key
/// information file lives under `state_dir`.
pub fn build_command(o: Orientation, state_dir: &str) -> (c: CommandSpec)
    ensures
        is_transcoder_command(c, o, state_dir@),
        !c.kill_on_drop,
{
    let key_info_path = String::from_str(state_dir).concat("/stream.keyinfo");
    let args: Vec<String> = vec![
        String::from_str("-hide_banner"),
        String::from_str("-loglevel"),
        String::from_str("error"),
        String::from_str("-f"),
        String::from_str("v4l2"),
        String::from_str("-input_format"),
        String::from_str("h264"),
        String::from_str("-video_size"),
        String::from_str("1280x720"),
        String::from_str("-i"),
        String::from_str("/dev/video0"),
        String::from_str("-c:v"),
        String::from_str("copy"),
        String::from_str("-c:a"),
        String::from_str("aac"),
        String::from_str("-metadata:s:v:0"),
        String::from_str(rotate_metadata(o)),
        String::from_str("-f"),
        String::from_str("hls"),
        String::from_str("-hls_flags"),
        String::from_str("delete_segments"),
        String::from_str("-hls_key_info_file"),
        key_info_path,
        String::from_str("/tmp/lunacam/hls/stream.m3u8"),
    ];
    proof {
        assert(args.deep_view() =~~= transcoder_args(o, state_dir@));
    }
    CommandSpec { program: String::from_str("ffmpeg"), args, null_stdio: true, kill_on_drop: false }
}

/// The placeholder's argument list: a trivial shell loop that touches a
/// file under `state_dir` once a second.
pub open spec fn placeholder_args(state_dir: Seq<char>) -> Seq<Seq<char>> {
    seq![
        "-c"@,
        "while : ; do date > "@ + state_dir + "/time.txt; sleep 1; done"@,
    ]
}

/// Builds a trivial placeholder command, for exercising supervision on a
/// machine without a capture device.
pub fn build_placeholder_command(state_dir: &str) -> (c: CommandSpec)
    ensures
        c.program@ == "sh"@,
        c.args.deep_view() == placeholder_args(state_dir@),
        c.null_stdio,
        !c.kill_on_drop,
{
    let script = String::from_str("while : ; do date > ")
        .concat(state_dir)
        .concat("/time.txt; sleep 1; done");
    let args: Vec<String> = vec![String::from_str("-c"), script];
    proof {
        assert(args.deep_view() =~~= placeholder_args(state_dir@));
    }
    CommandSpec { program: String::from_str("sh"), args, null_stdio: true, kill_on_drop: false }
}

} // verus!
