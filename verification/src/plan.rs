//! What one conversion run performs: the `ffmpeg` argument lists, the
//! bookkeeping around the output directory and a stale output file,
//! and the reading of what the probe and the conversion reported.
//!
//! The shell gathers the filesystem facts (does the output directory
//! exist, is its name taken by a file, does the output file already
//! exist), asks here for a [`ConversionPlan`], and then performs it:
//! create the directory if asked, remove the stale file if asked, and
//! run `ffmpeg` with the given arguments.

use vstd::prelude::*;
use crate::format::Format;
use crate::paths::{spec_dst_path, dst_path, output_dir};

verus! {

/// The arguments handed to `ffmpeg` for one conversion: the source
/// file, for MP4 a scale filter that rounds both sides down to an
/// even size, and the output file.
pub open spec fn spec_ffmpeg_args(src: Seq<char>, dst: Seq<char>, fmt: Format) -> Seq<Seq<char>> {
    match fmt {
        Format::Mp4 => seq![
            "-i"@,
            src,
            "-vf"@,
            "scale=trunc(iw/2)*2:trunc(ih/2)*2"@,
            dst,
        ],
        Format::Gif => seq!["-i"@, src, dst],
    }
}

/// Builds the argument list handed to `ffmpeg` to convert the file at
/// `src` into the file at `dst`.
pub fn ffmpeg_args(src: &str, dst: &str, fmt: Format) -> (r: Vec<String>)
    ensures
        r.deep_view() == spec_ffmpeg_args(src@, dst@, fmt),
{
    let mut r: Vec<String> = Vec::new();
    r.push(String::from_str("-i"));
    r.push(String::from_str(src));
    match fmt {
        Format::Mp4 => {
            r.push(String::from_str("-vf"));
            r.push(String::from_str("scale=trunc(iw/2)*2:trunc(ih/2)*2"));
            r.push(String::from_str(dst));
        },
        Format::Gif => {
            r.push(String::from_str(dst));
        },
    }
    proof {
        assert(r.deep_view() =~= spec_ffmpeg_args(src@, dst@, fmt));
    }
    r
}

/// The argument handed to `ffmpeg` to probe whether it answers.
pub fn probe_arg() -> (r: String)
    ensures
        r@ == "-version"@,
{
    String::from_str("-version")
}

/// Everything one conversion run needs from the shell.
pub struct ConversionPlan {
    /// Create the output directory first.
    pub create_dir: bool,
    /// Remove an output file left from an earlier run first.
    pub remove_existing: bool,
    /// The output directory.
    pub dir: String,
    /// The output file's path.
    pub dst: String,
    /// The arguments to run `ffmpeg` with.
    pub args: Vec<String>,
}

/// Lays out one conversion run from the source path, the chosen
/// format, and the filesystem facts the shell gathered: `dir_is_file`
/// and `dir_is_dir` say what the output directory's name points at,
/// and `dst_is_file` whether the output file already exists.  A run
/// whose directory name is taken by a regular file is refused.
pub fn plan_conversion(
    src: &str,
    fmt: Format,
    dir_is_file: bool,
    dir_is_dir: bool,
    dst_is_file: bool,
) -> (p: ConversionPlan)
    requires
        !dir_is_file,
    ensures
        p.create_dir == !dir_is_dir,
        p.remove_existing == dst_is_file,
        p.dir@ == "./test/dist"@,
        p.dst@ == spec_dst_path(src@, fmt),
        p.args.deep_view() == spec_ffmpeg_args(src@, spec_dst_path(src@, fmt), fmt),
{
    let dst = dst_path(src, fmt);
    let args = ffmpeg_args(src, dst.as_str(), fmt);
    ConversionPlan {
        create_dir: !dir_is_dir,
        remove_existing: dst_is_file,
        dir: output_dir(),
        dst,
        args,
    }
}

/// Whether the probe for `ffmpeg` counts as found: the command ran at
/// all, and it exited successfully.
pub fn probe_found(ran: bool, exit_success: bool) -> (r: bool)
    ensures
        r == (ran && exit_success),
{
    ran && exit_success
}

/// Which of the two output streams of the finished `ffmpeg` process
/// is reported: its standard output when it succeeded, its standard
/// error otherwise.
pub fn report_stream(exit_success: bool, stdout: Vec<u8>, stderr: Vec<u8>) -> (r: Vec<u8>)
    ensures
        exit_success ==> r@ == stdout@,
        !exit_success ==> r@ == stderr@,
{
    if exit_success {
        stdout
    } else {
        stderr
    }
}

} // verus!
