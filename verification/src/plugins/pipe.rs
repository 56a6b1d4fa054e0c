//! The plugin `pipe`: yt-dlp writes the media to its standard output, and
//! mpv plays what it reads from its standard input.
//!
//! The two are started as two processes, each with its own list of
//! arguments, and the system joins them by a pipe. No shell stands between
//! the request and the processes: the URL, the referrer and the profile
//! reach yt-dlp and mpv as whole arguments, whatever characters they hold.

use crate::command::{
    optional, pair_views, prefixed, push_optional, Invocation, InvocationView,
};
use crate::protocol::{Protocol, ProtocolView};
use crate::text::{
    decimal, halve_backslashes, joined, lemma_views_push, same_text, single_backslashes,
    spec_decimal, views,
};
use vstd::prelude::*;
use vstd::string::StringExecFns;

verus! {

pub const PREFIX_REFERER: &'static str = "--add-headers=Referer:";

pub const PREFIX_QUALITY: &'static str = "--format=";

pub const PREFIX_OUTPUT: &'static str = "--output=-";

pub const PREFIX_PROFILE: &'static str = "--profile=";

/// The height in pixels that a quality label stands for, where it is one
/// of the labels that the plugin knows.
pub open spec fn spec_height(label: Seq<char>) -> Option<i32> {
    if label == "2160p"@ {
        Some(2160i32)
    } else if label == "1440p"@ {
        Some(1440i32)
    } else if label == "1080p"@ {
        Some(1080i32)
    } else if label == "720p"@ {
        Some(720i32)
    } else if label == "480p"@ {
        Some(480i32)
    } else if label == "360p"@ {
        Some(360i32)
    } else {
        None
    }
}

/// The quality option: the best video up to the given height with the best
/// audio, else the best single file up to that height, else the best.
pub open spec fn spec_quality(height: int) -> Seq<char> {
    PREFIX_QUALITY@ + "bv*[height<="@ + spec_decimal(height) + "]+ba/b[height<="@ + spec_decimal(
        height,
    ) + "]/b"@
}

/// The options of yt-dlp: referer, quality for a label that is known, and
/// the output to the pipe.
pub open spec fn spec_ytdl_options(proto: ProtocolView) -> Seq<Seq<char>> {
    prefixed(PREFIX_REFERER@, proto.referrer) + optional(
        match proto.quality {
            Some(label) => match spec_height(label) {
                Some(h) => Some(spec_quality(h as int)),
                None => None,
            },
            None => None,
        },
    ) + seq![PREFIX_OUTPUT@]
}

/// The options of mpv: `-` for its standard input, then the profile.
pub open spec fn spec_mpv_options(proto: ProtocolView) -> Seq<Seq<char>> {
    seq!["-"@] + prefixed(PREFIX_PROFILE@, proto.profile)
}

/// One of the two processes: it runs in the directory for temporary files
/// and changes nothing in its environment.
pub open spec fn spec_process(
    program: Seq<char>,
    args: Seq<Seq<char>>,
    temp_dir: Seq<char>,
    hide_log: bool,
) -> InvocationView {
    InvocationView {
        program,
        args,
        envs: Seq::empty(),
        env_remove: Seq::empty(),
        hide_console: hide_log,
        working_dir: Some(temp_dir),
    }
}

/// How the two processes are started for a request: yt-dlp with its
/// options and the URL as its last argument, and mpv with its options.
pub open spec fn spec_exec(
    proto: ProtocolView,
    ytdl: Seq<char>,
    mpv: Seq<char>,
    temp_dir: Seq<char>,
    hide_log: bool,
) -> (InvocationView, InvocationView) {
    (
        spec_process(
            halve_backslashes(ytdl),
            spec_ytdl_options(proto).push(proto.url),
            temp_dir,
            hide_log,
        ),
        spec_process(halve_backslashes(mpv), spec_mpv_options(proto), temp_dir, hide_log),
    )
}

/// Get executable path
pub fn path(value: &str) -> (r: String)
    ensures
        r@ == halve_backslashes(value@),
{
    single_backslashes(value)
}

/// Return referer option
pub fn referer(value: &str) -> (r: String)
    ensures
        r@ == PREFIX_REFERER@ + value@,
{
    joined(PREFIX_REFERER, value)
}

/// Return quality option
pub fn quality(height: i32) -> (r: String)
    ensures
        r@ == spec_quality(height as int),
{
    let number = decimal(height);
    let mut out = joined(PREFIX_QUALITY, "bv*[height<=");
    out.append(number.as_str());
    out.append("]+ba/b[height<=");
    out.append(number.as_str());
    out.append("]/b");
    out
}

/// Return profile option
pub fn profile(value: &str) -> (r: String)
    ensures
        r@ == PREFIX_PROFILE@ + value@,
{
    joined(PREFIX_PROFILE, value)
}

/// The height that a quality label stands for.
pub fn height(label: &str) -> (r: Option<i32>)
    ensures
        r == spec_height(label@),
{
    if same_text(label, "2160p") {
        Some(2160)
    } else if same_text(label, "1440p") {
        Some(1440)
    } else if same_text(label, "1080p") {
        Some(1080)
    } else if same_text(label, "720p") {
        Some(720)
    } else if same_text(label, "480p") {
        Some(480)
    } else if same_text(label, "360p") {
        Some(360)
    } else {
        None
    }
}

/// Puts together the options of yt-dlp for a request.
pub fn ytdl_options(proto: &Protocol) -> (r: Vec<String>)
    ensures
        views(r@) == spec_ytdl_options(proto@),
{
    let mut options: Vec<String> = Vec::new();

    // Append referer option
    let option = match &proto.referrer {
        Some(v) => Some(referer(v.as_str())),
        None => None,
    };
    push_optional(&mut options, option);

    // Append quality option
    let option = match proto.quality {
        Some(v) => match height(v) {
            Some(h) => Some(quality(h)),
            None => None,
        },
        None => None,
    };
    push_optional(&mut options, option);

    // Append ytdl output option
    let output = String::from_str(PREFIX_OUTPUT);
    proof {
        lemma_views_push(options@, output);
    }
    options.push(output);
    options
}

/// Puts together the options of mpv for a request.
pub fn mpv_options(proto: &Protocol) -> (r: Vec<String>)
    ensures
        views(r@) == spec_mpv_options(proto@),
{
    let mut options: Vec<String> = Vec::new();
    let stdin = String::from_str("-");
    proof {
        lemma_views_push(options@, stdin);
    }
    options.push(stdin);

    // Append profile option
    let option = match proto.profile {
        Some(v) => Some(profile(v)),
        None => None,
    };
    push_optional(&mut options, option);
    options
}

/// One of the two processes.
fn process(program: String, args: Vec<String>, temp_dir: &str, hide_log: bool) -> (r: Invocation)
    ensures
        r@ == spec_process(program@, views(args@), temp_dir@, hide_log),
{
    let envs: Vec<(String, String)> = Vec::new();
    let env_remove: Vec<String> = Vec::new();
    assert(pair_views(envs@) == Seq::<(Seq<char>, Seq<char>)>::empty());
    assert(views(env_remove@) == Seq::<Seq<char>>::empty());
    Invocation {
        program,
        args,
        envs,
        env_remove,
        hide_console: hide_log,
        working_dir: Some(String::from_str(temp_dir)),
    }
}

/// Says how yt-dlp and mpv are to be started for a request: the first to
/// write to a pipe, the second to read from it.
///
/// `ytdl` and `mpv` are the paths of the two binaries, `temp_dir` is the
/// directory for temporary files, in which both run. `hide_log` asks for
/// no console window.
pub fn exec(proto: &Protocol, ytdl: &str, mpv: &str, temp_dir: &str, hide_log: bool) -> (r: (
    Invocation,
    Invocation,
))
    ensures
        (r.0@, r.1@) == spec_exec(proto@, ytdl@, mpv@, temp_dir@, hide_log),
{
    let mut args = ytdl_options(proto);
    let url = proto.url.clone();
    proof {
        lemma_views_push(args@, url);
    }
    args.push(url);
    let downloader = process(path(ytdl), args, temp_dir, hide_log);
    let player = process(path(mpv), mpv_options(proto), temp_dir, hide_log);
    (downloader, player)
}

} // verus!
