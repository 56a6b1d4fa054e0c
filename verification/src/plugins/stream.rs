//! The plugin `stream`: streamlink fetches a live stream and starts the
//! player itself.

use crate::command::{
    optional, pair_views, prefixed, push_optional, Invocation, InvocationView,
};
use crate::protocol::{Protocol, ProtocolView};
use crate::text::{
    halve_backslashes, joined, lemma_views_push, same_text, single_backslashes, slice_view,
    views,
};
use vstd::prelude::*;
use vstd::string::StringExecFns;

verus! {

pub const PREFIX_CONFIG: &'static str = "--config=";

pub const PREFIX_REFERER: &'static str = "--http-header=Referer=";

pub const PREFIX_QUALITY: &'static str = "--default-stream=";

/// The streams that streamlink is to try for a quality label, in the order
/// of preference. A request without quality, or with a label that the
/// plugin does not know, gets the best stream.
pub open spec fn spec_streams(label: Option<Seq<char>>) -> Seq<char> {
    match label {
        Some(l) => if l == "1080p"@ {
            "1080p60,1080p,best"@
        } else if l == "720p"@ {
            "720p60,720p,best"@
        } else if l == "480p"@ {
            "480p"@
        } else if l == "360p"@ {
            "360p"@
        } else if l == "worst"@ {
            "worst"@
        } else {
            "best"@
        },
        None => "best"@,
    }
}

/// The options of streamlink: its configuration file where one is named,
/// the referer, and the streams to try.
pub open spec fn spec_options(proto: ProtocolView, stream_conf: Seq<char>) -> Seq<Seq<char>> {
    optional(
        if stream_conf.len() > 0 {
            Some(PREFIX_CONFIG@ + halve_backslashes(stream_conf))
        } else {
            None
        },
    ) + prefixed(PREFIX_REFERER@, proto.referrer) + seq![
        PREFIX_QUALITY@ + spec_streams(proto.quality),
    ]
}

/// How streamlink is started for a request: its options, then the URL.
pub open spec fn spec_exec(
    proto: ProtocolView,
    streamlink: Seq<char>,
    stream_conf: Seq<char>,
    hide_log: bool,
) -> InvocationView {
    InvocationView {
        program: streamlink,
        args: spec_options(proto, stream_conf).push(proto.url),
        envs: Seq::empty(),
        env_remove: Seq::empty(),
        hide_console: hide_log,
        working_dir: None,
    }
}

/// Return streamlink config
pub fn stream_conf(value: &str) -> (r: String)
    ensures
        r@ == PREFIX_CONFIG@ + halve_backslashes(value@),
{
    let path = single_backslashes(value);
    joined(PREFIX_CONFIG, path.as_str())
}

/// Return referer option
pub fn referer(value: &str) -> (r: String)
    ensures
        r@ == PREFIX_REFERER@ + value@,
{
    joined(PREFIX_REFERER, value)
}

/// Return the option that names the streams to try
pub fn quality(value: &str) -> (r: String)
    ensures
        r@ == PREFIX_QUALITY@ + value@,
{
    joined(PREFIX_QUALITY, value)
}

/// The streams to try for a quality label.
pub fn streams(label: Option<&str>) -> (r: &'static str)
    ensures
        r@ == spec_streams(slice_view(label)),
{
    match label {
        Some(v) => {
            if same_text(v, "1080p") {
                "1080p60,1080p,best"
            } else if same_text(v, "720p") {
                "720p60,720p,best"
            } else if same_text(v, "480p") {
                "480p"
            } else if same_text(v, "360p") {
                "360p"
            } else if same_text(v, "worst") {
                "worst"
            } else {
                "best"
            }
        },
        None => "best",
    }
}

/// Puts together the options of streamlink for a request.
pub fn options(proto: &Protocol, conf: &str) -> (r: Vec<String>)
    ensures
        views(r@) == spec_options(proto@, conf@),
{
    let mut options: Vec<String> = Vec::new();

    // Append config option
    let option = if !conf.is_empty() {
        Some(stream_conf(conf))
    } else {
        None
    };
    push_optional(&mut options, option);

    // Append referer option
    let option = match &proto.referrer {
        Some(v) => Some(referer(v.as_str())),
        None => None,
    };
    push_optional(&mut options, option);

    // Append quality option
    let option = quality(streams(proto.quality));
    options.push(option);
    options
}

/// Says how streamlink is to be started for a request.
///
/// `streamlink` is the path of its binary and `conf` that of its
/// configuration file, empty for none; `hide_log` asks for no console
/// window.
pub fn exec(proto: &Protocol, streamlink: &str, conf: &str, hide_log: bool) -> (r: Invocation)
    ensures
        r@ == spec_exec(proto@, streamlink@, conf@, hide_log),
{
    let mut args = options(proto, conf);
    let url = proto.url.clone();
    proof {
        lemma_views_push(args@, url);
    }
    args.push(url);
    let envs: Vec<(String, String)> = Vec::new();
    let env_remove: Vec<String> = Vec::new();
    assert(pair_views(envs@) == Seq::<(Seq<char>, Seq<char>)>::empty());
    assert(views(env_remove@) == Seq::<Seq<char>>::empty());
    Invocation {
        program: String::from_str(streamlink),
        args,
        envs,
        env_remove,
        hide_console: hide_log,
        working_dir: None,
    }
}

} // verus!
