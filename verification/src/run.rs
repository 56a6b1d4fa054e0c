//! A run of the program, as far as it is decided without reading a file or
//! starting a process: from the arguments to the request, and from the
//! request to what is to be started.

use crate::command::InvocationView;
use crate::config::{Config, ConfigView, CookieFile};
use crate::error::{Error, ErrorView};
use crate::handler::{Plan, PlanView};
use crate::plugins::Plugins;
use crate::protocol::{payload_end, spec_header, spec_parse, Protocol, ProtocolView};
use crate::text::views;
use vstd::prelude::*;

verus! {

/// What the arguments of the program ask for: the program's name alone
/// asks for nothing but the usage, one more argument is the link, and more
/// than that is an error.
pub open spec fn spec_run(args: Seq<Seq<char>>) -> Result<Option<ProtocolView>, ErrorView> {
    if args.len() == 2 {
        match spec_parse(args[1]) {
            Ok(p) => Ok(Some(p)),
            Err(e) => Err(e),
        }
    } else if args.len() == 1 {
        Ok(None)
    } else {
        Err(ErrorView::TooManyArgs)
    }
}

/// Begins a run: parses the link among the arguments of the program, of
/// which the first is the program's name. Without a link there is no
/// request, and the caller prints the usage.
///
/// A link that is refused ends the run here, before the caller has read
/// the settings or started anything.
pub fn run<'a>(args: &'a Vec<String>) -> (r: Result<Option<Protocol<'a>>, Error>)
    ensures
        match r {
            Ok(Some(p)) => spec_run(views(args@)) == Ok::<_, ErrorView>(Some(p@)),
            Ok(None) => spec_run(views(args@)) == Ok::<Option<ProtocolView>, ErrorView>(None),
            Err(e) => spec_run(views(args@)) == Err::<Option<ProtocolView>, _>(e@),
        },
{
    if args.len() == 2 {
        assert(views(args@)[1] == args@[1]@);
        match Protocol::parse(args[1].as_str()) {
            Ok(p) => Ok(Some(p)),
            Err(e) => Err(e),
        }
    } else if args.len() == 1 {
        Ok(None)
    } else {
        Err(Error::TooManyArgs)
    }
}

/// A link whose payload is empty ends the run with the error of the
/// missing payload, whatever else the link holds: nothing of it is decoded
/// and no plugin is called.
pub proof fn lemma_empty_payload_ends_the_run(args: Seq<Seq<char>>)
    requires
        args.len() == 2,
        spec_header(args[1]) is Ok,
        payload_end(args[1], spec_header(args[1])->Ok_0.2) == spec_header(args[1])->Ok_0.2,
    ensures
        spec_run(args) == Err::<Option<ProtocolView>, _>(ErrorView::MissingPayload),
{
}

/// What the plugins need beside the settings: the binaries to run where
/// the settings name none, and where temporary files go.
#[derive(Debug)]
pub struct Tools {
    /// The mpv binary where the settings name none.
    pub default_mpv: String,
    /// The yt-dlp binary where the settings name none.
    pub default_ytdl: String,
    /// The streamlink binary.
    pub streamlink: String,
    /// The configuration file of streamlink; empty for none.
    pub stream_conf: String,
    /// The directory for temporary files.
    pub temp_dir: String,
    /// Whether the processes get no console window.
    pub hide_log: bool,
}

/// The mathematical value of [`Tools`].
pub ghost struct ToolsView {
    pub default_mpv: Seq<char>,
    pub default_ytdl: Seq<char>,
    pub streamlink: Seq<char>,
    pub stream_conf: Seq<char>,
    pub temp_dir: Seq<char>,
    pub hide_log: bool,
}

impl View for Tools {
    type V = ToolsView;

    open spec fn view(&self) -> ToolsView {
        ToolsView {
            default_mpv: self.default_mpv@,
            default_ytdl: self.default_ytdl@,
            streamlink: self.streamlink@,
            stream_conf: self.stream_conf@,
            temp_dir: self.temp_dir@,
            hide_log: self.hide_log,
        }
    }
}

/// The binary of the settings, or `default` where they name none.
pub open spec fn binary(configured: Option<Seq<char>>, default: Seq<char>) -> Seq<char> {
    match configured {
        Some(v) => v,
        None => default,
    }
}

/// What the plugin of a request starts: `play` starts mpv, `stream`
/// starts streamlink, and `pipe` starts yt-dlp and mpv with a pipe
/// between them.
pub open spec fn spec_plan(
    proto: ProtocolView,
    config: ConfigView,
    file: Option<&CookieFile>,
    tools: ToolsView,
) -> PlanView {
    match proto.plugin {
        Plugins::Play => PlanView::Run(
            crate::plugins::play::spec_exec(proto, config, file, tools.default_mpv),
        ),
        Plugins::Stream => PlanView::Run(
            crate::plugins::stream::spec_exec(
                proto,
                tools.streamlink,
                tools.stream_conf,
                tools.hide_log,
            ),
        ),
        Plugins::Pipe => {
            let both: (InvocationView, InvocationView) = crate::plugins::pipe::spec_exec(
                proto,
                binary(config.ytdl, tools.default_ytdl),
                binary(config.mpv, tools.default_mpv),
                tools.temp_dir,
                tools.hide_log,
            );
            PlanView::Pipe(both.0, both.1)
        },
    }
}

/// Calls the plugin of a request, which says what is to be started.
///
/// `file` is the cookies file that the request names, as the caller found
/// it.
pub fn plan(proto: &Protocol, config: &Config, file: Option<&CookieFile>, tools: &Tools) -> (r:
    Plan)
    ensures
        r@ == spec_plan(proto@, config@, file, tools@),
{
    match proto.plugin {
        Plugins::Play => Plan::Run(
            crate::plugins::play::exec(proto, config, file, tools.default_mpv.as_str()),
        ),
        Plugins::Stream => Plan::Run(
            crate::plugins::stream::exec(
                proto,
                tools.streamlink.as_str(),
                tools.stream_conf.as_str(),
                tools.hide_log,
            ),
        ),
        Plugins::Pipe => {
            let ytdl: &str = match &config.ytdl {
                Some(v) => v.as_str(),
                None => tools.default_ytdl.as_str(),
            };
            let mpv: &str = match &config.mpv {
                Some(v) => v.as_str(),
                None => tools.default_mpv.as_str(),
            };
            let (downloader, player) = crate::plugins::pipe::exec(
                proto,
                ytdl,
                mpv,
                tools.temp_dir.as_str(),
                tools.hide_log,
            );
            Plan::Pipe(downloader, player)
        },
    }
}

} // verus!
