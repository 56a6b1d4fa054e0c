//! The handler: one request, the settings and the downloader that serves it.

use crate::command::{
    proxy_envs, proxy_variables, push_all, removed_envs, removed_variables, Invocation,
    InvocationView,
};
use crate::compose::{compose, spec_compose};
use crate::config::{Config, ConfigView, CookieFile, DownloaderProfile, DownloaderView, PlayMode};
use crate::error::{Error, ErrorView};
use crate::orchestrate::{next, spec_next, Action, Event, Stage};
use crate::protocol::{spec_parse, Protocol, ProtocolView, Schemes};
use crate::text::{join, join_strings, lemma_views_push, views};
use vstd::prelude::*;
use vstd::string::StringExecFns;

verus! {


/// Why the handler could not prepare or finish a run.
#[derive(Debug)]
pub enum HandlerError {
    /// The link was refused.
    Protocol(Error),
    /// No argument is given.
    NoArg,
    /// Too many arguments are given.
    TooManyArgs,
    /// The settings know no downloader of this name.
    UnknownDownloader(String),
    /// The binary path of the named downloader is empty.
    EmptyBinary(String),
    /// The binary path of the player is empty.
    EmptyPlayer,
    /// The named cookies file is missing and the downloader insists on it.
    CookiesNotFound(String),
    /// The downloader's quality table has no entry for this label.
    UnknownQuality(String),
    /// The downloader's quality table has an empty entry for this label.
    EmptyQualityValue(String),
    /// The named downloader requires a quality and the request has none.
    QualityRequired(String),
    /// Downloader or player ran and reported failure: the exit code, or
    /// nothing where a signal ended the process.
    DownloaderExited(Option<u8>),
    /// The named downloader could not be started; holds the reason too.
    FailedRunDownloader(String, String),
    /// The player could not be started; holds the reason.
    FailedRunPlayer(String),
    /// An event was reported that the run was not waiting for.
    UnexpectedEvent,
}

/// The mathematical value of a [`HandlerError`].
pub ghost enum HandlerErrorView {
    Protocol(ErrorView),
    NoArg,
    TooManyArgs,
    UnknownDownloader(Seq<char>),
    EmptyBinary(Seq<char>),
    EmptyPlayer,
    CookiesNotFound(Seq<char>),
    UnknownQuality(Seq<char>),
    EmptyQualityValue(Seq<char>),
    QualityRequired(Seq<char>),
    DownloaderExited(Option<u8>),
    FailedRunDownloader(Seq<char>, Seq<char>),
    FailedRunPlayer(Seq<char>),
    UnexpectedEvent,
}

impl View for HandlerError {
    type V = HandlerErrorView;

    open spec fn view(&self) -> HandlerErrorView {
        match self {
            HandlerError::Protocol(e) => HandlerErrorView::Protocol(e@),
            HandlerError::NoArg => HandlerErrorView::NoArg,
            HandlerError::TooManyArgs => HandlerErrorView::TooManyArgs,
            HandlerError::UnknownDownloader(s) => HandlerErrorView::UnknownDownloader(s@),
            HandlerError::EmptyBinary(s) => HandlerErrorView::EmptyBinary(s@),
            HandlerError::EmptyPlayer => HandlerErrorView::EmptyPlayer,
            HandlerError::CookiesNotFound(s) => HandlerErrorView::CookiesNotFound(s@),
            HandlerError::UnknownQuality(s) => HandlerErrorView::UnknownQuality(s@),
            HandlerError::EmptyQualityValue(s) => HandlerErrorView::EmptyQualityValue(s@),
            HandlerError::QualityRequired(s) => HandlerErrorView::QualityRequired(s@),
            HandlerError::DownloaderExited(c) => HandlerErrorView::DownloaderExited(*c),
            HandlerError::FailedRunDownloader(n, r) => HandlerErrorView::FailedRunDownloader(
                n@,
                r@,
            ),
            HandlerError::FailedRunPlayer(s) => HandlerErrorView::FailedRunPlayer(s@),
            HandlerError::UnexpectedEvent => HandlerErrorView::UnexpectedEvent,
        }
    }
}

/// What to run for a request.
#[derive(Debug)]
pub enum Plan {
    /// One process: the downloader, which plays by itself or starts the
    /// player. Its exit status is the result.
    Run(Invocation),
    /// Two processes: the downloader, whose standard output is a pipe, and
    /// the player, which reads that pipe as its standard input. The exit
    /// status of the player is the result.
    Pipe(Invocation, Invocation),
}

/// The mathematical value of a [`Plan`].
pub ghost enum PlanView {
    Run(InvocationView),
    Pipe(InvocationView, InvocationView),
}

impl View for Plan {
    type V = PlanView;

    open spec fn view(&self) -> PlanView {
        match self {
            Plan::Run(d) => PlanView::Run(d@),
            Plan::Pipe(d, p) => PlanView::Pipe(d@, p@),
        }
    }
}

/// The exit code that an error hands on to the caller of the program:
/// that of the process that decided the result, where it had one.
pub open spec fn spec_exit_code(e: HandlerErrorView) -> Option<u8> {
    match e {
        HandlerErrorView::DownloaderExited(code) => code,
        HandlerErrorView::Protocol(e) => crate::error::spec_exit_code(e),
        _ => None,
    }
}

impl HandlerError {
    /// The exit code of the process that decided the result, where the
    /// error is its failure and it ended with a code. The program ends with
    /// the same code.
    pub fn exit_code(&self) -> (r: Option<u8>)
        ensures
            r == spec_exit_code(self@),
    {
        match self {
            HandlerError::DownloaderExited(code) => *code,
            HandlerError::Protocol(e) => e.exit_code(),
            _ => None,
        }
    }
}

/// The value of a result that holds a plan.
pub open spec fn plan_result_view(r: Result<Plan, HandlerError>) -> Result<
    PlanView,
    HandlerErrorView,
> {
    match r {
        Ok(plan) => Ok(plan@),
        Err(e) => Err(e@),
    }
}

/// A process of the handler: the program and its arguments, in the
/// environment that the settings ask for, and without a console window
/// unless the link asks for debugging.
pub open spec fn spec_invocation(
    p: ProtocolView,
    c: ConfigView,
    program: Seq<char>,
    args: Seq<Seq<char>>,
) -> InvocationView {
    InvocationView {
        program,
        args,
        envs: proxy_envs(c.proxy),
        env_remove: removed_envs(),
        hide_console: p.scheme == Schemes::MpvHandler,
        working_dir: None,
    }
}

/// The plan of the mode `Direct`: the downloader alone, with its options
/// and the URL.
pub open spec fn spec_play_direct(
    p: ProtocolView,
    c: ConfigView,
    bin: Seq<char>,
    options: Seq<Seq<char>>,
) -> PlanView {
    PlanView::Run(spec_invocation(p, c, bin, options.push(p.url)))
}

/// The plan of the mode `Normal`: the downloader with its options, then
/// the player with the player's options as one argument, then the URL.
pub open spec fn spec_play(
    p: ProtocolView,
    c: ConfigView,
    bin: Seq<char>,
    player: Seq<char>,
    options: Seq<Seq<char>>,
    player_options: Seq<Seq<char>>,
) -> PlanView {
    PlanView::Run(
        spec_invocation(
            p,
            c,
            bin,
            options.push(join(seq![player] + player_options, " "@)).push(p.url),
        ),
    )
}

/// The plan of the mode `Pipe`: the downloader with its options and the
/// URL, and the player with its options and `-` for its standard input.
pub open spec fn spec_play_pipe(
    p: ProtocolView,
    c: ConfigView,
    bin: Seq<char>,
    player: Seq<char>,
    options: Seq<Seq<char>>,
    player_options: Seq<Seq<char>>,
) -> PlanView {
    PlanView::Pipe(
        spec_invocation(p, c, bin, options.push(p.url)),
        spec_invocation(p, c, player, player_options.push("-"@)),
    )
}

/// The player's binary: that of the settings, or `default_mpv` where they
/// name none.
pub open spec fn spec_player(c: ConfigView, default_mpv: Seq<char>) -> Seq<char> {
    match c.mpv {
        Some(v) => v,
        None => default_mpv,
    }
}

/// The plan for a request: the arguments are composed, the binaries of
/// downloader and player must be named, and the play mode decides how the
/// two are chained.
pub open spec fn spec_run(
    p: ProtocolView,
    c: ConfigView,
    d: DownloaderView,
    file: Option<&CookieFile>,
    default_mpv: Seq<char>,
) -> Result<PlanView, HandlerErrorView> {
    match spec_compose(p, d, file) {
        Ok(options) => if d.binary_path.len() == 0 {
            Err(HandlerErrorView::EmptyBinary(d.name))
        } else if spec_player(c, default_mpv).len() == 0 {
            Err(HandlerErrorView::EmptyPlayer)
        } else {
            let player = spec_player(c, default_mpv);
            Ok(
                match d.play_mode {
                    PlayMode::Direct => spec_play_direct(p, c, d.binary_path, options),
                    PlayMode::Normal => spec_play(
                        p,
                        c,
                        d.binary_path,
                        player,
                        options,
                        d.player_options,
                    ),
                    PlayMode::Pipe => spec_play_pipe(
                        p,
                        c,
                        d.binary_path,
                        player,
                        options,
                        d.player_options,
                    ),
                },
            )
        },
        Err(e) => Err(e),
    }
}

/// The handler of one request.
#[derive(Debug)]
pub struct Handler<'a> {
    protocol: Protocol<'a>,
    config: Config,
    downloader: DownloaderProfile,
}

/// The mathematical value of a [`Handler`].
pub ghost struct HandlerView {
    pub protocol: ProtocolView,
    pub config: ConfigView,
    pub downloader: DownloaderView,
}

impl<'a> View for Handler<'a> {
    type V = HandlerView;

    closed spec fn view(&self) -> HandlerView {
        HandlerView {
            protocol: self.protocol@,
            config: self.config@,
            downloader: self.downloader@,
        }
    }
}

/// The handler that the arguments of the program ask for: the program's
/// name and one link.
pub open spec fn spec_new(
    args: Seq<Seq<char>>,
    config: ConfigView,
    downloader: DownloaderView,
) -> Result<HandlerView, HandlerErrorView> {
    if args.len() == 2 {
        match spec_parse(args[1]) {
            Ok(protocol) => Ok(HandlerView { protocol, config, downloader }),
            Err(e) => Err(HandlerErrorView::Protocol(e)),
        }
    } else if args.len() == 1 {
        Err(HandlerErrorView::NoArg)
    } else {
        Err(HandlerErrorView::TooManyArgs)
    }
}

impl<'a> Handler<'a> {
    /// Makes the handler of the link that the arguments of the program
    /// hold, with the settings and the downloader that the caller has read.
    pub fn new(args: &'a Vec<String>, config: Config, downloader: DownloaderProfile) -> (r: Result<
        Handler<'a>,
        HandlerError,
    >)
        ensures
            match r {
                Ok(h) => spec_new(views(args@), config@, downloader@) == Ok::<_, HandlerErrorView>(
                    h@,
                ),
                Err(e) => spec_new(views(args@), config@, downloader@) == Err::<HandlerView, _>(
                    e@,
                ),
            },
    {
        if args.len() == 2 {
            match Protocol::parse(args[1].as_str()) {
                Ok(protocol) => Ok(Handler { protocol, config, downloader }),
                Err(e) => Err(HandlerError::Protocol(e)),
            }
        } else if args.len() == 1 {
            Err(HandlerError::NoArg)
        } else {
            Err(HandlerError::TooManyArgs)
        }
    }

    /// The request of this handler.
    pub fn protocol(&self) -> (p: &Protocol<'a>)
        ensures
            p@ == self@.protocol,
    {
        &self.protocol
    }

    /// Prepares the arguments and says what to run.
    ///
    /// `file` is the cookies file that the request names, as the caller
    /// found it; `default_mpv` is the player where the settings name none.
    pub fn run(&self, file: Option<&CookieFile>, default_mpv: &str) -> (r: Result<
        Plan,
        HandlerError,
    >)
        ensures
            plan_result_view(r) == spec_run(
                self@.protocol,
                self@.config,
                self@.downloader,
                file,
                default_mpv@,
            ),
    {
        let downloader_options = match compose(&self.protocol, &self.downloader, file) {
            Ok(options) => options,
            Err(e) => {
                return Err(e);
            },
        };

        // Choose downloader play mode
        let bin = match self.downloader.bin() {
            Ok(bin) => bin,
            Err(e) => {
                return Err(e);
            },
        };
        let player: &str = match &self.config.mpv {
            Some(v) => v.as_str(),
            None => default_mpv,
        };
        if player.is_empty() {
            return Err(HandlerError::EmptyPlayer);
        }
        let player_options = &self.downloader.player_options;

        Ok(
            match self.downloader.play_mode {
                PlayMode::Direct => self.play_direct(bin.as_str(), downloader_options),
                PlayMode::Normal => self.play(
                    bin.as_str(),
                    player,
                    downloader_options,
                    player_options,
                ),
                PlayMode::Pipe => self.play_pipe(
                    bin.as_str(),
                    player,
                    downloader_options,
                    player_options,
                ),
            },
        )
    }

    /// One process of this handler.
    fn invocation(&self, program: &str, args: Vec<String>) -> (r: Invocation)
        ensures
            r@ == spec_invocation(self@.protocol, self@.config, program@, views(args@)),
    {
        Invocation {
            program: String::from_str(program),
            args,
            envs: proxy_variables(&self.config.proxy),
            env_remove: removed_variables(),
            hide_console: match self.protocol.scheme {
                Schemes::MpvHandler => true,
                Schemes::MpvHandlerDebug => false,
            },
            working_dir: None,
        }
    }

    /// Run downloader directly (mpv has ytdl-hooks)
    pub fn play_direct(&self, bin: &str, downloader_options: Vec<String>) -> (r: Plan)
        ensures
            r@ == spec_play_direct(self@.protocol, self@.config, bin@, views(downloader_options@)),
    {
        let mut args = downloader_options;
        let url = self.protocol.url.clone();
        proof {
            lemma_views_push(args@, url);
        }
        args.push(url);
        Plan::Run(self.invocation(bin, args))
    }

    /// Run downloader and set player
    pub fn play(
        &self,
        bin: &str,
        player: &str,
        downloader_options: Vec<String>,
        player_options: &Vec<String>,
    ) -> (r: Plan)
        ensures
            r@ == spec_play(
                self@.protocol,
                self@.config,
                bin@,
                player@,
                views(downloader_options@),
                views(player_options@),
            ),
    {
        let mut words: Vec<String> = Vec::new();
        words.push(String::from_str(player));
        assert(views(words@) == seq![player@]);
        push_all(&mut words, player_options);
        let player = join_strings(&words, " ");

        let mut args = downloader_options;
        proof {
            lemma_views_push(args@, player);
        }
        args.push(player);
        let url = self.protocol.url.clone();
        proof {
            lemma_views_push(args@, url);
        }
        args.push(url);
        Plan::Run(self.invocation(bin, args))
    }

    /// Run downloader and transfer video data through pipeline
    pub fn play_pipe(
        &self,
        downloader_bin: &str,
        player_bin: &str,
        downloader_options: Vec<String>,
        player_options: &Vec<String>,
    ) -> (r: Plan)
        ensures
            r@ == spec_play_pipe(
                self@.protocol,
                self@.config,
                downloader_bin@,
                player_bin@,
                views(downloader_options@),
                views(player_options@),
            ),
    {
        let mut args = downloader_options;
        let url = self.protocol.url.clone();
        proof {
            lemma_views_push(args@, url);
        }
        args.push(url);

        let mut player_args: Vec<String> = Vec::new();
        push_all(&mut player_args, player_options);
        let stdin = String::from_str("-");
        proof {
            lemma_views_push(player_args@, stdin);
        }
        player_args.push(stdin);
        Plan::Pipe(self.invocation(downloader_bin, args), self.invocation(player_bin, player_args))
    }
}

impl<'a> Handler<'a> {
    /// Takes the run of this handler's plan one step further.
    pub fn advance(&self, stage: Stage, event: Event) -> (r: (Stage, Action))
        ensures
            r.0 == spec_next(self@.downloader.play_mode, self@.downloader.name, stage, event).0,
            r.1@ == spec_next(self@.downloader.play_mode, self@.downloader.name, stage, event).1,
    {
        next(self.downloader.play_mode, self.downloader.name.as_str(), stage, event)
    }
}

} // verus!
