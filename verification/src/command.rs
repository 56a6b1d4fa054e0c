//! What to run, as plain values: the library decides, the caller starts
//! the process and reports how it ended.

use crate::text::{lemma_views_push, string_view, views};
use vstd::prelude::*;
use vstd::string::StringExecFns;

verus! {

/// One process to start: the program, its arguments and the changes to its
/// environment. The environment of the handler itself is never touched.
#[derive(Debug)]
pub struct Invocation {
    pub program: String,
    pub args: Vec<String>,
    /// Variables to set for the process, as name and value.
    pub envs: Vec<(String, String)>,
    /// Variables to take out of the environment of the process.
    pub env_remove: Vec<String>,
    /// Whether the process gets no console window, where the system has such.
    pub hide_console: bool,
    /// The directory in which the process runs; that of the handler where
    /// none is named.
    pub working_dir: Option<String>,
}

/// The mathematical value of an [`Invocation`].
pub ghost struct InvocationView {
    pub program: Seq<char>,
    pub args: Seq<Seq<char>>,
    pub envs: Seq<(Seq<char>, Seq<char>)>,
    pub env_remove: Seq<Seq<char>>,
    pub hide_console: bool,
    pub working_dir: Option<Seq<char>>,
}

/// The character sequences of a list of pairs of strings.
pub open spec fn pair_views(v: Seq<(String, String)>) -> Seq<(Seq<char>, Seq<char>)> {
    Seq::new(v.len(), |i: int| (v[i].0@, v[i].1@))
}

impl View for Invocation {
    type V = InvocationView;

    open spec fn view(&self) -> InvocationView {
        InvocationView {
            program: self.program@,
            args: views(self.args@),
            envs: pair_views(self.envs@),
            env_remove: views(self.env_remove@),
            hide_console: self.hide_console,
            working_dir: string_view(self.working_dir),
        }
    }
}

/// The one argument where there is one, else none.
pub open spec fn optional(arg: Option<Seq<char>>) -> Seq<Seq<char>> {
    match arg {
        Some(a) => seq![a],
        None => Seq::empty(),
    }
}

/// The one argument `prefix` + `value` where there is a value, else none.
pub open spec fn prefixed(prefix: Seq<char>, value: Option<Seq<char>>) -> Seq<Seq<char>> {
    match value {
        Some(v) => seq![prefix + v],
        None => Seq::empty(),
    }
}

/// Appends the option where there is one.
pub fn push_optional(options: &mut Vec<String>, option: Option<String>)
    ensures
        views(final(options)@) == views(old(options)@) + optional(string_view(option)),
{
    match option {
        Some(v) => {
            options.push(v);
        },
        None => {},
    }
}

/// Appends copies of all of `more`.
pub fn push_all(args: &mut Vec<String>, more: &Vec<String>)
    ensures
        views(final(args)@) == views(old(args)@) + views(more@),
{
    let ghost before = views(args@);
    let mut k: usize = 0;
    while k < more.len()
        invariant
            k <= more.len(),
            views(args@) == before + views(more@).take(k as int),
        decreases more.len() - k,
    {
        let s = more[k].clone();
        proof {
            lemma_views_push(args@, s);
        }
        args.push(s);
        k += 1;
    }
}

/// How an attempt to run a process ended.
#[derive(Debug)]
pub enum Outcome {
    /// The process ran; holds its exit code, or nothing where a signal ended it.
    Exited(Option<i32>),
    /// The process could not be started; holds the reason.
    NotStarted(String),
}

/// The variables that send the traffic of player and downloader through
/// `proxy`.
pub open spec fn proxy_envs(proxy: Option<Seq<char>>) -> Seq<(Seq<char>, Seq<char>)> {
    match proxy {
        Some(p) => seq![
            ("http_proxy"@, p),
            ("HTTP_PROXY"@, p),
            ("https_proxy"@, p),
            ("HTTPS_PROXY"@, p),
        ],
        None => Seq::empty(),
    }
}

/// The variables that the started process must not inherit: a browser may
/// have set them for itself, and they break the loading of mpv's libraries.
pub open spec fn removed_envs() -> Seq<Seq<char>> {
    seq!["LD_LIBRARY_PATH"@, "LD_PRELOAD"@]
}

/// The variables to set for a process that is to use `proxy`.
pub fn proxy_variables(proxy: &Option<String>) -> (envs: Vec<(String, String)>)
    ensures
        pair_views(envs@) == proxy_envs(string_view(*proxy)),
{
    let mut envs: Vec<(String, String)> = Vec::new();
    if let Some(proxy) = proxy {
        envs.push((String::from_str("http_proxy"), proxy.clone()));
        envs.push((String::from_str("HTTP_PROXY"), proxy.clone()));
        envs.push((String::from_str("https_proxy"), proxy.clone()));
        envs.push((String::from_str("HTTPS_PROXY"), proxy.clone()));
    }
    envs
}

/// The variables to take out of the environment of a started process.
pub fn removed_variables() -> (names: Vec<String>)
    ensures
        views(names@) == removed_envs(),
{
    let mut names: Vec<String> = Vec::new();
    names.push(String::from_str("LD_LIBRARY_PATH"));
    names.push(String::from_str("LD_PRELOAD"));
    names
}

} // verus!
