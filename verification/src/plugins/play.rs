//! The plugin `play`: mpv plays the URL and fetches it with its own hook.

use crate::command::{
    optional, prefixed, proxy_envs, proxy_variables, push_optional, removed_envs,
    removed_variables, Invocation, InvocationView,
};
use crate::config::{
    cookies_file, cookies_path, found_path, Config, ConfigView, CookieFile,
};
use crate::decode::is_safe_url;
use crate::protocol::{Protocol, ProtocolView, Schemes};
use crate::text::{
    chars_of, find_from, join, join_strings, joined, push_char, slice_view, string_view, views,
};
use vstd::prelude::*;
use vstd::string::StringExecFns;

verus! {

pub const PREFIX_COOKIES: &'static str = "--ytdl-raw-options-append=cookies=";

pub const PREFIX_PROFILE: &'static str = "--profile=";

pub const PREFIX_FORMATS: &'static str = "--ytdl-raw-options-append=format-sort=";

pub const PREFIX_V_TITLE: &'static str = "--title=";

pub const PREFIX_SUBFILE: &'static str = "--sub-file=";

pub const PREFIX_STARTAT: &'static str = "--start=";

pub const PREFIX_REFERRER: &'static str = "--referrer=";

pub const PREFIX_YT_PATH: &'static str = "--script-opts=ytdl_hook-ytdl_path=";

/// Whether `char::is_numeric` holds of `c`: whether Unicode counts the
/// character among the numbers.
pub uninterp spec fn is_numeric(c: char) -> bool;

/// Calls `char::is_numeric`. The contract only names the outcome.
#[verifier::external_body]
fn numeric(c: char) -> (r: bool)
    ensures
        r == is_numeric(c),
{
    c.is_numeric()
}

/// The numeric characters of `text`, in their order.
pub open spec fn digits_of(text: Seq<char>) -> Seq<char> {
    text.filter(|c: char| is_numeric(c))
}

/// The numeric characters of `text`, in their order.
pub fn digits(text: &str) -> (r: String)
    ensures
        r@ == digits_of(text@),
{
    let chars = chars_of(text);
    let mut out = String::new();
    let mut k: usize = 0;
    assert(chars@.take(0).filter(|c: char| is_numeric(c)) == Seq::<char>::empty()) by {
        reveal(Seq::filter);
    }
    while k < chars.len()
        invariant
            k <= chars.len(),
            out@ == chars@.take(k as int).filter(|c: char| is_numeric(c)),
        decreases chars.len() - k,
    {
        let c = chars[k];
        proof {
            assert(chars@.take(k + 1) == chars@.take(k as int).push(c));
            chars@.take(k as int).lemma_filter_push(c, |c: char| is_numeric(c));
        }
        if numeric(c) {
            push_char(&mut out, c);
        }
        k += 1;
    }
    assert(chars@.take(k as int) == chars@);
    out
}

/// The cookies option: given for a file that is there, left out otherwise.
pub open spec fn spec_cookies(file: Option<&CookieFile>) -> Option<Seq<char>> {
    match found_path(file) {
        Some(path) => Some(PREFIX_COOKIES@ + path),
        None => None,
    }
}

/// The terms of the format sort: the resolution, then the video codec.
pub open spec fn format_terms(resolution: Option<Seq<char>>, v_codec: Option<Seq<char>>) -> Seq<
    Seq<char>,
> {
    prefixed("res:"@, resolution) + prefixed("+vcodec:"@, v_codec)
}

/// The formats option for a resolution and a video codec: the terms of the
/// format sort, joined by commas.
pub open spec fn spec_format_sort(
    resolution: Option<Seq<char>>,
    v_codec: Option<Seq<char>>,
) -> Seq<char> {
    PREFIX_FORMATS@ + join(format_terms(resolution, v_codec), ","@)
}

/// The resolution that a quality stands for: its numeric characters.
pub open spec fn resolution_of(quality: Option<Seq<char>>) -> Option<Seq<char>> {
    match quality {
        Some(q) => Some(digits_of(q)),
        None => None,
    }
}

/// The formats option for a quality and a video codec.
pub open spec fn spec_formats(quality: Option<Seq<char>>, v_codec: Option<Seq<char>>) -> Seq<
    char,
> {
    spec_format_sort(resolution_of(quality), v_codec)
}

/// Returns the cookies option for a cookies file that is there, and none
/// for one that is missing or that could not be looked for.
pub fn cookies(file: Option<&CookieFile>) -> (r: Option<String>)
    ensures
        string_view(r) == spec_cookies(file),
{
    match file {
        Some(f) => {
            if f.exists {
                Some(joined(PREFIX_COOKIES, f.path.as_str()))
            } else {
                None
            }
        },
        None => None,
    }
}

/// Returns the profile option.
pub fn profile(value: &str) -> (r: String)
    ensures
        r@ == PREFIX_PROFILE@ + value@,
{
    joined(PREFIX_PROFILE, value)
}

/// Returns the formats option for a resolution and a video codec.
pub fn format_sort(resolution: Option<&str>, v_codec: Option<&str>) -> (r: String)
    ensures
        r@ == spec_format_sort(slice_view(resolution), slice_view(v_codec)),
{
    let mut f: Vec<String> = Vec::new();
    let term = match resolution {
        Some(v) => Some(joined("res:", v)),
        None => None,
    };
    push_optional(&mut f, term);
    let term = match v_codec {
        Some(v) => Some(joined("+vcodec:", v)),
        None => None,
    };
    push_optional(&mut f, term);
    let terms = join_strings(&f, ",");
    joined(PREFIX_FORMATS, terms.as_str())
}

/// Returns the formats option.
pub fn formats(quality: Option<&str>, v_codec: Option<&str>) -> (r: Option<String>)
    ensures
        r matches Some(s) && s@ == spec_formats(slice_view(quality), slice_view(v_codec)),
{
    match quality {
        Some(v) => {
            let i = digits(v);
            Some(format_sort(Some(i.as_str()), v_codec))
        },
        None => Some(format_sort(None, v_codec)),
    }
}

/// Returns the title option.
pub fn v_title(value: &str) -> (r: String)
    ensures
        r@ == PREFIX_V_TITLE@ + value@,
{
    joined(PREFIX_V_TITLE, value)
}

/// Returns the subtitle file option.
pub fn subfile(value: &str) -> (r: String)
    ensures
        r@ == PREFIX_SUBFILE@ + value@,
{
    joined(PREFIX_SUBFILE, value)
}

/// Returns the start time option.
pub fn startat(value: &str) -> (r: String)
    ensures
        r@ == PREFIX_STARTAT@ + value@,
{
    joined(PREFIX_STARTAT, value)
}

/// Returns the referrer option.
pub fn referrer(value: &str) -> (r: String)
    ensures
        r@ == PREFIX_REFERRER@ + value@,
{
    joined(PREFIX_REFERRER, value)
}

/// Returns the option that tells mpv's hook where yt-dlp is.
pub fn yt_path(value: &str) -> (r: String)
    ensures
        r@ == PREFIX_YT_PATH@ + value@,
{
    joined(PREFIX_YT_PATH, value)
}

/// The options that mpv gets for a request, in their order: cookies,
/// profile, formats, subtitle file, start time, referrer, title, and the
/// path of yt-dlp where the settings give one. It is the order in which
/// the arguments of a downloader are composed.
///
/// The cookies option needs a request that asks for cookies under a name
/// that stays in the directory of cookies files, and a file that is there. The formats option is given where the request names
/// a quality or a video codec.
pub open spec fn spec_options(
    proto: ProtocolView,
    config: ConfigView,
    file: Option<&CookieFile>,
) -> Seq<Seq<char>> {
    prefixed(PREFIX_COOKIES@, cookies_path(proto.cookies, file))
        + prefixed(PREFIX_PROFILE@, proto.profile)
        + optional(
        if proto.quality is Some || proto.v_codec is Some {
            Some(spec_formats(proto.quality, proto.v_codec))
        } else {
            None
        },
    ) + prefixed(PREFIX_SUBFILE@, proto.subfile)
        + prefixed(PREFIX_STARTAT@, proto.startat)
        + prefixed(PREFIX_REFERRER@, proto.referrer)
        + prefixed(PREFIX_V_TITLE@, proto.v_title)
        + prefixed(PREFIX_YT_PATH@, config.ytdl)
}

/// How mpv is started for a request: the binary of the settings, or
/// `default_mpv` where they name none; the options, `--` and the URL; the
/// proxy variables; without the two variables by which a browser may have
/// bent the loading of libraries; and without a console window unless the
/// link asks for debugging.
pub open spec fn spec_exec(
    proto: ProtocolView,
    config: ConfigView,
    file: Option<&CookieFile>,
    default_mpv: Seq<char>,
) -> InvocationView {
    InvocationView {
        program: match config.mpv {
            Some(v) => v,
            None => default_mpv,
        },
        args: spec_options(proto, config, file) + seq!["--"@, proto.url],
        envs: proxy_envs(config.proxy),
        env_remove: removed_envs(),
        hide_console: proto.scheme == Schemes::MpvHandler,
        working_dir: None,
    }
}

/// Puts together the options of mpv for a request.
pub fn options(proto: &Protocol, config: &Config, file: Option<&CookieFile>) -> (r: Vec<String>)
    ensures
        views(r@) == spec_options(proto@, config@, file),
{
    let mut options: Vec<String> = Vec::new();

    // Append cookies option
    let option = cookies(cookies_file(proto.cookies, file));
    push_optional(&mut options, option);

    // Append profile option
    let option = match proto.profile {
        Some(v) => Some(profile(v)),
        None => None,
    };
    push_optional(&mut options, option);

    // Append formats option
    let option = if proto.quality.is_some() || proto.v_codec.is_some() {
        formats(proto.quality, proto.v_codec)
    } else {
        None
    };
    push_optional(&mut options, option);

    // Append subfile option
    let option = match &proto.subfile {
        Some(v) => Some(subfile(v.as_str())),
        None => None,
    };
    push_optional(&mut options, option);

    // Append startat option
    let option = match proto.startat {
        Some(v) => Some(startat(v)),
        None => None,
    };
    push_optional(&mut options, option);

    // Append referrer option
    let option = match &proto.referrer {
        Some(v) => Some(referrer(v.as_str())),
        None => None,
    };
    push_optional(&mut options, option);

    // Append v_title option
    let option = match &proto.v_title {
        Some(v) => Some(v_title(v.as_str())),
        None => None,
    };
    push_optional(&mut options, option);

    // Set custom ytdl execute file path
    let option = match &config.ytdl {
        Some(v) => Some(yt_path(v.as_str())),
        None => None,
    };
    push_optional(&mut options, option);
    options
}

/// Says how mpv is to be started for a request.
///
/// `file` is the cookies file that the request names, as the caller found
/// it; `default_mpv` is the binary to run where the settings name none.
pub fn exec(
    proto: &Protocol,
    config: &Config,
    file: Option<&CookieFile>,
    default_mpv: &str,
) -> (r: Invocation)
    ensures
        r@ == spec_exec(proto@, config@, file, default_mpv@),
{
    let mut args = options(proto, config, file);
    let ghost opts = views(args@);
    let dashes = String::from_str("--");
    args.push(dashes);
    let url = proto.url.clone();
    args.push(url);
    assert(views(args@) == opts + seq!["--"@, proto@.url]);

    let program = match &config.mpv {
        Some(v) => v.clone(),
        None => String::from_str(default_mpv),
    };

    // Set HTTP(S) proxy environment variables
    let envs = proxy_variables(&config.proxy);

    // Some browsers overwrite "LD_LIBRARY_PATH" and "LD_PRELOAD" on Linux,
    // which breaks mpv
    let env_remove = removed_variables();

    let hide_console = match proto.scheme {
        Schemes::MpvHandler => true,
        Schemes::MpvHandlerDebug => false,
    };
    Invocation { program, args, envs, env_remove, hide_console, working_dir: None }
}

/// Whether `arg` begins with `prefix`.
pub open spec fn begins_with(arg: Seq<char>, prefix: Seq<char>) -> bool {
    arg.len() >= prefix.len() && arg.subrange(0, prefix.len() as int) == prefix
}

/// Whether none of the arguments is a formats option.
pub open spec fn no_formats(args: Seq<Seq<char>>) -> bool {
    forall|i: int| 0 <= i < args.len() ==> !begins_with(#[trigger] args[i], PREFIX_FORMATS@)
}

/// Where the formats option stands among the options of a request: behind
/// the cookies option and the profile option, as far as they are given.
pub open spec fn formats_place(proto: ProtocolView, file: Option<&CookieFile>) -> int {
    options_before(proto, file).len() as int
}

/// An argument that differs from the prefix of the formats option at one
/// place, or ends before it, is no formats option.
proof fn lemma_no_formats_option(arg: Seq<char>, k: int)
    requires
        0 <= k < PREFIX_FORMATS@.len(),
        arg.len() <= k || arg[k] != PREFIX_FORMATS@[k],
    ensures
        !begins_with(arg, PREFIX_FORMATS@),
{
    if begins_with(arg, PREFIX_FORMATS@) {
        assert(arg.subrange(0, PREFIX_FORMATS@.len() as int)[k] == arg[k]);
    }
}

/// The places at which the prefixes of the other options differ from
/// that of the formats option.
proof fn lemma_prefixes()
    ensures
        PREFIX_FORMATS@.len() == 38,
        PREFIX_FORMATS@[0] == '-',
        PREFIX_FORMATS@[2] == 'y',
        PREFIX_FORMATS@[26] == 'f',
        PREFIX_COOKIES@.len() > 26 && PREFIX_COOKIES@[26] == 'c',
        PREFIX_PROFILE@.len() > 2 && PREFIX_PROFILE@[2] == 'p',
        PREFIX_SUBFILE@.len() > 2 && PREFIX_SUBFILE@[2] == 's',
        PREFIX_STARTAT@.len() > 2 && PREFIX_STARTAT@[2] == 's',
        PREFIX_REFERRER@.len() > 2 && PREFIX_REFERRER@[2] == 'r',
        PREFIX_V_TITLE@.len() > 2 && PREFIX_V_TITLE@[2] == 't',
        PREFIX_YT_PATH@.len() > 2 && PREFIX_YT_PATH@[2] == 's',
        "--"@.len() == 2,
{
    reveal_strlit("--ytdl-raw-options-append=format-sort=");
    reveal_strlit("--ytdl-raw-options-append=cookies=");
    reveal_strlit("--profile=");
    reveal_strlit("--sub-file=");
    reveal_strlit("--start=");
    reveal_strlit("--referrer=");
    reveal_strlit("--title=");
    reveal_strlit("--script-opts=ytdl_hook-ytdl_path=");
    reveal_strlit("--");
}

/// An option whose prefix differs from that of the formats option at one
/// place is no formats option, whatever its value.
proof fn lemma_prefixed_no_formats(prefix: Seq<char>, value: Option<Seq<char>>, k: int)
    requires
        0 <= k < prefix.len(),
        k < PREFIX_FORMATS@.len(),
        prefix[k] != PREFIX_FORMATS@[k],
    ensures
        no_formats(prefixed(prefix, value)),
{
    if let Some(v) = value {
        assert((prefix + v)[k] == prefix[k]);
        lemma_no_formats_option(prefix + v, k);
    }
}

/// A URL with an allowed transport scheme begins with a letter, not like
/// an option.
proof fn lemma_url_no_formats(url: Seq<char>)
    requires
        is_safe_url(url),
    ensures
        !begins_with(url, PREFIX_FORMATS@),
{
    lemma_prefixes();
    reveal_strlit("://");
    reveal_strlit("http");
    reveal_strlit("https");
    reveal_strlit("ftp");
    reveal_strlit("ftps");
    reveal_strlit("rtmp");
    reveal_strlit("rtmps");
    reveal_strlit("rtmpe");
    reveal_strlit("rtmpt");
    reveal_strlit("rtmpts");
    reveal_strlit("rtmpte");
    reveal_strlit("data");
    let i = find_from(url, "://"@, 0)->0;
    let proto = url.subrange(0, i);
    assert(proto.len() > 0);
    assert(proto[0] == url[0]);
    lemma_no_formats_option(url, 0);
}

/// Arguments without a formats option, put together, hold none.
proof fn lemma_no_formats_concat(a: Seq<Seq<char>>, b: Seq<Seq<char>>)
    requires
        no_formats(a),
        no_formats(b),
    ensures
        no_formats(a + b),
{
    assert forall|i: int| 0 <= i < (a + b).len() implies !begins_with(
        #[trigger] (a + b)[i],
        PREFIX_FORMATS@,
    ) by {
        if i < a.len() {
            assert((a + b)[i] == a[i]);
        } else {
            assert((a + b)[i] == b[i - a.len()]);
        }
    }
}

/// Between arguments of which none is a formats option, the one argument
/// in the middle is the only place for one.
proof fn lemma_formats_in_the_middle(
    before: Seq<Seq<char>>,
    middle: Seq<Seq<char>>,
    after: Seq<Seq<char>>,
)
    requires
        no_formats(before),
        no_formats(after),
        middle.len() <= 1,
    ensures
        forall|i: int|
            0 <= i < (before + middle + after).len() && begins_with(
                #[trigger] (before + middle + after)[i],
                PREFIX_FORMATS@,
            ) ==> middle.len() == 1 && i == before.len(),
        middle.len() == 1 ==> (before + middle + after)[before.len() as int] == middle[0],
{
    let all = before + middle + after;
    assert forall|i: int|
        0 <= i < all.len() && begins_with(#[trigger] all[i], PREFIX_FORMATS@) implies middle.len()
        == 1 && i == before.len() by {
        if i < before.len() {
            assert(all[i] == before[i]);
        } else if i >= before.len() + middle.len() {
            assert(all[i] == after[i - before.len() - middle.len()]);
        }
    }
}

/// What stands before the formats option: cookies and profile.
pub open spec fn options_before(proto: ProtocolView, file: Option<&CookieFile>) -> Seq<Seq<char>> {
    prefixed(PREFIX_COOKIES@, cookies_path(proto.cookies, file)) + prefixed(
        PREFIX_PROFILE@,
        proto.profile,
    )
}

/// What stands behind the formats option: the other options, `--` and the
/// URL.
pub open spec fn options_after(proto: ProtocolView, config: ConfigView) -> Seq<Seq<char>> {
    prefixed(PREFIX_SUBFILE@, proto.subfile) + prefixed(PREFIX_STARTAT@, proto.startat)
        + prefixed(PREFIX_REFERRER@, proto.referrer) + prefixed(PREFIX_V_TITLE@, proto.v_title)
        + prefixed(PREFIX_YT_PATH@, config.ytdl) + seq!["--"@, proto.url]
}

/// The formats option, where the request asks for one.
pub open spec fn options_formats(proto: ProtocolView) -> Seq<Seq<char>> {
    optional(
        if proto.quality is Some || proto.v_codec is Some {
            Some(spec_formats(proto.quality, proto.v_codec))
        } else {
            None
        },
    )
}

/// The arguments of mpv are what stands before the formats option, that
/// option, and what stands behind it.
proof fn lemma_arguments_in_three(
    proto: ProtocolView,
    config: ConfigView,
    file: Option<&CookieFile>,
    default_mpv: Seq<char>,
)
    ensures
        spec_exec(proto, config, file, default_mpv).args == options_before(proto, file)
            + options_formats(proto) + options_after(proto, config),
{
    assert(spec_exec(proto, config, file, default_mpv).args =~= options_before(proto, file)
        + options_formats(proto) + options_after(proto, config));
}

/// Neither before nor behind the formats option stands an argument that
/// begins like it.
proof fn lemma_no_other_formats(proto: ProtocolView, config: ConfigView, file: Option<&CookieFile>)
    requires
        is_safe_url(proto.url),
    ensures
        no_formats(options_before(proto, file)),
        no_formats(options_after(proto, config)),
{
    lemma_prefixes();
    let cookies = prefixed(PREFIX_COOKIES@, cookies_path(proto.cookies, file));
    let profile = prefixed(PREFIX_PROFILE@, proto.profile);
    let subfile = prefixed(PREFIX_SUBFILE@, proto.subfile);
    let startat = prefixed(PREFIX_STARTAT@, proto.startat);
    let referrer = prefixed(PREFIX_REFERRER@, proto.referrer);
    let v_title = prefixed(PREFIX_V_TITLE@, proto.v_title);
    let yt_path = prefixed(PREFIX_YT_PATH@, config.ytdl);
    let tail = seq!["--"@, proto.url];
    lemma_prefixed_no_formats(PREFIX_COOKIES@, cookies_path(proto.cookies, file), 26);
    lemma_prefixed_no_formats(PREFIX_PROFILE@, proto.profile, 2);
    lemma_prefixed_no_formats(PREFIX_SUBFILE@, proto.subfile, 2);
    lemma_prefixed_no_formats(PREFIX_STARTAT@, proto.startat, 2);
    lemma_prefixed_no_formats(PREFIX_REFERRER@, proto.referrer, 2);
    lemma_prefixed_no_formats(PREFIX_V_TITLE@, proto.v_title, 2);
    lemma_prefixed_no_formats(PREFIX_YT_PATH@, config.ytdl, 2);
    lemma_url_no_formats(proto.url);
    lemma_no_formats_option("--"@, 2);
    assert(no_formats(tail));
    lemma_no_formats_concat(cookies, profile);
    lemma_no_formats_concat(subfile, startat);
    lemma_no_formats_concat(subfile + startat, referrer);
    lemma_no_formats_concat(subfile + startat + referrer, v_title);
    lemma_no_formats_concat(subfile + startat + referrer + v_title, yt_path);
    lemma_no_formats_concat(subfile + startat + referrer + v_title + yt_path, tail);
}

/// Among the arguments of mpv there is exactly one formats option where
/// the request names a quality or a video codec, and none otherwise: no
/// other argument begins like it, whatever the request holds.
pub proof fn lemma_one_formats_option(
    proto: ProtocolView,
    config: ConfigView,
    file: Option<&CookieFile>,
    default_mpv: Seq<char>,
)
    requires
        is_safe_url(proto.url),
    ensures
        ({
            let args = spec_exec(proto, config, file, default_mpv).args;
            let wanted = proto.quality is Some || proto.v_codec is Some;
            let place = formats_place(proto, file);
            &&& forall|i: int|
                0 <= i < args.len() && begins_with(#[trigger] args[i], PREFIX_FORMATS@) ==> wanted
                    && i == place
            &&& wanted ==> 0 <= place < args.len() && args[place] == spec_formats(
                proto.quality,
                proto.v_codec,
            ) && begins_with(args[place], PREFIX_FORMATS@)
        }),
{
    lemma_arguments_in_three(proto, config, file, default_mpv);
    lemma_no_other_formats(proto, config, file);
    lemma_formats_in_the_middle(
        options_before(proto, file),
        options_formats(proto),
        options_after(proto, config),
    );
    if proto.quality is Some || proto.v_codec is Some {
        let option = spec_formats(proto.quality, proto.v_codec);
        assert(option.subrange(0, PREFIX_FORMATS@.len() as int) =~= PREFIX_FORMATS@);
    }
}

} // verus!
