//! The arguments of the downloader for a request.
//!
//! The arguments come in a fixed order, which the downloader depends on:
//! cookies; profile; quality and codec; subtitle file, start time, referrer
//! and title; at last the downloader's own options. Where a step fails,
//! no argument is handed out.

use crate::config::{
    cookies_file, cookies_path, lookup, spec_quality, CookieFile, DownloaderProfile,
    DownloaderView,
};
use crate::handler::{HandlerError, HandlerErrorView};
use crate::command::{optional, prefixed, push_all, push_optional};
use crate::plugins::play::{PREFIX_REFERRER, PREFIX_STARTAT, PREFIX_SUBFILE, PREFIX_V_TITLE};
use crate::protocol::{Protocol, ProtocolView};
use crate::text::{join, join_strings, joined, lemma_views_push, slice_view, views};
use vstd::prelude::*;
use vstd::string::StringExecFns;

verus! {

/// The value of a result that holds a list of arguments.
pub open spec fn args_result_view(r: Result<Vec<String>, HandlerError>) -> Result<
    Seq<Seq<char>>,
    HandlerErrorView,
> {
    match r {
        Ok(args) => Ok(views(args@)),
        Err(e) => Err(e@),
    }
}

/// The arguments that name the cookies file.
///
/// A request that asks for none gets none. A file that is there is named
/// in one argument, template and path together, or in two, as the
/// downloader has it. A file that is missing or that could not be looked
/// for, or a name that would leave the directory of cookies files, is an
/// error where the downloader insists on cookies; otherwise the option is
/// left out.
pub open spec fn spec_cookies_args(
    d: DownloaderView,
    wanted: Option<Seq<char>>,
    file: Option<&CookieFile>,
) -> Result<Seq<Seq<char>>, HandlerErrorView> {
    match wanted {
        Some(name) => match cookies_path(wanted, file) {
            Some(path) => if d.cookies_prefix_mode {
                Ok(seq![d.cookies_option_template + path])
            } else {
                Ok(seq![d.cookies_option_template, path])
            },
            None => if d.require_cookies {
                Err(HandlerErrorView::CookiesNotFound(name))
            } else {
                Ok(Seq::empty())
            },
        },
        None => Ok(Seq::empty()),
    }
}

/// The filter expression of the request's quality: that of the quality
/// table; none for a request without quality, unless the downloader
/// requires one.
pub open spec fn spec_filter(d: DownloaderView, quality: Option<Seq<char>>) -> Result<
    Option<Seq<char>>,
    HandlerErrorView,
> {
    match quality {
        Some(label) => match spec_quality(d.quality_table, label) {
            Ok(expression) => Ok(Some(expression)),
            Err(e) => Err(e),
        },
        None => if d.require_quality {
            Err(HandlerErrorView::QualityRequired(d.name))
        } else {
            Ok(None)
        },
    }
}

/// The one argument for quality and codec: the downloader's template,
/// then the filter expression of the quality and the codec term, joined by
/// a comma. A request with neither gets no such argument.
pub open spec fn spec_quality_args(
    d: DownloaderView,
    quality: Option<Seq<char>>,
    v_codec: Option<Seq<char>>,
) -> Result<Seq<Seq<char>>, HandlerErrorView> {
    match spec_filter(d, quality) {
        Ok(filter) => Ok(
            if filter is Some || v_codec is Some {
                seq![
                    d.quality_option_template + join(
                        optional(filter) + prefixed("+vcodec:"@, v_codec),
                        ","@,
                    ),
                ]
            } else {
                Seq::empty()
            },
        ),
        Err(e) => Err(e),
    }
}

/// The arguments of the downloader for a request, in this order: cookies,
/// profile, quality and codec, subtitle file, start time, referrer, title,
/// and the downloader's own options. An error yields no arguments at all.
pub open spec fn spec_compose(p: ProtocolView, d: DownloaderView, file: Option<&CookieFile>) -> Result<
    Seq<Seq<char>>,
    HandlerErrorView,
> {
    match spec_cookies_args(d, p.cookies, file) {
        Ok(cookies) => match spec_quality_args(d, p.quality, p.v_codec) {
            Ok(quality) => Ok(
                cookies + prefixed(d.profile_option_template, p.profile) + quality + prefixed(
                    PREFIX_SUBFILE@,
                    p.subfile,
                ) + prefixed(PREFIX_STARTAT@, p.startat) + prefixed(PREFIX_REFERRER@, p.referrer)
                    + prefixed(PREFIX_V_TITLE@, p.v_title) + d.extra_options,
            ),
            Err(e) => Err(e),
        },
        Err(e) => Err(e),
    }
}

/// Puts together the arguments that name the cookies file.
pub fn cookies_args(
    profile: &DownloaderProfile,
    wanted: Option<&str>,
    file: Option<&CookieFile>,
) -> (r: Result<Vec<String>, HandlerError>)
    ensures
        args_result_view(r) == spec_cookies_args(profile@, slice_view(wanted), file),
{
    let mut args: Vec<String> = Vec::new();
    assert(views(args@) == Seq::<Seq<char>>::empty());
    let name = match wanted {
        Some(name) => name,
        None => {
            return Ok(args);
        },
    };
    match cookies_file(wanted, file) {
        Some(f) if f.exists => {
            if profile.cookies_prefix_mode {
                args.push(joined(profile.cookies_option_template.as_str(), f.path.as_str()));
                assert(views(args@) == seq![profile@.cookies_option_template + f.path@]);
            } else {
                args.push(profile.cookies_option_template.clone());
                args.push(f.path.clone());
                assert(views(args@) == seq![profile@.cookies_option_template, f.path@]);
            }
            Ok(args)
        },
        _ => {
            if profile.require_cookies {
                Err(HandlerError::CookiesNotFound(String::from_str(name)))
            } else {
                Ok(args)
            }
        },
    }
}

/// Puts together the one argument for quality and codec.
pub fn quality_args(profile: &DownloaderProfile, quality: Option<&str>, v_codec: Option<&str>) -> (r:
    Result<Vec<String>, HandlerError>)
    ensures
        args_result_view(r) == spec_quality_args(
            profile@,
            slice_view(quality),
            slice_view(v_codec),
        ),
{
    let mut terms: Vec<String> = Vec::new();
    match quality {
        Some(label) => match profile.quality(label) {
            Ok(expression) => {
                proof {
                    lemma_views_push(terms@, *expression);
                }
                terms.push(expression.clone());
            },
            Err(e) => {
                return Err(e);
            },
        },
        None => {
            if profile.require_quality {
                return Err(HandlerError::QualityRequired(profile.name.clone()));
            }
        },
    }
    let ghost filter = spec_filter(profile@, slice_view(quality))->Ok_0;
    let term = match v_codec {
        Some(v) => Some(joined("+vcodec:", v)),
        None => None,
    };
    push_optional(&mut terms, term);
    let mut args: Vec<String> = Vec::new();
    assert(views(args@) == Seq::<Seq<char>>::empty());
    if terms.len() > 0 {
        let expression = join_strings(&terms, ",");
        args.push(joined(profile.quality_option_template.as_str(), expression.as_str()));
        assert(views(args@) == seq![
            profile@.quality_option_template + join(
                optional(filter) + prefixed("+vcodec:"@, slice_view(v_codec)),
                ","@,
            ),
        ]);
    }
    Ok(args)
}

/// Puts together the arguments of the downloader for a request.
///
/// `file` is the cookies file that the request names, as the caller found
/// it. The order of the arguments is fixed: the downloader reads them in
/// it.
pub fn compose(request: &Protocol, profile: &DownloaderProfile, file: Option<&CookieFile>) -> (r:
    Result<Vec<String>, HandlerError>)
    ensures
        args_result_view(r) == spec_compose(request@, profile@, file),
{
    // Append cookies option and cookies file path to arguments
    let mut args = match cookies_args(profile, request.cookies, file) {
        Ok(args) => args,
        Err(e) => {
            return Err(e);
        },
    };

    // Check the quality before anything else is appended
    let quality = match quality_args(profile, request.quality, request.v_codec) {
        Ok(quality) => quality,
        Err(e) => {
            return Err(e);
        },
    };

    // Append profile option
    let option = match request.profile {
        Some(v) => Some(joined(profile.profile_option_template.as_str(), v)),
        None => None,
    };
    push_optional(&mut args, option);

    // Append quality option
    push_all(&mut args, &quality);

    // Append subtitle file, start time, referrer and title
    let option = match &request.subfile {
        Some(v) => Some(joined(PREFIX_SUBFILE, v.as_str())),
        None => None,
    };
    push_optional(&mut args, option);
    let option = match request.startat {
        Some(v) => Some(joined(PREFIX_STARTAT, v)),
        None => None,
    };
    push_optional(&mut args, option);
    let option = match &request.referrer {
        Some(v) => Some(joined(PREFIX_REFERRER, v.as_str())),
        None => None,
    };
    push_optional(&mut args, option);
    let option = match &request.v_title {
        Some(v) => Some(joined(PREFIX_V_TITLE, v.as_str())),
        None => None,
    };
    push_optional(&mut args, option);

    // Append output or player options
    push_all(&mut args, &profile.extra_options);
    Ok(args)
}

/// Composing twice for the same request, downloader and cookies file
/// gives the same arguments, character for character, or the same error.
pub proof fn lemma_compose_is_repeatable(
    request: Protocol<'_>,
    profile: DownloaderProfile,
    file: Option<&CookieFile>,
    first: Result<Vec<String>, HandlerError>,
    second: Result<Vec<String>, HandlerError>,
)
    requires
        args_result_view(first) == spec_compose(request@, profile@, file),
        args_result_view(second) == spec_compose(request@, profile@, file),
    ensures
        args_result_view(first) == args_result_view(second),
{
}

/// A quality label that the quality table maps to a filter expression
/// gives, by itself, exactly one argument: the downloader's template and
/// then that expression.
pub proof fn lemma_quality_is_one_argument(d: DownloaderView, label: Seq<char>, filter: Seq<char>)
    requires
        lookup(d.quality_table, label) == Some(filter),
        filter.len() > 0,
    ensures
        spec_quality_args(d, Some(label), None) == Ok::<_, HandlerErrorView>(
            seq![d.quality_option_template + filter],
        ),
{
    assert(optional(Some(filter)) + prefixed("+vcodec:"@, None) == seq![filter]);
}

/// Where the downloader requires a quality and the request names none,
/// composing fails and hands out no argument. The error is that of the
/// missing quality, unless the cookies file was refused before.
pub proof fn lemma_required_quality(p: ProtocolView, d: DownloaderView, file: Option<&CookieFile>)
    requires
        d.require_quality,
        p.quality is None,
    ensures
        spec_compose(p, d, file) is Err,
        spec_cookies_args(d, p.cookies, file) is Ok ==> spec_compose(p, d, file) == Err::<
            Seq<Seq<char>>,
            _,
        >(HandlerErrorView::QualityRequired(d.name)),
{
}

} // verus!
