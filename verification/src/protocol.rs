//! The link format of the handler.
//!
//! ```text
//! mpv-handler://PLUGIN/ENCODED_URL[/][?KEY=VALUE&KEY=VALUE...]
//! mpv-handler-debug://PLUGIN/ENCODED_URL[/][?KEY=VALUE&KEY=VALUE...]
//! ```
//!
//! `PLUGIN` is `play`. `ENCODED_URL` is the URL in URL-safe base64 without
//! padding. The keys are `cookies`, `profile`, `quality`, `v_codec`,
//! `v_title`, `subfile`, `startat` and `referrer`; the values of `v_title`,
//! `subfile` and `referrer` are encoded like the URL. A pair with another key
//! is ignored.

use crate::decode::{
    decode_url, is_safe_proto, is_safe_url, lemma_foreign_character_is_refused,
    spec_decode_txt, spec_decode_url,
};
use crate::error::{Error, ErrorView};
use crate::parameters::{
    lemma_order_of_query, lemma_subfile_is_safe, no_parameter_twice, no_parameters, same_pairs,
    spec_extract, Parameters, ParametersView,
};
use crate::plugins::Plugins;
use crate::text::{
    chars_of, find, find_from, free_of, lemma_find_from, lemma_find_in_head,
    lemma_find_separator, lemma_split_holds, occurs_at, same_text, slice_view,
    some_piece_holds, split, string_view,
};
use vstd::prelude::*;
use vstd::string::{StrSliceExecFns, StringExecFns};

verus! {


/// Which scheme a link was written with: the plain one or the one for debugging.
#[derive(Debug, Clone, Copy, PartialEq, Eq, Structural)]
pub enum Schemes {
    MpvHandler,
    MpvHandlerDebug,
}

/// The scheme that a name before `://` stands for.
pub open spec fn scheme_named(name: Seq<char>) -> Option<Schemes> {
    if name == "mpv-handler"@ {
        Some(Schemes::MpvHandler)
    } else if name == "mpv-handler-debug"@ {
        Some(Schemes::MpvHandlerDebug)
    } else {
        None
    }
}

/// The plugin that a segment after the scheme stands for.
pub open spec fn plugin_named(name: Seq<char>) -> Option<Plugins> {
    if name == "play"@ {
        Some(Plugins::Play)
    } else {
        None
    }
}

/// A link cut into its segments, nothing decoded yet.
#[derive(Debug)]
pub struct Link<'a> {
    pub scheme: Schemes,
    pub plugin: Plugins,
    /// The encoded URL; never empty.
    pub payload: &'a str,
    /// What follows the first `?` after the payload.
    pub query: Option<&'a str>,
}

/// The mathematical value of a [`Link`].
pub ghost struct LinkView {
    pub scheme: Schemes,
    pub plugin: Plugins,
    pub payload: Seq<char>,
    pub query: Option<Seq<char>>,
}

impl<'a> View for Link<'a> {
    type V = LinkView;

    open spec fn view(&self) -> LinkView {
        LinkView {
            scheme: self.scheme,
            plugin: self.plugin,
            payload: self.payload@,
            query: match self.query {
                Some(q) => Some(q@),
                None => None,
            },
        }
    }
}

/// Where the payload that starts at `from` ends: at the next `/`, else at the
/// next `?`, else at the end of the link.
pub open spec fn payload_end(s: Seq<char>, from: int) -> int {
    match find_from(s, seq!['/'], from) {
        Some(c) => c,
        None => match find_from(s, seq!['?'], from) {
            Some(c) => c,
            None => s.len() as int,
        },
    }
}

/// The query string of a link whose payload ends at `end`: what follows the
/// first `?` at or after `end`.
pub open spec fn query_after(s: Seq<char>, end: int) -> Option<Seq<char>> {
    match find_from(s, seq!['?'], end) {
        Some(d) => Some(s.subrange(d + 1, s.len() as int)),
        None => None,
    }
}

/// Scheme and plugin of the link `s`, and the place where its payload
/// starts: behind the `/` that ends the plugin.
pub open spec fn spec_header(s: Seq<char>) -> Result<(Schemes, Plugins, int), ErrorView> {
    match find_from(s, "://"@, 0) {
        None => Err(ErrorView::UnrecognizedScheme(s)),
        Some(a) => match scheme_named(s.subrange(0, a)) {
            None => Err(ErrorView::UnrecognizedScheme(s)),
            Some(scheme) => match find_from(s, seq!['/'], a + 3) {
                None => Err(ErrorView::UnrecognizedRoute(s)),
                Some(b) => match plugin_named(s.subrange(a + 3, b)) {
                    None => Err(ErrorView::UnrecognizedRoute(s)),
                    Some(plugin) => Ok((scheme, plugin, b + 1)),
                },
            },
        },
    }
}

/// The segments of the link `s`, or the reason why it has none.
pub open spec fn spec_split(s: Seq<char>) -> Result<LinkView, ErrorView> {
    match spec_header(s) {
        Ok((scheme, plugin, j)) => {
            let end = payload_end(s, j);
            if end == j {
                Err(ErrorView::MissingPayload)
            } else {
                Ok(
                    LinkView {
                        scheme,
                        plugin,
                        payload: s.subrange(j, end),
                        query: query_after(s, end),
                    },
                )
            }
        },
        Err(e) => Err(e),
    }
}

/// The value of a result of [`Link::split`].
pub open spec fn link_result_view(r: Result<Link<'_>, Error>) -> Result<LinkView, ErrorView> {
    match r {
        Ok(l) => Ok(l@),
        Err(e) => Err(e@),
    }
}

/// The scheme that `name` stands for.
pub fn scheme_of(name: &str) -> (r: Option<Schemes>)
    ensures
        r == scheme_named(name@),
{
    if same_text(name, "mpv-handler") {
        Some(Schemes::MpvHandler)
    } else if same_text(name, "mpv-handler-debug") {
        Some(Schemes::MpvHandlerDebug)
    } else {
        None
    }
}

/// The plugin that `name` stands for.
pub fn plugin_of(name: &str) -> (r: Option<Plugins>)
    ensures
        r == plugin_named(name@),
{
    if same_text(name, "play") {
        Some(Plugins::Play)
    } else {
        None
    }
}

impl<'a> Link<'a> {
    /// Cuts a link into scheme, plugin, payload and query string.
    ///
    /// The scheme ends at the first `://`, the plugin at the next `/`. The
    /// payload runs to the next `/`, else to the next `?`, else to the end,
    /// and must not be empty. The query string is what follows the first `?`
    /// from the end of the payload on; a `/` after the payload is passed over.
    pub fn split(arg: &'a str) -> (r: Result<Link<'a>, Error>)
        ensures
            link_result_view(r) == spec_split(arg@),
    {
        let chars = chars_of(arg);
        let n: usize = chars.len();
        let sep = chars_of("://");
        let slash: Vec<char> = vec!['/'];
        let mark: Vec<char> = vec!['?'];
        proof {
            reveal_strlit("://");
            assert(slash@ == seq!['/']);
            assert(mark@ == seq!['?']);
        }
        let a: usize = match find(&chars, &sep, 0) {
            Some(a) => a,
            None => {
                return Err(Error::UnrecognizedScheme(String::from_str(arg)));
            },
        };
        let scheme = match scheme_of(arg.substring_char(0, a)) {
            Some(scheme) => scheme,
            None => {
                return Err(Error::UnrecognizedScheme(String::from_str(arg)));
            },
        };
        let i: usize = a + 3;
        let b: usize = match find(&chars, &slash, i) {
            Some(b) => b,
            None => {
                return Err(Error::UnrecognizedRoute(String::from_str(arg)));
            },
        };
        let plugin = match plugin_of(arg.substring_char(i, b)) {
            Some(plugin) => plugin,
            None => {
                return Err(Error::UnrecognizedRoute(String::from_str(arg)));
            },
        };
        let j: usize = b + 1;
        let end: usize = match find(&chars, &slash, j) {
            Some(c) => c,
            None => match find(&chars, &mark, j) {
                Some(c) => c,
                None => n,
            },
        };
        if end == j {
            return Err(Error::MissingPayload);
        }
        let payload = arg.substring_char(j, end);
        let query = match find(&chars, &mark, end) {
            Some(d) => Some(arg.substring_char(d + 1, n)),
            None => None,
        };
        Ok(Link { scheme, plugin, payload, query })
    }
}

/// A parsed link: what to play and how.
#[derive(Debug, PartialEq)]
pub struct Protocol<'a> {
    pub scheme: Schemes,
    pub plugin: Plugins,
    /// The decoded URL; its transport scheme is on the allow-list.
    pub url: String,
    pub cookies: Option<&'a str>,
    pub profile: Option<&'a str>,
    pub quality: Option<&'a str>,
    pub v_codec: Option<&'a str>,
    pub v_title: Option<String>,
    /// The decoded URL of a subtitle file; checked like `url`.
    pub subfile: Option<String>,
    pub startat: Option<&'a str>,
    pub referrer: Option<String>,
}

/// The mathematical value of a [`Protocol`].
pub ghost struct ProtocolView {
    pub scheme: Schemes,
    pub plugin: Plugins,
    pub url: Seq<char>,
    pub cookies: Option<Seq<char>>,
    pub profile: Option<Seq<char>>,
    pub quality: Option<Seq<char>>,
    pub v_codec: Option<Seq<char>>,
    pub v_title: Option<Seq<char>>,
    pub subfile: Option<Seq<char>>,
    pub startat: Option<Seq<char>>,
    pub referrer: Option<Seq<char>>,
}

impl<'a> View for Protocol<'a> {
    type V = ProtocolView;

    open spec fn view(&self) -> ProtocolView {
        ProtocolView {
            scheme: self.scheme,
            plugin: self.plugin,
            url: self.url@,
            cookies: slice_view(self.cookies),
            profile: slice_view(self.profile),
            quality: slice_view(self.quality),
            v_codec: slice_view(self.v_codec),
            v_title: string_view(self.v_title),
            subfile: string_view(self.subfile),
            startat: slice_view(self.startat),
            referrer: string_view(self.referrer),
        }
    }
}

/// The request that is made of a link's segments, its decoded URL and
/// what its query string asks for.
pub open spec fn request_of(link: LinkView, url: Seq<char>, parameters: ParametersView) -> ProtocolView {
    ProtocolView {
        scheme: link.scheme,
        plugin: link.plugin,
        url,
        cookies: parameters.cookies,
        profile: parameters.profile,
        quality: parameters.quality,
        v_codec: parameters.v_codec,
        v_title: parameters.v_title,
        subfile: parameters.subfile,
        startat: parameters.startat,
        referrer: parameters.referrer,
    }
}

/// What a query string asks for; a link without one asks for nothing.
pub open spec fn spec_query(query: Option<Seq<char>>) -> Result<ParametersView, ErrorView> {
    match query {
        Some(q) => spec_extract(q),
        None => Ok(no_parameters()),
    }
}

/// The request that the link `s` makes, or the first reason to refuse it:
/// the segments are cut, the payload is decoded and checked, and the pairs
/// of the query string are taken from left to right.
pub open spec fn spec_parse(s: Seq<char>) -> Result<ProtocolView, ErrorView> {
    match spec_split(s) {
        Ok(link) => match spec_decode_url(link.payload) {
            Ok(url) => match spec_query(link.query) {
                Ok(parameters) => Ok(request_of(link, url, parameters)),
                Err(e) => Err(e),
            },
            Err(e) => Err(e),
        },
        Err(e) => Err(e),
    }
}

/// The value of a result of [`Protocol::parse`].
pub open spec fn parse_result_view(r: Result<Protocol<'_>, Error>) -> Result<
    ProtocolView,
    ErrorView,
> {
    match r {
        Ok(p) => Ok(p@),
        Err(e) => Err(e@),
    }
}

impl<'a> Protocol<'a> {
    /// Parses the given argument and returns the request that it makes.
    ///
    /// The link is cut into its segments, the payload is decoded to the URL
    /// and checked against the allow-list, and the pairs of the query string
    /// are read from left to right. The first fault ends the parsing. A key
    /// that is given twice keeps its last value; a pair with an unknown key
    /// is passed over.
    pub fn parse(arg: &'a str) -> (r: Result<Protocol<'a>, Error>)
        ensures
            parse_result_view(r) == spec_parse(arg@),
            r matches Ok(p) ==> is_safe_url(p.url@),
            r matches Ok(p) ==> (p.subfile matches Some(url) ==> is_safe_url(url@)),
    {
        let link = match Link::split(arg) {
            Ok(link) => link,
            Err(e) => {
                return Err(e);
            },
        };
        let url = match decode_url(link.payload) {
            Ok(url) => url,
            Err(e) => {
                return Err(e);
            },
        };
        let parameters = match link.query {
            Some(query) => match Parameters::extract(query) {
                Ok(parameters) => parameters,
                Err(e) => {
                    return Err(e);
                },
            },
            None => Parameters::new(),
        };
        Ok(
            Protocol {
                scheme: link.scheme,
                plugin: link.plugin,
                url,
                cookies: parameters.cookies,
                profile: parameters.profile,
                quality: parameters.quality,
                v_codec: parameters.v_codec,
                v_title: parameters.v_title,
                subfile: parameters.subfile,
                startat: parameters.startat,
                referrer: parameters.referrer,
            },
        )
    }
}

/// A link whose payload decodes to a text with a transport scheme outside
/// the allow-list is refused with that scheme, whatever else it holds.
pub proof fn lemma_unsafe_scheme_is_refused(s: Seq<char>, link: LinkView, url: Seq<char>, i: int)
    requires
        spec_split(s) == Ok::<_, ErrorView>(link),
        spec_decode_txt(link.payload) == Ok::<_, ErrorView>(url),
        find_from(url, "://"@, 0) == Some(i),
        !is_safe_proto(url.subrange(0, i)),
    ensures
        spec_parse(s) == Err::<ProtocolView, _>(ErrorView::DisallowedScheme(url.subrange(0, i))),
{
}

/// No link is accepted whose decoded URL, or whose subtitle file, lacks a
/// transport scheme of the allow-list.
pub proof fn lemma_parsed_url_is_safe(s: Seq<char>)
    ensures
        spec_parse(s) matches Ok(p) ==> is_safe_url(p.url),
        spec_parse(s) matches Ok(p) ==> (p.subfile matches Some(url) ==> is_safe_url(url)),
{
    if let Ok(link) = spec_split(s) {
        if let Some(query) = link.query {
            lemma_subfile_is_safe(query);
        }
    }
}

/// The link made of what stands before the query string, `?`, and the
/// query string.
pub open spec fn link_with(base: Seq<char>, query: Seq<char>) -> Seq<char> {
    base + seq!['?'] + query
}

/// No name of a scheme or of a plugin holds a `?`.
proof fn lemma_names_hold_no_mark(name: Seq<char>)
    ensures
        scheme_named(name) is Some ==> free_of(name, '?'),
        plugin_named(name) is Some ==> free_of(name, '?'),
{
    reveal_strlit("mpv-handler");
    reveal_strlit("mpv-handler-debug");
    reveal_strlit("play");
}

/// Scheme and plugin of a link are those of what stands before its query
/// string: a `?` ends neither a scheme nor a plugin.
proof fn lemma_header_of_link(base: Seq<char>, query: Seq<char>)
    requires
        free_of(base, '?'),
    ensures
        spec_header(base) is Err ==> spec_header(link_with(base, query)) is Err,
        spec_header(base) matches Ok(h) ==> spec_header(link_with(base, query)) == Ok::<
            _,
            ErrorView,
        >(h) && 0 <= h.2 <= base.len(),
{
    let s = link_with(base, query);
    let n = base.len() as int;
    reveal_strlit("://");
    assert(free_of("://"@, '?'));
    assert(free_of(seq!['/'], '?'));
    assert(s[n] == '?');
    lemma_find_from(base, "://"@, 0);
    lemma_find_from(s, "://"@, 0);
    lemma_find_in_head(base, '?', query, "://"@, 0);
    match find_from(base, "://"@, 0) {
        Some(a) => {
            assert(s.subrange(0, a) =~= base.subrange(0, a));
            if scheme_named(base.subrange(0, a)) is Some {
                lemma_find_from(base, seq!['/'], a + 3);
                lemma_find_from(s, seq!['/'], a + 3);
                lemma_find_in_head(base, '?', query, seq!['/'], a + 3);
                match find_from(base, seq!['/'], a + 3) {
                    Some(b) => {
                        assert(s.subrange(a + 3, b) =~= base.subrange(a + 3, b));
                    },
                    None => {
                        if let Some(k) = find_from(s, seq!['/'], a + 3) {
                            let name = s.subrange(a + 3, k);
                            assert(name[n - (a + 3)] == '?');
                            lemma_names_hold_no_mark(name);
                        }
                    },
                }
            }
        },
        None => {
            if let Some(k) = find_from(s, "://"@, 0) {
                let name = s.subrange(0, k);
                assert(name[n] == '?');
                lemma_names_hold_no_mark(name);
            }
        },
    }
}

/// Whether a `/` stands in `s` at or after `from`.
pub open spec fn slash_from(s: Seq<char>, from: int) -> bool {
    exists|m: int| from <= m < s.len() && s[m] == '/'
}

/// Payload and query string of a link whose payload starts before its
/// query string. Where a `/` ends the payload before the `?`, or where no
/// `/` follows at all, the payload is that of what stands before the `?`
/// and the query string is what stands behind it. Where the first `/`
/// stands in the query string, the payload holds the `?` and is refused.
proof fn lemma_payload_of_link(base: Seq<char>, query: Seq<char>, j: int)
    requires
        free_of(base, '?'),
        0 <= j <= base.len(),
    ensures
        ({
            let s = link_with(base, query);
            let end = payload_end(s, j);
            if find_from(base, seq!['/'], j) is Some {
                &&& end == find_from(base, seq!['/'], j)->0
                &&& s.subrange(j, end) == base.subrange(j, end)
                &&& query_after(s, end) == Some(query)
            } else if slash_from(query, 0) {
                &&& end > j
                &&& spec_decode_url(s.subrange(j, end)) is Err
            } else {
                &&& end == base.len()
                &&& s.subrange(j, end) == base.subrange(j, end)
                &&& query_after(s, end) == Some(query)
            }
        }),
{
    let s = link_with(base, query);
    let n = base.len() as int;
    assert(free_of(seq!['/'], '?'));
    assert(s[n] == '?');
    assert(s.subrange(n + 1, s.len() as int) =~= query);
    lemma_find_from(base, seq!['/'], j);
    lemma_find_from(s, seq!['/'], j);
    lemma_find_in_head(base, '?', query, seq!['/'], j);
    match find_from(base, seq!['/'], j) {
        Some(c) => {
            assert(s.subrange(j, c) =~= base.subrange(j, c));
            lemma_find_separator(base, '?', query, c);
        },
        None => {
            match find_from(s, seq!['/'], j) {
                Some(k) => {
                    assert(s.subrange(k, k + 1)[0] == s[k]);
                    assert(query[k - n - 1] == '/');
                    let payload = s.subrange(j, k);
                    assert(payload[n - j] == '?');
                    lemma_foreign_character_is_refused(payload, n - j);
                },
                None => {
                    assert forall|m: int| 0 <= m < query.len() implies query[m] != '/' by {
                        if query[m] == '/' {
                            assert(s.subrange(n + 1 + m, n + 1 + m + 1) =~= seq!['/']);
                            assert(occurs_at(s, seq!['/'], n + 1 + m));
                        }
                    }
                    lemma_find_separator(base, '?', query, j);
                    lemma_find_separator(base, '?', query, n);
                    assert(s.subrange(j, n) =~= base.subrange(j, n));
                },
            }
        },
    }
}

/// The order of the pairs of the query string does not matter, whatever
/// stands before the query string: two links that are alike up to their
/// first `?`, and whose query strings hold the same pairs and name no
/// parameter twice, are accepted or refused together and make the same
/// request.
pub proof fn lemma_order_in_links(base: Seq<char>, one: Seq<char>, other: Seq<char>)
    requires
        free_of(base, '?'),
        same_pairs(split(one, '&'), split(other, '&')),
        no_parameter_twice(split(one, '&')),
        no_parameter_twice(split(other, '&')),
    ensures
        spec_parse(link_with(base, one)) is Ok <==> spec_parse(link_with(base, other)) is Ok,
        spec_parse(link_with(base, one)) is Ok ==> spec_parse(link_with(base, one)) == spec_parse(
            link_with(base, other),
        ),
{
    lemma_header_of_link(base, one);
    lemma_header_of_link(base, other);
    if let Ok((scheme, plugin, j)) = spec_header(base) {
        lemma_payload_of_link(base, one, j);
        lemma_payload_of_link(base, other, j);
        lemma_split_holds(one, '&', 0, '/');
        lemma_split_holds(other, '&', 0, '/');
        assert(slash_from(one, 0) <==> slash_from(other, 0)) by {
            let a = split(one, '&');
            let b = split(other, '&');
            if some_piece_holds(a, '/') {
                let p = choose|p: int| 0 <= p < a.len() && (#[trigger] a[p]).contains('/');
                assert(a.contains(a[p]));
                assert(b.contains(a[p]));
                let r = choose|r: int| 0 <= r < b.len() && b[r] == a[p];
                assert(b[r].contains('/'));
            }
            if some_piece_holds(b, '/') {
                let p = choose|p: int| 0 <= p < b.len() && (#[trigger] b[p]).contains('/');
                assert(b.contains(b[p]));
                assert(a.contains(b[p]));
                let r = choose|r: int| 0 <= r < a.len() && a[r] == b[p];
                assert(a[r].contains('/'));
            }
        }
        lemma_order_of_query(one, other);
    }
}

} // verus!
