//! The query string of a link: pairs `key=value`, joined by `&`.
//!
//! The pairs are read from left to right. A pair must hold exactly one `=`
//! and a value behind it. A key that is given twice keeps its last value. A
//! pair with a key that is not known is passed over: links written for a
//! later version of the handler stay usable.

use crate::decode::{decode_txt, decode_url, is_safe_url, spec_decode_txt, spec_decode_url};
use crate::error::{Error, ErrorView};
use crate::text::{
    chars_of, find, find_from, same_text, slice_view, slice_views, split, split_text,
    string_view,
};
use vstd::prelude::*;
use vstd::string::{StrSliceExecFns, StringExecFns};

verus! {

/// The keys that a query string may set.
#[derive(Debug, Clone, Copy, PartialEq, Eq, Structural)]
pub enum Parameter {
    Cookies,
    Profile,
    Quality,
    VCodec,
    VTitle,
    Subfile,
    Startat,
    Referrer,
}

/// The parameter that a key stands for. Keys are case-sensitive.
pub open spec fn parameter_named(key: Seq<char>) -> Option<Parameter> {
    if key == "cookies"@ {
        Some(Parameter::Cookies)
    } else if key == "profile"@ {
        Some(Parameter::Profile)
    } else if key == "quality"@ {
        Some(Parameter::Quality)
    } else if key == "v_codec"@ {
        Some(Parameter::VCodec)
    } else if key == "v_title"@ {
        Some(Parameter::VTitle)
    } else if key == "subfile"@ {
        Some(Parameter::Subfile)
    } else if key == "startat"@ {
        Some(Parameter::Startat)
    } else if key == "referrer"@ {
        Some(Parameter::Referrer)
    } else {
        None
    }
}

/// Key and value of a pair: the pair holds exactly one `=`, and something
/// follows it.
pub open spec fn spec_pair(pair: Seq<char>) -> Result<(Seq<char>, Seq<char>), ErrorView> {
    match find_from(pair, seq!['='], 0) {
        Some(i) => if i + 1 < pair.len() && find_from(pair, seq!['='], i + 1) is None {
            Ok((pair.subrange(0, i), pair.subrange(i + 1, pair.len() as int)))
        } else {
            Err(ErrorView::MalformedParameter(pair))
        },
        None => Err(ErrorView::MalformedParameter(pair)),
    }
}

/// What is stored for `parameter` when the query string gives it `raw`:
/// title and referrer are decoded to text, the subtitle file to a checked
/// URL, the others are taken as they stand.
pub open spec fn spec_value(parameter: Parameter, raw: Seq<char>) -> Result<
    Seq<char>,
    ErrorView,
> {
    match parameter {
        Parameter::VTitle | Parameter::Referrer => spec_decode_txt(raw),
        Parameter::Subfile => spec_decode_url(raw),
        _ => Ok(raw),
    }
}

/// What one pair of the query string sets: a parameter and its value,
/// nothing where the key is unknown, or the reason why the pair is refused.
pub open spec fn spec_setting(pair: Seq<char>) -> Result<
    Option<(Parameter, Seq<char>)>,
    ErrorView,
> {
    match spec_pair(pair) {
        Ok((key, raw)) => match parameter_named(key) {
            Some(parameter) => match spec_value(parameter, raw) {
                Ok(value) => Ok(Some((parameter, value))),
                Err(e) => Err(e),
            },
            None => Ok(None),
        },
        Err(e) => Err(e),
    }
}

/// What the pairs set, from left to right. The first pair that is refused
/// decides the error.
pub open spec fn spec_settings(pairs: Seq<Seq<char>>) -> Result<
    Seq<(Parameter, Seq<char>)>,
    ErrorView,
>
    decreases pairs.len(),
{
    if pairs.len() == 0 {
        Ok(Seq::empty())
    } else {
        match spec_settings(pairs.drop_last()) {
            Ok(settings) => match spec_setting(pairs.last()) {
                Ok(Some(setting)) => Ok(settings.push(setting)),
                Ok(None) => Ok(settings),
                Err(e) => Err(e),
            },
            Err(e) => Err(e),
        }
    }
}

/// The value that the last setting of `parameter` gives it.
pub open spec fn last_value(settings: Seq<(Parameter, Seq<char>)>, parameter: Parameter) -> Option<
    Seq<char>,
>
    decreases settings.len(),
{
    if settings.len() == 0 {
        None
    } else if settings.last().0 == parameter {
        Some(settings.last().1)
    } else {
        last_value(settings.drop_last(), parameter)
    }
}

/// What a query string asks for. A parameter that is not set is absent; an
/// empty text never stands for absence.
#[derive(Debug, PartialEq)]
pub struct Parameters<'a> {
    pub cookies: Option<&'a str>,
    pub profile: Option<&'a str>,
    pub quality: Option<&'a str>,
    pub v_codec: Option<&'a str>,
    pub v_title: Option<String>,
    /// The decoded URL of a subtitle file; its transport scheme is on the
    /// allow-list.
    pub subfile: Option<String>,
    pub startat: Option<&'a str>,
    pub referrer: Option<String>,
}

/// The mathematical value of [`Parameters`].
pub ghost struct ParametersView {
    pub cookies: Option<Seq<char>>,
    pub profile: Option<Seq<char>>,
    pub quality: Option<Seq<char>>,
    pub v_codec: Option<Seq<char>>,
    pub v_title: Option<Seq<char>>,
    pub subfile: Option<Seq<char>>,
    pub startat: Option<Seq<char>>,
    pub referrer: Option<Seq<char>>,
}

impl<'a> View for Parameters<'a> {
    type V = ParametersView;

    open spec fn view(&self) -> ParametersView {
        ParametersView {
            cookies: slice_view(self.cookies),
            profile: slice_view(self.profile),
            quality: slice_view(self.quality),
            v_codec: slice_view(self.v_codec),
            v_title: string_view(self.v_title),
            subfile: string_view(self.subfile),
            startat: slice_view(self.startat),
            referrer: string_view(self.referrer),
        }
    }
}

/// The parameters after the settings were made in their order: each has
/// the value of its last setting.
pub open spec fn parameters_of(settings: Seq<(Parameter, Seq<char>)>) -> ParametersView {
    ParametersView {
        cookies: last_value(settings, Parameter::Cookies),
        profile: last_value(settings, Parameter::Profile),
        quality: last_value(settings, Parameter::Quality),
        v_codec: last_value(settings, Parameter::VCodec),
        v_title: last_value(settings, Parameter::VTitle),
        subfile: last_value(settings, Parameter::Subfile),
        startat: last_value(settings, Parameter::Startat),
        referrer: last_value(settings, Parameter::Referrer),
    }
}

/// The parameters after one of them got a value.
pub open spec fn with_value(
    p: ParametersView,
    parameter: Parameter,
    value: Seq<char>,
) -> ParametersView {
    match parameter {
        Parameter::Cookies => ParametersView { cookies: Some(value), ..p },
        Parameter::Profile => ParametersView { profile: Some(value), ..p },
        Parameter::Quality => ParametersView { quality: Some(value), ..p },
        Parameter::VCodec => ParametersView { v_codec: Some(value), ..p },
        Parameter::VTitle => ParametersView { v_title: Some(value), ..p },
        Parameter::Subfile => ParametersView { subfile: Some(value), ..p },
        Parameter::Startat => ParametersView { startat: Some(value), ..p },
        Parameter::Referrer => ParametersView { referrer: Some(value), ..p },
    }
}

/// The parameters of a link without a query string: none is set.
pub open spec fn no_parameters() -> ParametersView {
    ParametersView {
        cookies: None,
        profile: None,
        quality: None,
        v_codec: None,
        v_title: None,
        subfile: None,
        startat: None,
        referrer: None,
    }
}

/// What a query string asks for, or the reason why its first faulty pair
/// is refused.
pub open spec fn spec_extract(query: Seq<char>) -> Result<ParametersView, ErrorView> {
    match spec_settings(split(query, '&')) {
        Ok(settings) => Ok(parameters_of(settings)),
        Err(e) => Err(e),
    }
}

/// The value of a result of [`Parameters::extract`].
pub open spec fn extract_result_view(r: Result<Parameters<'_>, Error>) -> Result<
    ParametersView,
    ErrorView,
> {
    match r {
        Ok(p) => Ok(p@),
        Err(e) => Err(e@),
    }
}

/// The parameter that `key` stands for.
pub fn parameter_of(key: &str) -> (r: Option<Parameter>)
    ensures
        r == parameter_named(key@),
{
    if same_text(key, "cookies") {
        Some(Parameter::Cookies)
    } else if same_text(key, "profile") {
        Some(Parameter::Profile)
    } else if same_text(key, "quality") {
        Some(Parameter::Quality)
    } else if same_text(key, "v_codec") {
        Some(Parameter::VCodec)
    } else if same_text(key, "v_title") {
        Some(Parameter::VTitle)
    } else if same_text(key, "subfile") {
        Some(Parameter::Subfile)
    } else if same_text(key, "startat") {
        Some(Parameter::Startat)
    } else if same_text(key, "referrer") {
        Some(Parameter::Referrer)
    } else {
        None
    }
}

/// Cuts a pair of the query string into key and value.
///
/// The pair must hold exactly one `=` and a value behind it; the key may be
/// empty.
pub fn split_pair<'a>(pair: &'a str) -> (r: Result<(&'a str, &'a str), Error>)
    ensures
        match r {
            Ok((key, value)) => spec_pair(pair@) == Ok::<_, ErrorView>((key@, value@)),
            Err(e) => spec_pair(pair@) == Err::<(Seq<char>, Seq<char>), _>(e@),
        },
{
    let chars = chars_of(pair);
    let n: usize = chars.len();
    let eq: Vec<char> = vec!['='];
    assert(eq@ == seq!['=']);
    match find(&chars, &eq, 0) {
        Some(i) => {
            if i + 1 < n && find(&chars, &eq, i + 1).is_none() {
                Ok((pair.substring_char(0, i), pair.substring_char(i + 1, n)))
            } else {
                Err(Error::MalformedParameter(String::from_str(pair)))
            }
        },
        None => Err(Error::MalformedParameter(String::from_str(pair))),
    }
}

/// Taking one more pair into account extends the settings by what it sets.
pub proof fn lemma_settings_step(pairs: Seq<Seq<char>>, k: int)
    requires
        0 <= k < pairs.len(),
    ensures
        spec_settings(pairs.take(k + 1)) == match spec_settings(pairs.take(k)) {
            Ok(settings) => match spec_setting(pairs[k]) {
                Ok(Some(setting)) => Ok(settings.push(setting)),
                Ok(None) => Ok(settings),
                Err(e) => Err(e),
            },
            Err(e) => Err(e),
        },
{
    assert(pairs.take(k + 1).drop_last() == pairs.take(k));
}

/// An error among the first `k` pairs is the error of all the pairs.
pub proof fn lemma_settings_error(pairs: Seq<Seq<char>>, k: int)
    requires
        0 <= k <= pairs.len(),
        spec_settings(pairs.take(k)) is Err,
    ensures
        spec_settings(pairs) == spec_settings(pairs.take(k)),
    decreases pairs.len() - k,
{
    if k == pairs.len() {
        assert(pairs.take(k) == pairs);
    } else {
        lemma_settings_step(pairs, k);
        lemma_settings_error(pairs, k + 1);
    }
}

/// A new setting decides the value of its own parameter and of no other.
pub proof fn lemma_last_value_push(
    settings: Seq<(Parameter, Seq<char>)>,
    setting: (Parameter, Seq<char>),
    parameter: Parameter,
)
    ensures
        last_value(settings.push(setting), parameter) == if setting.0 == parameter {
            Some(setting.1)
        } else {
            last_value(settings, parameter)
        },
{
    assert(settings.push(setting).drop_last() == settings);
}

/// One more setting gives its parameter its value and leaves the others
/// as they were.
pub proof fn lemma_parameters_push(
    settings: Seq<(Parameter, Seq<char>)>,
    parameter: Parameter,
    value: Seq<char>,
)
    ensures
        parameters_of(settings.push((parameter, value))) == with_value(
            parameters_of(settings),
            parameter,
            value,
        ),
{
    let setting = (parameter, value);
    lemma_last_value_push(settings, setting, Parameter::Cookies);
    lemma_last_value_push(settings, setting, Parameter::Profile);
    lemma_last_value_push(settings, setting, Parameter::Quality);
    lemma_last_value_push(settings, setting, Parameter::VCodec);
    lemma_last_value_push(settings, setting, Parameter::VTitle);
    lemma_last_value_push(settings, setting, Parameter::Subfile);
    lemma_last_value_push(settings, setting, Parameter::Startat);
    lemma_last_value_push(settings, setting, Parameter::Referrer);
}

impl<'a> Parameters<'a> {
    /// The parameters of a link without a query string.
    pub fn new() -> (r: Parameters<'a>)
        ensures
            r@ == no_parameters(),
    {
        Parameters {
            cookies: None,
            profile: None,
            quality: None,
            v_codec: None,
            v_title: None,
            subfile: None,
            startat: None,
            referrer: None,
        }
    }

    /// Stores the value of one parameter that is taken as it stands.
    fn set_slice(&mut self, parameter: Parameter, value: &'a str)
        requires
            parameter != Parameter::VTitle,
            parameter != Parameter::Subfile,
            parameter != Parameter::Referrer,
        ensures
            final(self)@ == with_value(old(self)@, parameter, value@),
    {
        match parameter {
            Parameter::Cookies => {
                self.cookies = Some(value);
            },
            Parameter::Profile => {
                self.profile = Some(value);
            },
            Parameter::Quality => {
                self.quality = Some(value);
            },
            Parameter::VCodec => {
                self.v_codec = Some(value);
            },
            _ => {
                self.startat = Some(value);
            },
        }
    }

    /// Stores the decoded value of one parameter.
    fn set_string(&mut self, parameter: Parameter, value: String)
        requires
            parameter == Parameter::VTitle || parameter == Parameter::Subfile || parameter
                == Parameter::Referrer,
        ensures
            final(self)@ == with_value(old(self)@, parameter, value@),
    {
        match parameter {
            Parameter::VTitle => {
                self.v_title = Some(value);
            },
            Parameter::Subfile => {
                self.subfile = Some(value);
            },
            _ => {
                self.referrer = Some(value);
            },
        }
    }

    /// Reads the pairs of a query string.
    ///
    /// The pairs are taken from left to right, and the first one that is
    /// refused ends the reading: a pair that is not of the form
    /// `key=value`, or a value of `v_title`, `subfile` or `referrer` that
    /// cannot be decoded. A pair with an unknown key is passed over.
    pub fn extract(query: &'a str) -> (r: Result<Parameters<'a>, Error>)
        ensures
            extract_result_view(r) == spec_extract(query@),
            r matches Ok(p) ==> (p.subfile matches Some(url) ==> is_safe_url(url@)),
    {
        proof {
            lemma_subfile_is_safe(query@);
        }
        let mut parameters = Parameters::new();
        let ghost mut settings: Seq<(Parameter, Seq<char>)> = Seq::empty();
        let pairs = split_text(query, '&');
        let ghost texts = split(query@, '&');
        let mut k: usize = 0;
        while k < pairs.len()
            invariant
                k <= pairs.len(),
                texts == split(query@, '&'),
                slice_views(pairs@) == texts,
                spec_settings(texts.take(k as int)) == Ok::<_, ErrorView>(settings),
                parameters@ == parameters_of(settings),
            decreases pairs.len() - k,
        {
            let pair: &'a str = pairs[k];
            proof {
                lemma_settings_step(texts, k as int);
            }
            let (key, value) = match split_pair(pair) {
                Ok(kv) => kv,
                Err(e) => {
                    proof {
                        lemma_settings_error(texts, k + 1);
                    }
                    return Err(e);
                },
            };
            match parameter_of(key) {
                Some(Parameter::VTitle) => match decode_txt(value) {
                    Ok(text) => {
                        proof {
                            lemma_parameters_push(settings, Parameter::VTitle, text@);
                            settings = settings.push((Parameter::VTitle, text@));
                        }
                        parameters.set_string(Parameter::VTitle, text);
                    },
                    Err(e) => {
                        proof {
                            lemma_settings_error(texts, k + 1);
                        }
                        return Err(e);
                    },
                },
                Some(Parameter::Referrer) => match decode_txt(value) {
                    Ok(text) => {
                        proof {
                            lemma_parameters_push(settings, Parameter::Referrer, text@);
                            settings = settings.push((Parameter::Referrer, text@));
                        }
                        parameters.set_string(Parameter::Referrer, text);
                    },
                    Err(e) => {
                        proof {
                            lemma_settings_error(texts, k + 1);
                        }
                        return Err(e);
                    },
                },
                Some(Parameter::Subfile) => match decode_url(value) {
                    Ok(url) => {
                        proof {
                            lemma_parameters_push(settings, Parameter::Subfile, url@);
                            settings = settings.push((Parameter::Subfile, url@));
                        }
                        parameters.set_string(Parameter::Subfile, url);
                    },
                    Err(e) => {
                        proof {
                            lemma_settings_error(texts, k + 1);
                        }
                        return Err(e);
                    },
                },
                Some(parameter) => {
                    proof {
                        lemma_parameters_push(settings, parameter, value@);
                        settings = settings.push((parameter, value@));
                    }
                    parameters.set_slice(parameter, value);
                },
                None => {},
            }
            k += 1;
        }
        assert(texts.take(k as int) == texts);
        Ok(parameters)
    }
}

/// The parameter that a pair names: its key, where the pair is well-formed
/// and the key is known.
pub open spec fn parameter_in(pair: Seq<char>) -> Option<Parameter> {
    match spec_pair(pair) {
        Ok((key, _)) => parameter_named(key),
        Err(_) => None,
    }
}

/// Whether no parameter is named by two of the pairs.
pub open spec fn no_parameter_twice(pairs: Seq<Seq<char>>) -> bool {
    forall|i: int, j: int|
        #![trigger pairs[i], pairs[j]]
        0 <= i < j < pairs.len() && parameter_in(pairs[i]) is Some ==> parameter_in(pairs[i])
            != parameter_in(pairs[j])
}

/// Whether every pair of the one list stands in the other too.
pub open spec fn same_pairs(a: Seq<Seq<char>>, b: Seq<Seq<char>>) -> bool {
    forall|pair: Seq<char>| a.contains(pair) <==> b.contains(pair)
}

/// The pairs are accepted together exactly when each of them is.
pub proof fn lemma_settings_ok(pairs: Seq<Seq<char>>)
    ensures
        spec_settings(pairs) is Ok <==> forall|i: int|
            0 <= i < pairs.len() ==> spec_setting(#[trigger] pairs[i]) is Ok,
    decreases pairs.len(),
{
    if pairs.len() > 0 {
        let front = pairs.drop_last();
        lemma_settings_ok(front);
        if spec_settings(pairs) is Ok {
            assert forall|i: int| 0 <= i < pairs.len() implies spec_setting(
                #[trigger] pairs[i],
            ) is Ok by {
                if i < front.len() {
                    assert(front[i] == pairs[i]);
                }
            }
        }
        if forall|i: int| 0 <= i < pairs.len() ==> spec_setting(#[trigger] pairs[i]) is Ok {
            assert forall|i: int| 0 <= i < front.len() implies spec_setting(
                #[trigger] front[i],
            ) is Ok by {}
        }
    }
}

/// The value that a parameter has was set by one of the pairs.
pub proof fn lemma_value_was_set(
    pairs: Seq<Seq<char>>,
    settings: Seq<(Parameter, Seq<char>)>,
    parameter: Parameter,
    value: Seq<char>,
) -> (i: int)
    requires
        spec_settings(pairs) == Ok::<_, ErrorView>(settings),
        last_value(settings, parameter) == Some(value),
    ensures
        0 <= i < pairs.len(),
        spec_setting(pairs[i]) == Ok::<_, ErrorView>(Some((parameter, value))),
    decreases pairs.len(),
{
    let front = pairs.drop_last();
    let before = spec_settings(front)->Ok_0;
    match spec_setting(pairs.last()) {
        Ok(Some(setting)) => {
            lemma_last_value_push(before, setting, parameter);
            if setting.0 == parameter {
                pairs.len() - 1
            } else {
                lemma_value_was_set(front, before, parameter, value)
            }
        },
        _ => lemma_value_was_set(front, before, parameter, value),
    }
}

/// The one pair that names a parameter decides its value.
pub proof fn lemma_only_setting_decides(
    pairs: Seq<Seq<char>>,
    settings: Seq<(Parameter, Seq<char>)>,
    i: int,
    parameter: Parameter,
    value: Seq<char>,
)
    requires
        spec_settings(pairs) == Ok::<_, ErrorView>(settings),
        0 <= i < pairs.len(),
        spec_setting(pairs[i]) == Ok::<_, ErrorView>(Some((parameter, value))),
        forall|j: int|
            0 <= j < pairs.len() && j != i ==> parameter_in(#[trigger] pairs[j]) != Some(
                parameter,
            ),
    ensures
        last_value(settings, parameter) == Some(value),
    decreases pairs.len(),
{
    let front = pairs.drop_last();
    let before = spec_settings(front)->Ok_0;
    if i != pairs.len() - 1 {
        assert forall|j: int| 0 <= j < front.len() && j != i implies parameter_in(
            #[trigger] front[j],
        ) != Some(parameter) by {}
        lemma_only_setting_decides(front, before, i, parameter, value);
        match spec_setting(pairs.last()) {
            Ok(Some(setting)) => {
                lemma_last_value_push(before, setting, parameter);
            },
            _ => {},
        }
    }
}

/// A value that one list of pairs gives a parameter is given by every
/// list that holds the same pairs and names no parameter twice.
proof fn lemma_value_carries(
    one: Seq<Seq<char>>,
    other: Seq<Seq<char>>,
    parameter: Parameter,
    value: Seq<char>,
)
    requires
        spec_settings(one) is Ok,
        spec_settings(other) is Ok,
        forall|pair: Seq<char>| one.contains(pair) ==> other.contains(pair),
        no_parameter_twice(other),
        last_value(spec_settings(one)->Ok_0, parameter) == Some(value),
    ensures
        last_value(spec_settings(other)->Ok_0, parameter) == Some(value),
{
    let i = lemma_value_was_set(one, spec_settings(one)->Ok_0, parameter, value);
    assert(other.contains(one[i]));
    let j = choose|j: int| 0 <= j < other.len() && other[j] == one[i];
    assert forall|k: int| 0 <= k < other.len() && k != j implies parameter_in(
        #[trigger] other[k],
    ) != Some(parameter) by {
        if k < j {
            assert(parameter_in(other[k]) is Some ==> parameter_in(other[k]) != parameter_in(
                other[j],
            ));
        }
    }
    lemma_only_setting_decides(other, spec_settings(other)->Ok_0, j, parameter, value);
}

/// The order of the pairs does not matter: two lists that hold the same
/// pairs, and name no parameter twice, are accepted or refused together
/// and give every parameter the same value.
pub proof fn lemma_order_of_pairs(one: Seq<Seq<char>>, other: Seq<Seq<char>>)
    requires
        same_pairs(one, other),
        no_parameter_twice(one),
        no_parameter_twice(other),
    ensures
        spec_settings(one) is Ok <==> spec_settings(other) is Ok,
        forall|parameter: Parameter|
            spec_settings(one) is Ok ==> #[trigger] last_value(
                spec_settings(one)->Ok_0,
                parameter,
            ) == last_value(spec_settings(other)->Ok_0, parameter),
{
    lemma_settings_ok(one);
    lemma_settings_ok(other);
    if spec_settings(one) is Ok {
        assert forall|j: int| 0 <= j < other.len() implies spec_setting(
            #[trigger] other[j],
        ) is Ok by {
            assert(one.contains(other[j]));
        }
    }
    if spec_settings(other) is Ok {
        assert forall|i: int| 0 <= i < one.len() implies spec_setting(#[trigger] one[i]) is Ok by {
            assert(other.contains(one[i]));
        }
    }
    if spec_settings(one) is Ok {
        let a = spec_settings(one)->Ok_0;
        let b = spec_settings(other)->Ok_0;
        assert forall|parameter: Parameter| #[trigger]
            last_value(a, parameter) == last_value(b, parameter) by {
            match last_value(a, parameter) {
                Some(value) => {
                    lemma_value_carries(one, other, parameter, value);
                },
                None => {
                    if let Some(value) = last_value(b, parameter) {
                        lemma_value_carries(other, one, parameter, value);
                    }
                },
            }
        }
    }
}

/// The order of the pairs in a query string does not matter: two query
/// strings that hold the same pairs, and name no parameter twice, are
/// accepted or refused together and ask for the same.
pub proof fn lemma_order_of_query(one: Seq<char>, other: Seq<char>)
    requires
        same_pairs(split(one, '&'), split(other, '&')),
        no_parameter_twice(split(one, '&')),
        no_parameter_twice(split(other, '&')),
    ensures
        spec_extract(one) is Ok <==> spec_extract(other) is Ok,
        spec_extract(one) is Ok ==> spec_extract(one) == spec_extract(other),
{
    lemma_order_of_pairs(split(one, '&'), split(other, '&'));
}

/// A subtitle file that a query string names has a transport scheme of
/// the allow-list.
pub proof fn lemma_subfile_is_safe(query: Seq<char>)
    ensures
        spec_extract(query) matches Ok(p) ==> (p.subfile matches Some(url) ==> is_safe_url(url)),
{
    if let Ok(p) = spec_extract(query) {
        if let Some(url) = p.subfile {
            let pairs = split(query, '&');
            let settings = spec_settings(pairs)->Ok_0;
            let i = lemma_value_was_set(pairs, settings, Parameter::Subfile, url);
        }
    }
}

} // verus!
