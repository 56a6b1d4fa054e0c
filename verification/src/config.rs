//! The settings of the handler, as the caller has read them.

use crate::command::pair_views;
use crate::error::Error;
use crate::handler::{HandlerError, HandlerErrorView};
use crate::text::{chars_of, same_text, slice_view, string_view, views};
use vstd::prelude::*;
use vstd::string::StringExecFns;

verus! {

/// Settings of the handler.
///
/// - `mpv`: path of the mpv binary
/// - `ytdl`: path of the yt-dlp binary
/// - `proxy`: address of the HTTP(S) proxy server
#[derive(Debug)]
pub struct Config {
    pub mpv: Option<String>,
    pub ytdl: Option<String>,
    pub proxy: Option<String>,
}

/// The mathematical value of a [`Config`].
pub ghost struct ConfigView {
    pub mpv: Option<Seq<char>>,
    pub ytdl: Option<Seq<char>>,
    pub proxy: Option<Seq<char>>,
}

impl View for Config {
    type V = ConfigView;

    open spec fn view(&self) -> ConfigView {
        ConfigView {
            mpv: string_view(self.mpv),
            ytdl: string_view(self.ytdl),
            proxy: string_view(self.proxy),
        }
    }
}

/// The settings that hold where no file gives any: nothing is set.
pub fn default_config() -> (config: Config)
    ensures
        config@ == (ConfigView { mpv: None, ytdl: None, proxy: None }),
{
    Config { mpv: None, ytdl: None, proxy: None }
}

/// A cookies file as the caller found it: its path under the directory of
/// cookies files, and whether a file is there.
#[derive(Debug)]
pub struct CookieFile {
    pub path: String,
    pub exists: bool,
}

/// The path of a cookies file that is there; nothing for one that is
/// missing or that could not be looked for.
pub open spec fn found_path(file: Option<&CookieFile>) -> Option<Seq<char>> {
    match file {
        Some(f) => if f.exists {
            Some(f.path@)
        } else {
            None
        },
        None => None,
    }
}

/// Whether `name` names a file in the directory of cookies files itself:
/// it is not empty, is neither `.` nor `..`, and holds no `/`, no `\\` and
/// no `:`, so that no path made of the directory and the name leaves the
/// directory.
pub open spec fn is_file_name(name: Seq<char>) -> bool {
    &&& name.len() > 0
    &&& name != "."@
    &&& name != ".."@
    &&& forall|i: int|
        0 <= i < name.len() ==> name[i] != '/' && name[i] != '\\' && name[i] != ':'
}

/// The path of the cookies file that a request asks for: that of a file
/// that is there, under a name that stays in the directory of cookies
/// files.
pub open spec fn cookies_path(wanted: Option<Seq<char>>, file: Option<&CookieFile>) -> Option<
    Seq<char>,
> {
    match wanted {
        Some(name) => if is_file_name(name) {
            found_path(file)
        } else {
            None
        },
        None => None,
    }
}

/// Whether `name` names a file in the directory of cookies files itself.
/// The caller looks for no other file.
pub fn names_file(name: &str) -> (r: bool)
    ensures
        r == is_file_name(name@),
{
    if same_text(name, ".") || same_text(name, "..") {
        return false;
    }
    let chars = chars_of(name);
    let mut k: usize = 0;
    while k < chars.len()
        invariant
            k <= chars.len(),
            chars@ == name@,
            forall|i: int|
                0 <= i < k ==> name@[i] != '/' && name@[i] != '\\' && name@[i] != ':',
        decreases chars.len() - k,
    {
        let c = chars[k];
        if c == '/' || c == '\\' || c == ':' {
            return false;
        }
        k += 1;
    }
    chars.len() > 0
}

/// The cookies file that counts for a request: the one that the caller
/// found, where the request asks for one under a name that stays in the
/// directory of cookies files.
pub fn cookies_file<'a>(wanted: Option<&str>, file: Option<&'a CookieFile>) -> (r: Option<
    &'a CookieFile,
>)
    ensures
        found_path(r) == cookies_path(slice_view(wanted), file),
        r is Some ==> r == file,
{
    match wanted {
        Some(name) => if names_file(name) {
            file
        } else {
            None
        },
        None => None,
    }
}

/// Whether a request asks for a cookies file that is not there, or that
/// must not be looked for, so that the cookies option is left out or
/// refused.
pub fn cookies_missing(wanted: Option<&str>, file: Option<&CookieFile>) -> (r: bool)
    ensures
        r == (wanted is Some && cookies_path(slice_view(wanted), file) is None),
{
    match wanted {
        Some(_) => match cookies_file(wanted, file) {
            Some(f) => !f.exists,
            None => true,
        },
        None => false,
    }
}

/// How downloader and player are chained.
#[derive(Debug, Clone, Copy, PartialEq, Eq, Structural)]
pub enum PlayMode {
    /// The downloader starts the player itself and is told where it is.
    Normal,
    /// The downloader plays by itself.
    Direct,
    /// The downloader writes the media to a pipe that the player reads.
    Pipe,
}

/// One downloader of the settings: its binary and how its options are
/// written. A record may be incomplete as long as nothing uses it: binary
/// path and quality entries are checked when they are asked for.
#[derive(Debug)]
pub struct DownloaderProfile {
    /// The name under which the settings hold this downloader.
    pub name: String,
    /// Path of the executable.
    pub binary_path: String,
    /// The option that names the cookies file.
    pub cookies_option_template: String,
    /// Whether option and path of the cookies file make one argument;
    /// otherwise they are two.
    pub cookies_prefix_mode: bool,
    /// Whether a cookies file that is asked for and missing is an error;
    /// otherwise the option is left out.
    pub require_cookies: bool,
    /// What stands before the name of a profile.
    pub profile_option_template: String,
    /// What stands before the filter expression of quality and codec.
    pub quality_option_template: String,
    /// Whether a request must name a quality.
    pub require_quality: bool,
    /// Quality labels and the filter expressions they stand for. Where a
    /// label stands twice, the first entry counts.
    pub quality_table: Vec<(String, String)>,
    /// Arguments that are always appended, in this order.
    pub extra_options: Vec<String>,
    /// Options of the player in the modes that start one.
    pub player_options: Vec<String>,
    pub play_mode: PlayMode,
}

/// The mathematical value of a [`DownloaderProfile`].
pub ghost struct DownloaderView {
    pub name: Seq<char>,
    pub binary_path: Seq<char>,
    pub cookies_option_template: Seq<char>,
    pub cookies_prefix_mode: bool,
    pub require_cookies: bool,
    pub profile_option_template: Seq<char>,
    pub quality_option_template: Seq<char>,
    pub require_quality: bool,
    pub quality_table: Seq<(Seq<char>, Seq<char>)>,
    pub extra_options: Seq<Seq<char>>,
    pub player_options: Seq<Seq<char>>,
    pub play_mode: PlayMode,
}

impl View for DownloaderProfile {
    type V = DownloaderView;

    open spec fn view(&self) -> DownloaderView {
        DownloaderView {
            name: self.name@,
            binary_path: self.binary_path@,
            cookies_option_template: self.cookies_option_template@,
            cookies_prefix_mode: self.cookies_prefix_mode,
            require_cookies: self.require_cookies,
            profile_option_template: self.profile_option_template@,
            quality_option_template: self.quality_option_template@,
            require_quality: self.require_quality,
            quality_table: pair_views(self.quality_table@),
            extra_options: views(self.extra_options@),
            player_options: views(self.player_options@),
            play_mode: self.play_mode,
        }
    }
}

/// What the first entry of `table` under `key` holds.
pub open spec fn lookup(table: Seq<(Seq<char>, Seq<char>)>, key: Seq<char>) -> Option<Seq<char>>
    decreases table.len(),
{
    if table.len() == 0 {
        None
    } else if table[0].0 == key {
        Some(table[0].1)
    } else {
        lookup(table.drop_first(), key)
    }
}

/// The filter expression that `table` gives for a quality label: the label
/// must have an entry, and the entry must not be empty.
pub open spec fn spec_quality(table: Seq<(Seq<char>, Seq<char>)>, label: Seq<char>) -> Result<
    Seq<char>,
    HandlerErrorView,
> {
    match lookup(table, label) {
        Some(expression) => if expression.len() == 0 {
            Err(HandlerErrorView::EmptyQualityValue(label))
        } else {
            Ok(expression)
        },
        None => Err(HandlerErrorView::UnknownQuality(label)),
    }
}

/// The first of `profiles` that has the name `name`.
pub open spec fn spec_downloader(profiles: Seq<DownloaderProfile>, name: Seq<char>) -> Option<
    DownloaderProfile,
>
    decreases profiles.len(),
{
    if profiles.len() == 0 {
        None
    } else if profiles[0].name@ == name {
        Some(profiles[0])
    } else {
        spec_downloader(profiles.drop_first(), name)
    }
}

/// Looks a downloader up by its name. Where two have the name, the first
/// is taken.
pub fn downloader<'a>(profiles: &'a Vec<DownloaderProfile>, name: &str) -> (r: Result<
    &'a DownloaderProfile,
    HandlerError,
>)
    ensures
        match r {
            Ok(d) => spec_downloader(profiles@, name@) == Some(*d),
            Err(e) => spec_downloader(profiles@, name@) is None
                && e@ == HandlerErrorView::UnknownDownloader(name@),
        },
{
    let mut k: usize = 0;
    assert(profiles@.skip(0) == profiles@);
    while k < profiles.len()
        invariant
            k <= profiles.len(),
            spec_downloader(profiles@, name@) == spec_downloader(profiles@.skip(k as int), name@),
        decreases profiles.len() - k,
    {
        assert(profiles@.skip(k as int).drop_first() == profiles@.skip(k + 1));
        if same_text(profiles[k].name.as_str(), name) {
            return Ok(&profiles[k]);
        }
        k += 1;
    }
    Err(HandlerError::UnknownDownloader(String::from_str(name)))
}

impl DownloaderProfile {
    /// The path of the downloader's binary, which must not be empty.
    pub fn bin(&self) -> (r: Result<&String, HandlerError>)
        ensures
            match r {
                Ok(path) => self@.binary_path.len() > 0 && path@ == self@.binary_path,
                Err(e) => self@.binary_path.len() == 0 && e@ == HandlerErrorView::EmptyBinary(
                    self@.name,
                ),
            },
    {
        if self.binary_path.as_str().is_empty() {
            Err(HandlerError::EmptyBinary(self.name.clone()))
        } else {
            Ok(&self.binary_path)
        }
    }

    /// The filter expression that the quality table gives for `label`.
    pub fn quality(&self, label: &str) -> (r: Result<&String, HandlerError>)
        ensures
            match r {
                Ok(expression) => spec_quality(self@.quality_table, label@) == Ok::<
                    _,
                    HandlerErrorView,
                >(expression@),
                Err(e) => spec_quality(self@.quality_table, label@) == Err::<Seq<char>, _>(e@),
            },
    {
        let ghost table = self@.quality_table;
        let mut k: usize = 0;
        assert(table.skip(0) == table);
        while k < self.quality_table.len()
            invariant
                k <= self.quality_table.len(),
                table == pair_views(self.quality_table@),
                lookup(table, label@) == lookup(table.skip(k as int), label@),
            decreases self.quality_table.len() - k,
        {
            assert(table.skip(k as int).drop_first() == table.skip(k + 1));
            let entry = &self.quality_table[k];
            if same_text(entry.0.as_str(), label) {
                if entry.1.as_str().is_empty() {
                    return Err(HandlerError::EmptyQualityValue(String::from_str(label)));
                } else {
                    return Ok(&entry.1);
                }
            }
            k += 1;
        }
        Err(HandlerError::UnknownQuality(String::from_str(label)))
    }
}

/// The name of the mpv binary where the settings give none.
pub const DEFAULT_MPV: &'static str = "mpv";

/// The name of the mpv binary on Windows where the settings give none.
pub const DEFAULT_MPV_WINDOWS: &'static str = "mpv.com";

/// The first path that is there.
pub open spec fn first_found(found: Seq<Option<Seq<char>>>) -> Option<Seq<char>>
    decreases found.len(),
{
    if found.len() == 0 {
        None
    } else if found[0] is Some {
        found[0]
    } else {
        first_found(found.drop_first())
    }
}

/// The character sequences of a list of strings that may be absent.
pub open spec fn option_views(v: Seq<Option<String>>) -> Seq<Option<Seq<char>>> {
    Seq::new(v.len(), |i: int| string_view(v[i]))
}

/// The path under which a binary is run: a relative path becomes the first
/// place at which it was found; one that was found nowhere, or that is
/// absolute, stays as it is.
pub open spec fn spec_realpath(path: Seq<char>, relative: bool, found: Seq<Option<Seq<char>>>) -> Seq<
    char,
> {
    if relative {
        match first_found(found) {
            Some(p) => p,
            None => path,
        }
    } else {
        path
    }
}

/// Chooses the path under which the binary `path` is run.
///
/// `found` holds, for every directory that is searched and in the order of
/// the search, the full path of the binary in that directory where it is
/// there.
pub fn realpath(path: &str, relative: bool, found: &Vec<Option<String>>) -> (r: Result<
    String,
    Error,
>)
    ensures
        r matches Ok(p) && p@ == spec_realpath(path@, relative, option_views(found@)),
{
    if relative {
        let ghost all = option_views(found@);
        let mut k: usize = 0;
        assert(all.skip(0) == all);
        while k < found.len()
            invariant
                k <= found.len(),
                relative,
                all == option_views(found@),
                first_found(all) == first_found(all.skip(k as int)),
            decreases found.len() - k,
        {
            assert(all.skip(k as int).drop_first() == all.skip(k + 1));
            if let Some(p) = &found[k] {
                return Ok(p.clone());
            }
            k += 1;
        }
    }
    Ok(String::from_str(path))
}

/// The default value of `Config.mpv`: `mpv`, on Windows `mpv.com`, at the
/// first place where the search found it.
pub fn default_mpv(windows: bool, found: &Vec<Option<String>>) -> (r: Result<String, Error>)
    ensures
        r matches Ok(p) && p@ == spec_realpath(
            if windows {
                DEFAULT_MPV_WINDOWS@
            } else {
                DEFAULT_MPV@
            },
            true,
            option_views(found@),
        ),
{
    if windows {
        realpath(DEFAULT_MPV_WINDOWS, true, found)
    } else {
        realpath(DEFAULT_MPV, true, found)
    }
}

} // verus!
