use mpv_handler::command::{push_all, push_optional, Outcome};
use mpv_handler::config::{Config, CookieFile};
use mpv_handler::error::Error;
use mpv_handler::plugins::play::{
    cookies, digits, exec, format_sort, formats, options, profile, referrer, startat, subfile,
    v_title, yt_path, PREFIX_COOKIES, PREFIX_FORMATS, PREFIX_PROFILE, PREFIX_REFERRER,
    PREFIX_STARTAT, PREFIX_SUBFILE, PREFIX_V_TITLE, PREFIX_YT_PATH,
};
use mpv_handler::plugins::{player_result, Plugins};
use mpv_handler::protocol::{Protocol, Schemes};

#[test]
fn test_profile_option() {
    let p = profile("low-latency");
    assert_eq!(p, format!("{PREFIX_PROFILE}low-latency"));
}

#[test]
fn test_formats_option() {
    // Only quality
    let q = formats(Some("720p"), None);
    assert_eq!(q.unwrap(), format!("{PREFIX_FORMATS}res:720"));

    // Only v_codec
    let v = formats(None, Some("vp9"));
    assert_eq!(v.unwrap(), format!("{PREFIX_FORMATS}+vcodec:vp9"));

    // Both quality and v_codec
    let qv = formats(Some("720p"), Some("vp9"));
    assert_eq!(qv.unwrap(), format!("{PREFIX_FORMATS}res:720,+vcodec:vp9"));
}

#[test]
fn test_v_title_option() {
    let t = v_title("Hello World!");
    assert_eq!(t, format!("{PREFIX_V_TITLE}Hello World!"));
}

#[test]
fn test_subfile_option() {
    let s = subfile("http://example.com/en.ass");
    assert_eq!(s, format!("{PREFIX_SUBFILE}http://example.com/en.ass"));
}

#[test]
fn test_startat_option() {
    let s = startat("233");
    assert_eq!(s, format!("{PREFIX_STARTAT}233"));
}

#[test]
fn test_referrer_option() {
    let r = referrer("http://example.com/");
    assert_eq!(r, format!("{PREFIX_REFERRER}http://example.com/"));
}

#[test]
fn test_yt_path_option() {
    let y = yt_path("/usr/bin/yt-dlp");
    assert_eq!(y, format!("{PREFIX_YT_PATH}/usr/bin/yt-dlp"));
}

fn request<'a>() -> Protocol<'a> {
    Protocol {
        scheme: Schemes::MpvHandler,
        plugin: Plugins::Play,
        url: "https://example.com/v".to_string(),
        cookies: None,
        profile: None,
        quality: None,
        v_codec: None,
        v_title: None,
        subfile: None,
        startat: None,
        referrer: None,
    }
}

fn no_config() -> Config {
    Config { mpv: None, ytdl: None, proxy: None }
}

#[test]
fn prefixes_are_those_of_mpv() {
    assert_eq!(PREFIX_COOKIES, "--ytdl-raw-options-append=cookies=");
    assert_eq!(PREFIX_PROFILE, "--profile=");
    assert_eq!(PREFIX_FORMATS, "--ytdl-raw-options-append=format-sort=");
    assert_eq!(PREFIX_V_TITLE, "--title=");
    assert_eq!(PREFIX_SUBFILE, "--sub-file=");
    assert_eq!(PREFIX_STARTAT, "--start=");
    assert_eq!(PREFIX_REFERRER, "--referrer=");
    assert_eq!(PREFIX_YT_PATH, "--script-opts=ytdl_hook-ytdl_path=");
}

#[test]
fn digits_keeps_the_numeric_characters() {
    assert_eq!(digits("720p"), "720");
    assert_eq!(digits("1080p60"), "108060");
    assert_eq!(digits("best"), "");
    assert_eq!(digits(""), "");
    assert_eq!(digits("4k"), "4");
    // the numbers of other scripts count as well
    assert_eq!(digits("\u{663}p"), "\u{663}");
}

#[test]
fn format_sort_joins_the_terms() {
    assert_eq!(format_sort(Some("720"), None), format!("{PREFIX_FORMATS}res:720"));
    assert_eq!(format_sort(None, Some("vp9")), format!("{PREFIX_FORMATS}+vcodec:vp9"));
    assert_eq!(
        format_sort(Some("1080"), Some("av01")),
        "--ytdl-raw-options-append=format-sort=res:1080,+vcodec:av01"
    );
    assert_eq!(format_sort(Some(""), Some("")), format!("{PREFIX_FORMATS}res:,+vcodec:"));
    assert_eq!(format_sort(None, None), PREFIX_FORMATS);
}

#[test]
fn formats_without_quality_and_codec() {
    assert_eq!(formats(None, None).unwrap(), PREFIX_FORMATS);
    assert_eq!(formats(Some("best"), None).unwrap(), format!("{PREFIX_FORMATS}res:"));
}

#[test]
fn cookies_option_needs_the_file() {
    let there = CookieFile { path: "/c/www.youtube.com.txt".to_string(), exists: true };
    let missing = CookieFile { path: "/c/www.youtube.com.txt".to_string(), exists: false };
    assert_eq!(
        cookies(Some(&there)),
        Some("--ytdl-raw-options-append=cookies=/c/www.youtube.com.txt".to_string())
    );
    assert_eq!(cookies(Some(&missing)), None);
    assert_eq!(cookies(None), None);
}

#[test]
fn push_optional_appends_what_is_there() {
    let mut v = vec!["a".to_string()];
    push_optional(&mut v, None);
    assert_eq!(v, vec!["a"]);
    push_optional(&mut v, Some("b".to_string()));
    assert_eq!(v, vec!["a", "b"]);
    push_all(&mut v, &vec!["c".to_string(), "d".to_string()]);
    assert_eq!(v, vec!["a", "b", "c", "d"]);
    push_all(&mut v, &Vec::new());
    assert_eq!(v, vec!["a", "b", "c", "d"]);
}

#[test]
fn options_of_a_bare_request_are_none() {
    assert!(options(&request(), &no_config(), None).is_empty());
}

#[test]
fn options_come_in_their_order() {
    let mut proto = request();
    proto.cookies = Some("www.youtube.com.txt");
    proto.profile = Some("low-latency");
    proto.quality = Some("1080p");
    proto.v_codec = Some("av01");
    proto.v_title = Some("Title".to_string());
    proto.subfile = Some("http://example.com/en.ass".to_string());
    proto.startat = Some("233");
    proto.referrer = Some("https://www.youtube.com/".to_string());
    let config = Config { mpv: None, ytdl: Some("/usr/bin/yt-dlp".to_string()), proxy: None };
    let file = CookieFile { path: "/c/www.youtube.com.txt".to_string(), exists: true };
    assert_eq!(
        options(&proto, &config, Some(&file)),
        vec![
            "--ytdl-raw-options-append=cookies=/c/www.youtube.com.txt",
            "--profile=low-latency",
            "--ytdl-raw-options-append=format-sort=res:1080,+vcodec:av01",
            "--sub-file=http://example.com/en.ass",
            "--start=233",
            "--referrer=https://www.youtube.com/",
            "--title=Title",
            "--script-opts=ytdl_hook-ytdl_path=/usr/bin/yt-dlp",
        ]
    );
    // a cookies file that is missing leaves the option out
    let missing = CookieFile { path: "/c/www.youtube.com.txt".to_string(), exists: false };
    assert_eq!(options(&proto, &config, Some(&missing)).len(), 7);
    assert_eq!(options(&proto, &config, None).len(), 7);
    assert_eq!(options(&proto, &config, None)[0], "--profile=low-latency");
    // a name that leaves the directory of cookies files names no file
    proto.cookies = Some("../www.youtube.com.txt");
    assert_eq!(options(&proto, &config, Some(&file)).len(), 7);
    // a cookies file that nobody asked for is not named
    proto.cookies = None;
    assert_eq!(options(&proto, &config, Some(&file)).len(), 7);
}

#[test]
fn options_with_codec_alone() {
    let mut proto = request();
    proto.v_codec = Some("vp9");
    assert_eq!(
        options(&proto, &no_config(), None),
        vec!["--ytdl-raw-options-append=format-sort=+vcodec:vp9"]
    );
}

#[test]
fn exec_runs_the_default_player() {
    let mut proto = request();
    proto.startat = Some("5");
    let inv = exec(&proto, &no_config(), None, "/usr/bin/mpv");
    assert_eq!(inv.program, "/usr/bin/mpv");
    assert_eq!(inv.args, vec!["--start=5", "--", "https://example.com/v"]);
    assert!(inv.envs.is_empty());
    assert_eq!(inv.env_remove, vec!["LD_LIBRARY_PATH", "LD_PRELOAD"]);
    assert!(inv.hide_console);
    assert_eq!(inv.working_dir, None);
}

#[test]
fn exec_follows_the_settings() {
    let mut proto = request();
    proto.scheme = Schemes::MpvHandlerDebug;
    let config = Config {
        mpv: Some("/opt/mpv".to_string()),
        ytdl: None,
        proxy: Some("http://example.com:8080".to_string()),
    };
    let inv = exec(&proto, &config, None, "/usr/bin/mpv");
    assert_eq!(inv.program, "/opt/mpv");
    assert_eq!(inv.args, vec!["--", "https://example.com/v"]);
    let p = "http://example.com:8080".to_string();
    assert_eq!(
        inv.envs,
        vec![
            ("http_proxy".to_string(), p.clone()),
            ("HTTP_PROXY".to_string(), p.clone()),
            ("https_proxy".to_string(), p.clone()),
            ("HTTPS_PROXY".to_string(), p.clone()),
        ]
    );
    assert!(!inv.hide_console);
}

#[test]
fn player_result_judges_the_exit() {
    assert!(player_result(Outcome::Exited(Some(0))).is_ok());
    assert!(matches!(
        player_result(Outcome::Exited(Some(1))),
        Err(Error::PlayerExited(Some(1)))
    ));
    assert!(matches!(
        player_result(Outcome::Exited(Some(259))),
        Err(Error::PlayerExited(Some(3)))
    ));
    assert!(matches!(
        player_result(Outcome::Exited(Some(256))),
        Err(Error::PlayerExited(Some(0)))
    ));
    assert!(matches!(
        player_result(Outcome::Exited(Some(-1))),
        Err(Error::PlayerExited(Some(255)))
    ));
    assert!(matches!(player_result(Outcome::Exited(None)), Err(Error::PlayerExited(None))));
    match player_result(Outcome::NotStarted("No such file".to_string())) {
        Err(Error::PlayerRunFailed(reason)) => assert_eq!(reason, "No such file"),
        other => panic!("{:?}", other),
    }
}
