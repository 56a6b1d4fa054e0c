use mpv_handler::plugins::stream::{
    exec, options, quality, referer, stream_conf, streams, PREFIX_CONFIG, PREFIX_QUALITY,
    PREFIX_REFERER,
};
use mpv_handler::plugins::Plugins;
use mpv_handler::protocol::{Protocol, Schemes};

fn stream_request<'a>() -> Protocol<'a> {
    Protocol {
        scheme: Schemes::MpvHandler,
        plugin: Plugins::Stream,
        url: "https://live.example/ch".to_string(),
        cookies: None,
        profile: None,
        quality: None,
        v_codec: None,
        v_title: None,
        subfile: None,
        startat: None,
        referrer: None,
    }
}

#[test]
fn stream_option_builders() {
    assert_eq!(PREFIX_CONFIG, "--config=");
    assert_eq!(PREFIX_REFERER, "--http-header=Referer=");
    assert_eq!(PREFIX_QUALITY, "--default-stream=");
    assert_eq!(stream_conf("C:\\\\sl\\\\config"), "--config=C:\\sl\\config");
    assert_eq!(stream_conf("/etc/streamlink"), "--config=/etc/streamlink");
    assert_eq!(referer("https://a.example/"), "--http-header=Referer=https://a.example/");
    assert_eq!(quality("best"), "--default-stream=best");
}

#[test]
fn stream_streams_of_the_labels() {
    assert_eq!(streams(None), "best");
    assert_eq!(streams(Some("best")), "best");
    assert_eq!(streams(Some("1080p")), "1080p60,1080p,best");
    assert_eq!(streams(Some("720p")), "720p60,720p,best");
    assert_eq!(streams(Some("480p")), "480p");
    assert_eq!(streams(Some("360p")), "360p");
    assert_eq!(streams(Some("worst")), "worst");
    assert_eq!(streams(Some("2160p")), "best");
    assert_eq!(streams(Some("")), "best");
}

#[test]
fn stream_options_in_their_order() {
    let mut proto = stream_request();
    assert_eq!(options(&proto, ""), vec!["--default-stream=best"]);
    proto.quality = Some("720p");
    proto.referrer = Some("https://a.example/".to_string());
    assert_eq!(
        options(&proto, "/etc/streamlink"),
        vec![
            "--config=/etc/streamlink",
            "--http-header=Referer=https://a.example/",
            "--default-stream=720p60,720p,best",
        ]
    );
}

#[test]
fn stream_exec_appends_the_url() {
    let mut proto = stream_request();
    proto.quality = Some("worst");
    let inv = exec(&proto, "/usr/bin/streamlink", "", true);
    assert_eq!(inv.program, "/usr/bin/streamlink");
    assert_eq!(inv.args, vec!["--default-stream=worst", "https://live.example/ch"]);
    assert!(inv.envs.is_empty());
    assert!(inv.env_remove.is_empty());
    assert!(inv.hide_console);
    assert_eq!(inv.working_dir, None);
}
