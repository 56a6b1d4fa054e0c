use mpv_handler::config::Config;
use mpv_handler::handler::Plan;
use mpv_handler::plugins::Plugins;
use mpv_handler::protocol::{Protocol, Schemes};
use mpv_handler::run::{plan, Tools};

fn tools() -> Tools {
    Tools {
        default_mpv: "/usr/bin/mpv".to_string(),
        default_ytdl: "yt-dlp".to_string(),
        streamlink: "streamlink".to_string(),
        stream_conf: String::new(),
        temp_dir: "/tmp".to_string(),
        hide_log: false,
    }
}

fn request_for<'a>(plugin: Plugins) -> Protocol<'a> {
    Protocol {
        scheme: Schemes::MpvHandler,
        plugin,
        url: "https://example.com/v".to_string(),
        cookies: None,
        profile: Some("fast"),
        quality: Some("720p"),
        v_codec: None,
        v_title: None,
        subfile: None,
        startat: None,
        referrer: None,
    }
}

#[test]
fn plan_calls_the_play_plugin() {
    let config = Config { mpv: None, ytdl: None, proxy: None };
    match plan(&request_for(Plugins::Play), &config, None, &tools()) {
        Plan::Run(inv) => {
            assert_eq!(inv.program, "/usr/bin/mpv");
            assert_eq!(
                inv.args,
                vec![
                    "--profile=fast",
                    "--ytdl-raw-options-append=format-sort=res:720",
                    "--",
                    "https://example.com/v",
                ]
            );
        },
        other => panic!("{:?}", other),
    }
}

#[test]
fn plan_calls_the_stream_plugin() {
    let config = Config { mpv: None, ytdl: None, proxy: None };
    match plan(&request_for(Plugins::Stream), &config, None, &tools()) {
        Plan::Run(inv) => {
            assert_eq!(inv.program, "streamlink");
            assert_eq!(
                inv.args,
                vec!["--default-stream=720p60,720p,best", "https://example.com/v"]
            );
        },
        other => panic!("{:?}", other),
    }
}

#[test]
fn plan_calls_the_pipe_plugin() {
    let config =
        Config { mpv: Some("/opt/mpv".to_string()), ytdl: None, proxy: None };
    match plan(&request_for(Plugins::Pipe), &config, None, &tools()) {
        Plan::Pipe(downloader, player) => {
            assert_eq!(downloader.program, "yt-dlp");
            assert_eq!(
                downloader.args,
                vec![
                    "--format=bv*[height<=720]+ba/b[height<=720]/b",
                    "--output=-",
                    "https://example.com/v",
                ]
            );
            assert_eq!(player.program, "/opt/mpv");
            assert_eq!(player.args, vec!["-", "--profile=fast"]);
            assert_eq!(player.working_dir, Some("/tmp".to_string()));
        },
        other => panic!("{:?}", other),
    }
    let config = Config { mpv: None, ytdl: Some("/opt/yt-dlp".to_string()), proxy: None };
    match plan(&request_for(Plugins::Pipe), &config, None, &tools()) {
        Plan::Pipe(downloader, player) => {
            assert_eq!(downloader.program, "/opt/yt-dlp");
            assert_eq!(player.program, "/usr/bin/mpv");
        },
        other => panic!("{:?}", other),
    }
}
