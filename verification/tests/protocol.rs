use mpv_handler::error::Error;
use mpv_handler::decode::{check_url, decode_txt, decode_url, is_safe_protocol, text_of};
use mpv_handler::parameters::{parameter_of, split_pair, Parameter, Parameters};
use mpv_handler::plugins::Plugins;
use mpv_handler::protocol::{plugin_of, scheme_of, Link, Protocol, Schemes};
use mpv_handler::run::run;

#[test]
fn test_protocol_parse() {
    // All parameters
    let proto =
        Protocol::parse("mpv-handler://play/aHR0cHM6Ly93d3cueW91dHViZS5jb20vd2F0Y2g_dj1HZ2tuMmY1ZS1JVQ/?cookies=www.youtube.com.txt&profile=low-latency&quality=1080p&v_codec=av01&v_title=VGl0bGU&subfile=aHR0cDovL2V4YW1wbGUuY29tL2VuLmFzcw&startat=233&referrer=aHR0cHM6Ly93d3cueW91dHViZS5jb20v").unwrap();

    assert_eq!(proto.scheme, Schemes::MpvHandler);
    assert_eq!(proto.plugin, Plugins::Play);
    assert_eq!(proto.url, "https://www.youtube.com/watch?v=Ggkn2f5e-IU");
    assert_eq!(proto.cookies, Some("www.youtube.com.txt"));
    assert_eq!(proto.profile, Some("low-latency"));
    assert_eq!(proto.quality, Some("1080p"));
    assert_eq!(proto.v_codec, Some("av01"));
    assert_eq!(proto.v_title, Some("Title".to_string()));
    assert_eq!(proto.subfile, Some("http://example.com/en.ass".to_string()));
    assert_eq!(proto.startat, Some("233"));
    assert_eq!(proto.referrer, Some("https://www.youtube.com/".to_string()));

    // No parameter and last slash
    let proto = Protocol::parse(
        "mpv-handler://play/aHR0cHM6Ly93d3cueW91dHViZS5jb20vd2F0Y2g_dj1HZ2tuMmY1ZS1JVQ",
    )
    .unwrap();

    assert_eq!(proto.scheme, Schemes::MpvHandler);
    assert_eq!(proto.plugin, Plugins::Play);
    assert_eq!(proto.url, "https://www.youtube.com/watch?v=Ggkn2f5e-IU");

    // No parameter and protocol `mpv`
    let proto = Protocol::parse(
        "mpv-handler://play/aHR0cHM6Ly93d3cueW91dHViZS5jb20vd2F0Y2g_dj1HZ2tuMmY1ZS1JVQ/",
    )
    .unwrap();

    assert_eq!(proto.scheme, Schemes::MpvHandler);
    assert_eq!(proto.plugin, Plugins::Play);
    assert_eq!(proto.url, "https://www.youtube.com/watch?v=Ggkn2f5e-IU");

    // No parameter and protocol `mpv-handler-debug`
    let proto = Protocol::parse(
        "mpv-handler-debug://play/aHR0cHM6Ly93d3cueW91dHViZS5jb20vd2F0Y2g_dj1HZ2tuMmY1ZS1JVQ",
    )
    .unwrap();

    assert_eq!(proto.scheme, Schemes::MpvHandlerDebug);
    assert_eq!(proto.plugin, Plugins::Play);
    assert_eq!(proto.url, "https://www.youtube.com/watch?v=Ggkn2f5e-IU");
}


const PAYLOAD: &str = "aHR0cHM6Ly9leGFtcGxlLmNvbQ";

fn link(tail: &str) -> String {
    format!("mpv-handler://play/{}", tail)
}

#[test]
fn parse_empty_payload_is_missing() {
    assert!(matches!(Protocol::parse("mpv-handler://play/"), Err(Error::MissingPayload)));
    assert!(matches!(Protocol::parse("mpv-handler://play//"), Err(Error::MissingPayload)));
    assert!(matches!(
        Protocol::parse("mpv-handler://play/?quality=720p"),
        Err(Error::MissingPayload)
    ));
    assert!(matches!(
        Protocol::parse("mpv-handler-debug://play/"),
        Err(Error::MissingPayload)
    ));
}

#[test]
fn parse_end_to_end_link() {
    let arg = link("aHR0cHM6Ly9leGFtcGxlLmNvbQ/?quality=720p");
    let proto = Protocol::parse(&arg).unwrap();
    assert_eq!(proto.scheme, Schemes::MpvHandler);
    assert_eq!(proto.plugin, Plugins::Play);
    assert_eq!(proto.url, "https://example.com");
    assert_eq!(proto.quality, Some("720p"));
    assert_eq!(proto.cookies, None);
    assert_eq!(proto.profile, None);
    assert_eq!(proto.v_codec, None);
    assert_eq!(proto.v_title, None);
    assert_eq!(proto.subfile, None);
    assert_eq!(proto.startat, None);
    assert_eq!(proto.referrer, None);
}

#[test]
fn parse_unrecognized_scheme() {
    for arg in [
        "",
        "mpv-handler",
        "mpv-handler:/play/aHR0cHM6Ly9leGFtcGxlLmNvbQ",
        "app://play/aHR0cHM6Ly9leGFtcGxlLmNvbQ",
        "MPV-HANDLER://play/aHR0cHM6Ly9leGFtcGxlLmNvbQ",
        "mpv-handlers://play/aHR0cHM6Ly9leGFtcGxlLmNvbQ",
        " mpv-handler://play/aHR0cHM6Ly9leGFtcGxlLmNvbQ",
        "://play/aHR0cHM6Ly9leGFtcGxlLmNvbQ",
    ] {
        match Protocol::parse(arg) {
            Err(Error::UnrecognizedScheme(s)) => assert_eq!(s, arg),
            other => panic!("{:?} gave {:?}", arg, other),
        }
    }
}

#[test]
fn parse_unrecognized_route() {
    for arg in [
        "mpv-handler://",
        "mpv-handler://play",
        "mpv-handler:///aHR0cHM6Ly9leGFtcGxlLmNvbQ",
        "mpv-handler://stream/aHR0cHM6Ly9leGFtcGxlLmNvbQ",
        "mpv-handler://pipe/aHR0cHM6Ly9leGFtcGxlLmNvbQ",
        "mpv-handler://Play/aHR0cHM6Ly9leGFtcGxlLmNvbQ",
        "mpv-handler://play?quality=720p",
    ] {
        match Protocol::parse(arg) {
            Err(Error::UnrecognizedRoute(s)) => assert_eq!(s, arg),
            other => panic!("{:?} gave {:?}", arg, other),
        }
    }
}

#[test]
fn parse_invalid_encoding() {
    for tail in ["!!!", "aHR0cHM6Ly9leGFtcGxlLmNvbQ==", "a", "aHR0cHM6Ly9leGFtcGxlLmNvb+", "a b"] {
        let arg = link(tail);
        assert!(
            matches!(Protocol::parse(&arg), Err(Error::InvalidEncoding(_))),
            "{:?}",
            arg
        );
    }
    // '=' and '&' in the payload segment are not taken for a parameter
    let arg = link("quality=720p&a=b/");
    assert!(matches!(Protocol::parse(&arg), Err(Error::InvalidEncoding(_))));
    // a '/' behind the '?' makes the whole of it the payload
    let arg = link("aHR0cHM6Ly9leGFtcGxlLmNvbQ?referrer=aHR0cHM6Ly93d3cueW91dHViZS5jb20v/");
    assert!(matches!(Protocol::parse(&arg), Err(Error::InvalidEncoding(_))));
}

#[test]
fn parse_invalid_text() {
    let arg = link("__4");
    assert!(matches!(Protocol::parse(&arg), Err(Error::InvalidText(_))));
    let arg = link("aHR0cDovL_8");
    assert!(matches!(Protocol::parse(&arg), Err(Error::InvalidText(_))));
}

#[test]
fn parse_missing_transport_scheme() {
    let arg = link("ZXhhbXBsZS5jb20");
    match Protocol::parse(&arg) {
        Err(Error::MissingTransportScheme(s)) => assert_eq!(s, "example.com"),
        other => panic!("{:?}", other),
    }
    let arg = link("amF2YXNjcmlwdDphbGVydCgxKQ");
    match Protocol::parse(&arg) {
        Err(Error::MissingTransportScheme(s)) => assert_eq!(s, "javascript:alert(1)"),
        other => panic!("{:?}", other),
    }
}

#[test]
fn parse_disallowed_scheme() {
    for (tail, scheme) in [
        ("ZmlsZTovLy9ldGMvcGFzc3dk", "file"),
        ("SFRUUDovL2V4YW1wbGUuY29t", "HTTP"),
        ("c21iOi8vaG9zdC9zaGFyZQ", "smb"),
        ("Oi8veA", ""),
    ] {
        let arg = link(tail);
        match Protocol::parse(&arg) {
            Err(Error::DisallowedScheme(s)) => assert_eq!(s, scheme),
            other => panic!("{:?} gave {:?}", arg, other),
        }
        // whatever the query string holds
        let arg = link(&format!("{}/?quality=720p&broken", tail));
        match Protocol::parse(&arg) {
            Err(Error::DisallowedScheme(s)) => assert_eq!(s, scheme),
            other => panic!("{:?} gave {:?}", arg, other),
        }
    }
}

#[test]
fn parse_disallowed_subfile() {
    let arg = link("aHR0cHM6Ly9leGFtcGxlLmNvbQ/?subfile=ZmlsZTovLy9ldGMvcGFzc3dk");
    match Protocol::parse(&arg) {
        Err(Error::DisallowedScheme(s)) => assert_eq!(s, "file"),
        other => panic!("{:?}", other),
    }
    let arg = link("aHR0cHM6Ly9leGFtcGxlLmNvbQ/?subfile=ZXhhbXBsZS5jb20");
    assert!(matches!(Protocol::parse(&arg), Err(Error::MissingTransportScheme(_))));
}

#[test]
fn parse_malformed_parameter() {
    for (query, pair) in [
        ("", ""),
        ("quality", "quality"),
        ("quality=", "quality="),
        ("quality=720p=", "quality=720p="),
        ("a=b=c", "a=b=c"),
        ("=", "="),
        ("quality=720p&", ""),
        ("&quality=720p", ""),
        ("quality=720p&&profile=x", ""),
        ("quality=720p&profile", "profile"),
    ] {
        let arg = link(&format!("{}/?{}", PAYLOAD, query));
        match Protocol::parse(&arg) {
            Err(Error::MalformedParameter(s)) => assert_eq!(s, pair, "{:?}", query),
            other => panic!("{:?} gave {:?}", query, other),
        }
    }
}

#[test]
fn parse_first_fault_decides() {
    // the pair that is refused first decides, from left to right
    let arg = link(&format!("{}/?v_title=!!&broken", PAYLOAD));
    assert!(matches!(Protocol::parse(&arg), Err(Error::InvalidEncoding(_))));
    let arg = link(&format!("{}/?broken&v_title=!!", PAYLOAD));
    assert!(matches!(Protocol::parse(&arg), Err(Error::MalformedParameter(_))));
    let arg = link(&format!("{}/?referrer=__4", PAYLOAD));
    assert!(matches!(Protocol::parse(&arg), Err(Error::InvalidText(_))));
}

#[test]
fn parse_unknown_key_is_ignored() {
    let arg = link(&format!("{}/?foo=bar&quality=720p&Quality=1080p&=x", PAYLOAD));
    let proto = Protocol::parse(&arg).unwrap();
    assert_eq!(proto.quality, Some("720p"));
    assert_eq!(proto.profile, None);
    let plain = link(&format!("{}/?quality=720p", PAYLOAD));
    assert_eq!(proto, Protocol::parse(&plain).unwrap());
}

#[test]
fn parse_last_occurrence_wins() {
    let arg = link(&format!("{}/?quality=720p&quality=1080p", PAYLOAD));
    let proto = Protocol::parse(&arg).unwrap();
    assert_eq!(proto.quality, Some("1080p"));
    let arg = link(&format!("{}/?v_title=VGl0bGU&v_title=SGVsbG8gV29ybGQh", PAYLOAD));
    let proto = Protocol::parse(&arg).unwrap();
    assert_eq!(proto.v_title, Some("Hello World!".to_string()));
}

#[test]
fn parse_order_of_parameters_is_irrelevant() {
    let one = link(&format!("{}/?quality=720p&profile=low-latency&v_title=VGl0bGU", PAYLOAD));
    let other = link(&format!("{}/?v_title=VGl0bGU&quality=720p&profile=low-latency", PAYLOAD));
    let a = Protocol::parse(&one).unwrap();
    let b = Protocol::parse(&other).unwrap();
    assert_eq!(a, b);
    assert_eq!(a.quality, Some("720p"));
    assert_eq!(a.profile, Some("low-latency"));
    assert_eq!(a.v_title, Some("Title".to_string()));
}

#[test]
fn parse_payload_ends_at_question_mark() {
    let arg = link(&format!("{}?quality=720p", PAYLOAD));
    let proto = Protocol::parse(&arg).unwrap();
    assert_eq!(proto.url, "https://example.com");
    assert_eq!(proto.quality, Some("720p"));
}

#[test]
fn parse_passes_over_what_stands_before_the_query() {
    let arg = link(&format!("{}/more/of/it?startat=10", PAYLOAD));
    let proto = Protocol::parse(&arg).unwrap();
    assert_eq!(proto.url, "https://example.com");
    assert_eq!(proto.startat, Some("10"));
    // a second '?' belongs to the query string
    let arg = link(&format!("{}/?startat=1?2", PAYLOAD));
    let proto = Protocol::parse(&arg).unwrap();
    assert_eq!(proto.startat, Some("1?2"));
}

#[test]
fn parse_every_safe_scheme() {
    for tail in ["ZnRwOi8vaG9zdC9h", "ZGF0YTovL3g", "cnRtcHRlOi8vaA"] {
        let arg = link(tail);
        assert!(Protocol::parse(&arg).is_ok(), "{:?}", arg);
    }
    let arg = link("aHR0cHM6Ly9leGFtcGxlLmNvbS8_YT1iJmM9ZA");
    assert_eq!(Protocol::parse(&arg).unwrap().url, "https://example.com/?a=b&c=d");
}

#[test]
fn run_counts_the_arguments() {
    let none = vec!["mpv-handler".to_string()];
    assert!(matches!(run(&none), Ok(None)));
    let one = vec!["mpv-handler".to_string(), link(PAYLOAD)];
    let proto = run(&one).unwrap().unwrap();
    assert_eq!(proto.url, "https://example.com");
    let bad = vec!["mpv-handler".to_string(), "nothing".to_string()];
    assert!(matches!(run(&bad), Err(Error::UnrecognizedScheme(_))));
    let many = vec!["mpv-handler".to_string(), link(PAYLOAD), "x".to_string()];
    assert!(matches!(run(&many), Err(Error::TooManyArgs)));
    let empty: Vec<String> = Vec::new();
    assert!(matches!(run(&empty), Err(Error::TooManyArgs)));
}

#[test]
fn link_split_cuts_the_segments() {
    let l = Link::split("mpv-handler-debug://play/abc/?x=1&y=2").unwrap();
    assert_eq!(l.scheme, Schemes::MpvHandlerDebug);
    assert_eq!(l.plugin, Plugins::Play);
    assert_eq!(l.payload, "abc");
    assert_eq!(l.query, Some("x=1&y=2"));

    let l = Link::split("mpv-handler://play/abc").unwrap();
    assert_eq!(l.payload, "abc");
    assert_eq!(l.query, None);

    let l = Link::split("mpv-handler://play/abc/").unwrap();
    assert_eq!(l.payload, "abc");
    assert_eq!(l.query, None);

    let l = Link::split("mpv-handler://play/abc?").unwrap();
    assert_eq!(l.payload, "abc");
    assert_eq!(l.query, Some(""));

    let l = Link::split("mpv-handler://play/a\u{e9}\u{4e2d}c/?k=\u{1f600}").unwrap();
    assert_eq!(l.payload, "a\u{e9}\u{4e2d}c");
    assert_eq!(l.query, Some("k=\u{1f600}"));

    assert!(matches!(Link::split("mpv-handler://play/"), Err(Error::MissingPayload)));
    assert!(matches!(Link::split("mpv://play/abc"), Err(Error::UnrecognizedScheme(_))));
    assert!(matches!(Link::split("mpv-handler://abc"), Err(Error::UnrecognizedRoute(_))));
}

#[test]
fn names_of_schemes_plugins_and_parameters() {
    assert_eq!(scheme_of("mpv-handler"), Some(Schemes::MpvHandler));
    assert_eq!(scheme_of("mpv-handler-debug"), Some(Schemes::MpvHandlerDebug));
    assert_eq!(scheme_of("mpv"), None);
    assert_eq!(plugin_of("play"), Some(Plugins::Play));
    assert_eq!(plugin_of("stream"), None);
    assert_eq!(plugin_of(""), None);
    for (key, parameter) in [
        ("cookies", Parameter::Cookies),
        ("profile", Parameter::Profile),
        ("quality", Parameter::Quality),
        ("v_codec", Parameter::VCodec),
        ("v_title", Parameter::VTitle),
        ("subfile", Parameter::Subfile),
        ("startat", Parameter::Startat),
        ("referrer", Parameter::Referrer),
    ] {
        assert_eq!(parameter_of(key), Some(parameter));
    }
    assert_eq!(parameter_of("referer"), None);
    assert_eq!(parameter_of("Cookies"), None);
    assert_eq!(parameter_of(""), None);
}

#[test]
fn split_pair_wants_one_equals_sign_and_a_value() {
    assert_eq!(split_pair("a=b").unwrap(), ("a", "b"));
    assert_eq!(split_pair("=b").unwrap(), ("", "b"));
    assert_eq!(split_pair("key=a value").unwrap(), ("key", "a value"));
    for pair in ["", "a", "a=", "=", "a=b=c", "a==b", "a=b="] {
        match split_pair(pair) {
            Err(Error::MalformedParameter(s)) => assert_eq!(s, pair),
            other => panic!("{:?} gave {:?}", pair, other),
        }
    }
}

#[test]
fn decode_txt_decodes_base64_and_utf8() {
    assert_eq!(decode_txt("VGl0bGU").unwrap(), "Title");
    assert_eq!(decode_txt("SGVsbG8gV29ybGQh").unwrap(), "Hello World!");
    assert_eq!(decode_txt("").unwrap(), "");
    assert_eq!(decode_txt("ZXhhbXBsZS5jb20").unwrap(), "example.com");
    assert!(matches!(decode_txt("VGl0bGU="), Err(Error::InvalidEncoding(_))));
    assert!(matches!(decode_txt("V"), Err(Error::InvalidEncoding(_))));
    assert!(matches!(decode_txt("__4"), Err(Error::InvalidText(_))));
}

#[test]
fn decode_url_returns_the_text_unchanged() {
    assert_eq!(decode_url(PAYLOAD).unwrap(), "https://example.com");
    assert_eq!(
        decode_url("aHR0cDovL2V4YW1wbGUuY29tL2VuLmFzcw").unwrap(),
        "http://example.com/en.ass"
    );
    match decode_url("ZmlsZTovLy9ldGMvcGFzc3dk") {
        Err(Error::DisallowedScheme(s)) => assert_eq!(s, "file"),
        other => panic!("{:?}", other),
    }
    match decode_url("") {
        Err(Error::MissingTransportScheme(s)) => assert_eq!(s, ""),
        other => panic!("{:?}", other),
    }
    assert!(matches!(decode_url("*"), Err(Error::InvalidEncoding(_))));
}

#[test]
fn text_of_reads_utf8() {
    assert_eq!(text_of(vec![104, 105]).unwrap(), "hi");
    assert_eq!(text_of(vec![0xc3, 0xa9]).unwrap(), "\u{e9}");
    assert_eq!(text_of(Vec::new()).unwrap(), "");
    assert!(matches!(text_of(vec![0xff]), Err(Error::InvalidText(_))));
    assert!(matches!(text_of(vec![0xc3]), Err(Error::InvalidText(_))));
}

#[test]
fn check_url_goes_by_the_allow_list() {
    for proto in [
        "http", "https", "ftp", "ftps", "rtmp", "rtmps", "rtmpe", "rtmpt", "rtmpts", "rtmpte",
        "data",
    ] {
        assert!(is_safe_protocol(proto));
        let url = format!("{}://example.com/a", proto);
        assert_eq!(check_url(url.clone()).unwrap(), url);
    }
    for proto in ["file", "Http", "https ", "", "javascript", "rtmpx", "htt", "httpss"] {
        assert!(!is_safe_protocol(proto));
        match check_url(format!("{}://example.com/a", proto)) {
            Err(Error::DisallowedScheme(s)) => assert_eq!(s, proto),
            other => panic!("{:?}", other),
        }
    }
    // the scheme is what stands before the first "://"
    match check_url("file://x/http://y".to_string()) {
        Err(Error::DisallowedScheme(s)) => assert_eq!(s, "file"),
        other => panic!("{:?}", other),
    }
    assert_eq!(check_url("http://x/file://y".to_string()).unwrap(), "http://x/file://y");
    match check_url("no scheme".to_string()) {
        Err(Error::MissingTransportScheme(s)) => assert_eq!(s, "no scheme"),
        other => panic!("{:?}", other),
    }
}

#[test]
fn extract_reads_the_pairs() {
    let p = Parameters::extract("quality=720p&v_title=VGl0bGU&foo=bar&startat=5").unwrap();
    assert_eq!(p.quality, Some("720p"));
    assert_eq!(p.v_title, Some("Title".to_string()));
    assert_eq!(p.startat, Some("5"));
    assert_eq!(p.cookies, None);
    assert_eq!(p.profile, None);
    assert_eq!(p.v_codec, None);
    assert_eq!(p.subfile, None);
    assert_eq!(p.referrer, None);
    assert_eq!(
        Parameters::extract("startat=5&quality=720p&v_title=VGl0bGU").unwrap(),
        Parameters::extract("v_title=VGl0bGU&startat=5&quality=720p").unwrap()
    );
    assert_eq!(Parameters::extract("a=1&b=2").unwrap(), Parameters::extract("b=2&a=1").unwrap());
    assert_eq!(Parameters::extract("a=1").unwrap(), Parameters::new());
    assert!(matches!(Parameters::extract(""), Err(Error::MalformedParameter(_))));
    assert!(matches!(Parameters::extract("subfile=ZmlsZTovLy9ldGMvcGFzc3dk"), Err(Error::DisallowedScheme(_))));
    let p = Parameters::extract("cookies=a.txt&profile=p&v_codec=vp9&referrer=aHR0cHM6Ly93d3cueW91dHViZS5jb20v&subfile=aHR0cDovL2V4YW1wbGUuY29tL2VuLmFzcw").unwrap();
    assert_eq!(p.cookies, Some("a.txt"));
    assert_eq!(p.profile, Some("p"));
    assert_eq!(p.v_codec, Some("vp9"));
    assert_eq!(p.referrer, Some("https://www.youtube.com/".to_string()));
    assert_eq!(p.subfile, Some("http://example.com/en.ass".to_string()));
}

#[test]
fn run_ends_at_an_empty_payload() {
    let args = vec!["mpv-handler".to_string(), "mpv-handler://play/".to_string()];
    assert!(matches!(run(&args), Err(Error::MissingPayload)));
}

#[test]
fn order_is_irrelevant_whatever_stands_before_the_query() {
    // a slash in the query string moves the end of the payload in both links
    let one = "mpv-handler://play/aHR0cHM6Ly9leGFtcGxlLmNvbQ?startat=1/2&quality=720p";
    let other = "mpv-handler://play/aHR0cHM6Ly9leGFtcGxlLmNvbQ?quality=720p&startat=1/2";
    assert!(matches!(Protocol::parse(one), Err(Error::InvalidEncoding(_))));
    assert!(matches!(Protocol::parse(other), Err(Error::InvalidEncoding(_))));
    // behind a slash that ends the payload it is part of a value
    let one = "mpv-handler://play/aHR0cHM6Ly9leGFtcGxlLmNvbQ/?startat=1/2&quality=720p";
    let other = "mpv-handler://play/aHR0cHM6Ly9leGFtcGxlLmNvbQ/?quality=720p&startat=1/2";
    let a = Protocol::parse(one).unwrap();
    assert_eq!(a, Protocol::parse(other).unwrap());
    assert_eq!(a.startat, Some("1/2"));
    // links that are refused before their query string are refused alike
    assert!(Protocol::parse("mpv-handler://stop/x?a=1&b=2").is_err());
    assert!(Protocol::parse("mpv-handler://stop/x?b=2&a=1").is_err());
}

#[test]
fn decode_refuses_what_is_not_of_the_alphabet() {
    for data in ["aHR0?cHM6", "aHR0cHM6Ly9leGFtcGxlLmNvbQ=", "a&b", "a/b", "a+b", "a b", "\u{e9}abc"] {
        assert!(matches!(decode_txt(data), Err(Error::InvalidEncoding(_))), "{:?}", data);
        assert!(matches!(decode_url(data), Err(Error::InvalidEncoding(_))), "{:?}", data);
    }
}
