use moonshine::application::ApplicationConfig;
use moonshine::digest::fingerprint;
use moonshine::webserver::addresses::{
    first_interface_ip, get_mac_address, interface_ip_for_family, ip_matches_stream_ipv6, rtsp_host, session_url_ip,
    unmap_v4_mapped, Interface, Ip, StreamUseIpv6,
};
use moonshine::webserver::info::{app_list, client_to_look_up, pin, server_info, HostInfo};
use moonshine::webserver::params::Params;
use moonshine::webserver::requests::{
    app_asset, app_ids, cancel, launch, launch_answer, read_asset, read_launch, read_mode, read_pin, resume,
    resume_answer, stops_session, submit_pin, submit_pin_answer, LaunchOutcome,
};
use moonshine::webserver::response::{bad_request, not_found, unauthorized, xml, xml_error, Answer, ContentType};
use moonshine::webserver::routes::{
    is_pairing_route, needs_paired_client, refuse_entry, route, verify_paired_client, Method, PeerCertificate, Route,
};

fn params(query: &str) -> Params {
    Params::from_query(Some(query))
}

fn named(title: &str, boxart: Option<&str>) -> ApplicationConfig {
    ApplicationConfig {
        title: title.to_string(),
        boxart: boxart.map(|b| b.to_string()),
        ..ApplicationConfig::default()
    }
}

fn shown(answer: &Answer) -> (u16, ContentType, &str) {
    (answer.status, answer.content_type, answer.body.as_str())
}

// ---- Parameters ----

#[test]
fn parameters_are_decoded() {
    let p = params("uniqueid=0123&name=a%20b%2Bc+d&empty=&lone");
    assert_eq!(p.get("uniqueid"), Some("0123".to_string()));
    assert_eq!(p.get("name"), Some("a b+c d".to_string()));
    assert_eq!(p.get("empty"), Some(String::new()));
    assert_eq!(p.get("lone"), Some(String::new()));
    assert_eq!(p.get("none"), None);
    assert!(p.contains_key("lone") && !p.contains_key("none"));
    assert!(Params::from_query(None).pairs.is_empty());
    assert_eq!(Params::from_form(b"a=%ff").get("a"), Some("\u{fffd}".to_string()));
}

#[test]
fn the_last_of_two_values_counts() {
    let mut p = params("a=1&b=2&a=3");
    assert_eq!(p.get("a"), Some("3".to_string()));
    assert_eq!(p.remove("a"), Some("3".to_string()));
    assert_eq!(p.get("a"), None);
    assert_eq!(p.get("b"), Some("2".to_string()));
    assert_eq!(p.remove("a"), None);
}

#[test]
fn parameters_are_shown_with_quotes() {
    let p = params("b=2&a=%22x%22&b=3");
    assert_eq!(p.names_shown(), "[\"b\", \"a\"]");
    assert_eq!(p.pairs_shown(), "{\"b\": \"3\", \"a\": \"\\\"x\\\"\"}");
    assert_eq!(Params::from_query(None).names_shown(), "[]");
    let mut p = params("b=2");
    assert_eq!(p.require("a", "Expected 'a', got "), Err("Expected 'a', got [\"b\"].".to_string()));
    assert_eq!(p.require("b", "x"), Ok("2".to_string()));
}

// ---- Answers ----

#[test]
fn answers_have_status_type_and_body() {
    assert_eq!(shown(&bad_request("no".to_string())), (400, ContentType::Unset, "no"));
    assert_eq!(shown(&unauthorized("who")), (401, ContentType::Unset, "who"));
    assert_eq!(shown(&not_found()), (404, ContentType::Unset, "NOT FOUND"));
    assert_eq!(shown(&xml("<a/>".to_string())), (200, ContentType::Xml, "<a/>"));
    assert_eq!(
        shown(&xml_error(503, "a < \"b\"")),
        (
            200,
            ContentType::Xml,
            "<root status_code=\"503\" status_message=\"a &lt; &quot;b&quot;\"></root>"
        )
    );
    assert_eq!(ContentType::Xml.header(), Some("application/xml"));
    assert_eq!(ContentType::Html.header(), Some("text/html; charset=UTF-8"));
    assert_eq!(ContentType::Unset.header(), None);
}

// ---- Routes ----

#[test]
fn paths_lead_to_routes() {
    let get = Method::Get;
    assert_eq!(route(true, get, "/serverinfo"), Route::ServerInfo);
    assert_eq!(route(false, get, "/serverinfo"), Route::ServerInfo);
    assert_eq!(route(true, get, "/applist"), Route::AppList);
    assert_eq!(route(true, get, "/appasset"), Route::AppAsset);
    assert_eq!(route(true, get, "/pair"), Route::Pair);
    assert_eq!(route(false, get, "/pair"), Route::Pair);
    assert_eq!(route(true, get, "/launch"), Route::Launch);
    assert_eq!(route(true, get, "/resume"), Route::Resume);
    assert_eq!(route(true, get, "/cancel"), Route::Cancel);
    assert_eq!(route(false, get, "/pin"), Route::Pin);
    assert_eq!(route(false, Method::Post, "/submit-pin"), Route::SubmitPin);
    assert_eq!(route(false, get, "/launch"), Route::Unknown);
    assert_eq!(route(true, get, "/pin"), Route::Unknown);
    assert_eq!(route(true, Method::Post, "/submit-pin"), Route::Unknown);
    assert_eq!(route(true, get, "/unpair"), Route::Unknown);
    assert_eq!(route(true, Method::Post, "/launch"), Route::Unknown);
    assert_eq!(route(true, Method::Other, "/serverinfo"), Route::Unknown);
}

#[test]
fn only_paired_clients_launch() {
    for protected in [Route::AppList, Route::AppAsset, Route::Launch, Route::Resume, Route::Cancel] {
        assert!(needs_paired_client(protected));
        assert!(refuse_entry(protected, true, PeerCertificate::Paired).is_none());
        assert_eq!(
            shown(&refuse_entry(protected, true, PeerCertificate::Unpaired).unwrap()),
            (401, ContentType::Unset, "Client certificate is not from a paired client.")
        );
        assert_eq!(
            shown(&refuse_entry(protected, true, PeerCertificate::Missing).unwrap()),
            (401, ContentType::Unset, "No client certificate provided.")
        );
        assert_eq!(
            shown(&refuse_entry(protected, true, PeerCertificate::Unchecked).unwrap()),
            (400, ContentType::Unset, "Failed to verify client certificate.")
        );
    }
    assert!(verify_paired_client(PeerCertificate::Paired).is_none());
    assert!(refuse_entry(Route::ServerInfo, false, PeerCertificate::Missing).is_none());
    assert_eq!(refuse_entry(Route::Unknown, true, PeerCertificate::Paired).unwrap().status, 404);
}

#[test]
fn pairing_can_be_disabled() {
    for pairing in [Route::Pair, Route::Pin, Route::SubmitPin] {
        assert!(is_pairing_route(pairing));
        assert!(refuse_entry(pairing, true, PeerCertificate::Missing).is_none());
        assert_eq!(
            shown(&refuse_entry(pairing, false, PeerCertificate::Paired).unwrap()),
            (400, ContentType::Unset, "Pairing is disabled.")
        );
    }
}

#[test]
fn certificates_have_fingerprints() {
    assert_eq!(
        fingerprint(b"abc"),
        "ba7816bf8f01cfea414140de5dae2223b00361a396177a9cb410ff61f20015ad"
    );
}

// ---- Information ----

#[test]
fn applications_are_listed() {
    let apps = vec![named("Steam", None), named("Tom & Jerry", None)];
    let id = apps[1].id();
    assert_eq!(
        app_list(&apps, true).body,
        format!(
            "<root status_code=\"200\"><App><IsHdrSupported>1</IsHdrSupported><AppTitle>Steam</AppTitle><ID>1794942107</ID></App>\
             <App><IsHdrSupported>1</IsHdrSupported><AppTitle>Tom &amp; Jerry</AppTitle><ID>{id}</ID></App></root>"
        )
    );
    assert_eq!(app_list(&vec![], false).body, "<root status_code=\"200\"></root>");
    assert!(app_list(&apps, false).body.contains("<IsHdrSupported>0</IsHdrSupported>"));
}

#[test]
fn the_host_tells_about_itself() {
    let host =
        HostInfo { name: "<Host>".to_string(), unique_id: "0123".to_string(), port_https: 47984 };
    let free = server_info(&host, None, false, Ok(None));
    assert_eq!(
        shown(&free),
        (
            200,
            ContentType::Xml,
            "<root status_code=\"200\"><hostname>&lt;Host&gt;</hostname><appversion>7.1.431.-1</appversion>\
             <GfeVersion>3.23.0.74</GfeVersion><uniqueid>0123</uniqueid><HttpsPort>47984</HttpsPort>\
             <ExternalPort></ExternalPort><mac></mac><MaxLumaPixelsHEVC>1869449984</MaxLumaPixelsHEVC>\
             <LocalIP></LocalIP><ServerCodecModeSupport>8323841</ServerCodecModeSupport>\
             <SupportedDisplayMode></SupportedDisplayMode><PairStatus>0</PairStatus><currentgame>0</currentgame>\
             <state>MOONSHINE_SERVER_FREE</state></root>"
        )
    );
    let busy = server_info(&host, Some("aa:bb"), true, Ok(Some(-7))).body;
    assert!(busy.contains("<mac>aa:bb</mac>"));
    assert!(busy.contains("<PairStatus>1</PairStatus><currentgame>-7</currentgame><state>MOONSHINE_SERVER_BUSY</state>"));
    assert_eq!(
        shown(&server_info(&host, None, true, Err(()))),
        (400, ContentType::Unset, "Failed to get session context")
    );
}

#[test]
fn clients_are_looked_up_under_tls_only() {
    let p = params("uniqueid=77");
    assert_eq!(client_to_look_up(&p, true), Some("77".to_string()));
    assert_eq!(client_to_look_up(&p, false), None);
    assert_eq!(client_to_look_up(&params("x=1"), true), None);
}

#[test]
fn the_pin_page_shows_hexadecimal_digits_only() {
    let page = |query: &str| pin("<a id=\"{{UNIQUE_ID}}\">{{UNIQUE_ID}}</a>", &params(query)).body;
    assert_eq!(page("uniqueid=aF09"), "<a id=\"aF09\">aF09</a>");
    assert_eq!(page("uniqueid=%22%3E%3Cscript%3E1"), "<a id=\"c1\">c1</a>");
    assert_eq!(page("uniqueid=0123456789abcdef99"), "<a id=\"0123456789abcdef\">0123456789abcdef</a>");
    assert_eq!(page("uniqueid=xyz"), "<a id=\"0123456789ABCDEF\">0123456789ABCDEF</a>");
    assert_eq!(page(""), "<a id=\"0123456789ABCDEF\">0123456789ABCDEF</a>");
    assert_eq!(pin("", &params("")).content_type, ContentType::Html);
}

// ---- Sessions ----

const LAUNCH: &str = "appid=5&mode=1920x1080x60&rikey=00ff10&rikeyid=-3&surroundAudioInfo=3933194&hdrMode=1";

#[test]
fn a_session_is_asked_for() {
    let request = read_launch(&mut params(LAUNCH), &[9, 5, 5]).unwrap();
    assert_eq!(request.application, 1);
    assert_eq!(request.application_id, 5);
    assert_eq!((request.width, request.height, request.refresh_rate), (1920, 1080, 60));
    assert_eq!(request.keys.remote_input_key, vec![0, 255, 16]);
    assert_eq!(request.keys.remote_input_key_id, -3);
    assert_eq!(request.audio_channels, (3933194u32 & 0xffff) as u8);
    assert_eq!(request.audio_channel_mask, 3933194 >> 16);
    assert!(request.hdr);
}

#[test]
fn a_session_has_defaults() {
    let mut p = params("appid=5&mode=1x2x3&rikey=&rikeyid=0&surroundAudioInfo=many&hdrMode=-1");
    let request = read_launch(&mut p, &[5]).unwrap();
    assert_eq!(request.audio_channels, 2);
    assert_eq!(request.audio_channel_mask, 3);
    assert!(!request.hdr);
    assert!(request.keys.remote_input_key.is_empty());
}

fn launch_error(query: &str) -> String {
    read_launch(&mut params(query), &[5]).unwrap_err()
}

#[test]
fn wrong_launches_are_told_what_is_wrong() {
    assert_eq!(launch_error("mode=1x1x1"), "Expected 'appid' in launch request, got [\"mode\"].");
    assert_eq!(launch_error("appid="), "Failed to parse application ID: cannot parse integer from empty string");
    assert_eq!(launch_error("appid=x"), "Failed to parse application ID: invalid digit found in string");
    assert_eq!(
        launch_error("appid=2147483648"),
        "Failed to parse application ID: number too large to fit in target type"
    );
    assert_eq!(
        launch_error("appid=-2147483649"),
        "Failed to parse application ID: number too small to fit in target type"
    );
    assert_eq!(launch_error("appid=5"), "Expected 'mode' in launch request, got [].");
    assert_eq!(launch_error("appid=5&mode=1x1"), "Expected mode in format WxHxR, but got '1x1'.");
    assert_eq!(launch_error("appid=5&mode=ax1x1"), "Failed to parse width: invalid digit found in string");
    assert_eq!(launch_error("appid=5&mode=1xx1"), "Failed to parse height: cannot parse integer from empty string");
    assert_eq!(
        launch_error("appid=5&mode=1x1x4294967296"),
        "Failed to parse refresh rate: number too large to fit in target type"
    );
    assert_eq!(launch_error("appid=5&mode=1x1x1"), "Expected 'rikey' in launch request, got [].");
    assert_eq!(
        launch_error("appid=5&mode=1x1x1&rikey=0"),
        "Failed to decode remote input key: Odd number of digits"
    );
    assert_eq!(
        launch_error("appid=5&mode=1x1x1&rikey=0g"),
        "Failed to decode remote input key: Invalid character 'g' at position 1"
    );
    assert_eq!(launch_error("appid=5&mode=1x1x1&rikey=00"), "Expected 'rikey_id' in launch request, got [].");
    assert_eq!(
        launch_error("appid=5&mode=1x1x1&rikey=00&rikeyid=a"),
        "Couldn't parse 'rikey_id' in launch request, got 'a' with error: invalid digit found in string"
    );
    assert_eq!(launch_error("appid=6&mode=1x1x1&rikey=00&rikeyid=0"), "Couldn't find application with ID 5.");
    assert_eq!(
        launch_error("appid=-2147483648&mode=1x1x1&rikey=00&rikeyid=0"),
        "Couldn't find application with ID 2147483647."
    );
}

#[test]
fn modes_are_read() {
    assert_eq!(read_mode("3840x2160x120"), Ok((3840, 2160, 120)));
    assert_eq!(read_mode("+1x0x1"), Ok((1, 0, 1)));
    assert!(read_mode("").is_err());
}

#[test]
fn sessions_are_launched_by_the_number_of_the_title() {
    let apps = vec![named("Desktop", None), named("Steam", None)];
    assert_eq!(app_ids(&apps), vec![-1920257175, 1794942107]);
    let query = "appid=1794942107&mode=1x2x3&rikey=00&rikeyid=0";
    assert_eq!(launch(&mut params(query), &apps).unwrap().application, 1);
    assert_eq!(
        launch(&mut params("appid=1&mode=1x2x3&rikey=00&rikeyid=0"), &apps).unwrap_err().body,
        "<root status_code=\"400\" status_message=\"Couldn&apos;t find application with ID 0.\"></root>"
    );
}

#[test]
fn launches_are_answered() {
    assert_eq!(
        launch_answer(LaunchOutcome::Launched, Some("[::1]"), 48010).body,
        "<root status_code=\"200\"><gamesession>1</gamesession><sessionUrl0>rtsp://[::1]:48010</sessionUrl0></root>"
    );
    assert_eq!(
        launch_answer(LaunchOutcome::Launched, None, 1).body,
        "<root status_code=\"200\"><gamesession>1</gamesession></root>"
    );
    assert_eq!(
        launch_answer(LaunchOutcome::NotInitialized, None, 1).body,
        "<root status_code=\"400\" status_message=\"Failed to start session\"></root>"
    );
    for outcome in [LaunchOutcome::Failed, LaunchOutcome::TimedOut] {
        assert!(stops_session(outcome));
        assert_eq!(
            launch_answer(outcome, Some("h"), 1).body,
            "<root status_code=\"503\" status_message=\"Application failed to start (check Moonshine logs for more information).\"></root>"
        );
    }
    assert!(!stops_session(LaunchOutcome::Launched) && !stops_session(LaunchOutcome::NotInitialized));
}

#[test]
fn sessions_are_resumed_with_new_keys() {
    let keys = resume(&mut params("rikey=abCD&rikeyid=9223372036854775807")).unwrap();
    assert_eq!(keys.remote_input_key, vec![0xab, 0xcd]);
    assert_eq!(keys.remote_input_key_id, i64::MAX);
    assert_eq!(
        resume(&mut params("x=1")).unwrap_err().body,
        "<root status_code=\"400\" status_message=\"Expected &apos;rikey&apos; in resume request, got [&quot;x&quot;].\"></root>"
    );
    assert_eq!(
        resume_answer(true, Some("10.0.0.1"), 48010).body,
        "<root status_code=\"200\"><sessionUrl0>rtsp://10.0.0.1:48010</sessionUrl0><resume>1</resume></root>"
    );
    assert_eq!(
        resume_answer(false, None, 1).body,
        "<root status_code=\"400\" status_message=\"Failed to update session keys\"></root>"
    );
}

#[test]
fn sessions_are_ended() {
    assert_eq!(cancel(true).body, "<root status_code=\"200\"><cancel>1</cancel></root>");
    assert_eq!(shown(&cancel(false)), (400, ContentType::Unset, "Failed to stop session"));
}

#[test]
fn box_art_is_asked_for() {
    let apps = vec![named("Steam", Some("/art.png")), named("Desktop", None)];
    assert_eq!(app_asset(&mut params("appid=1794942107"), &apps).unwrap(), "/art.png");
    assert_eq!(
        shown(&app_asset(&mut params("appid=-1920257175"), &apps).unwrap_err()),
        (400, ContentType::Unset, "No boxart defined for app 'Desktop'.")
    );
    assert_eq!(
        app_asset(&mut params("a=1"), &apps).unwrap_err().body,
        "Expected 'appasset' in launch request, got [\"a\"]."
    );
    assert_eq!(read_asset(&mut params("appid=7"), &[7, 7]), Ok(0));
    assert_eq!(read_asset(&mut params("appid=8"), &[7]), Err("Couldn't find application with ID 7.".to_string()));
}

#[test]
fn pins_are_handed_in() {
    assert_eq!(submit_pin(Some(b"uniqueid=ab&pin=1234")).unwrap(), ("ab".to_string(), "1234".to_string()));
    for body in [None, Some(&b"uniqueid=ab"[..]), Some(&b"pin=1"[..]), Some(&[b'a'; 1025][..])] {
        assert_eq!(shown(&submit_pin(body).unwrap_err()), (400, ContentType::Unset, "Bad request."));
    }
    let mut long = b"uniqueid=a&pin=1&x=".to_vec();
    long.resize(1024, b'y');
    assert!(submit_pin(Some(&long)).is_ok());
    assert_eq!(read_pin(&params("uniqueid=a&pin=b")), Some(("a".to_string(), "b".to_string())));
    assert_eq!(shown(&submit_pin_answer(true)), (200, ContentType::Unset, "PIN accepted."));
    assert_eq!(shown(&submit_pin_answer(false)), (400, ContentType::Unset, "Failed to register PIN."));
}

// ---- Addresses ----

const V4: Ip = Ip::V4(0xc0a8_0105);
const V6: Ip = Ip::V6(0xfd12_3456_0000_0000_0000_0000_0000_0001);

fn interface(addresses: Vec<Ip>, mac: Option<&str>) -> Interface {
    Interface { addresses, mac: mac.map(|m| m.to_string()), index: 1, internal: false }
}

#[test]
fn mapped_addresses_are_unmapped() {
    assert_eq!(unmap_v4_mapped(Ip::V6(0xffff_c0a8_0105)), V4);
    assert_eq!(unmap_v4_mapped(V4), V4);
    assert_eq!(unmap_v4_mapped(V6), V6);
    assert_eq!(unmap_v4_mapped(Ip::V6(0xfffe_c0a8_0105)), Ip::V6(0xfffe_c0a8_0105));
    assert_eq!(rtsp_host(V4, "192.168.1.5"), "192.168.1.5");
    assert_eq!(rtsp_host(V6, "fd12:3456::1"), "[fd12:3456::1]");
    assert!(Ip::V4(0x7f00_0001).is_loopback() && Ip::V6(1).is_loopback() && !V4.is_loopback());
}

#[test]
fn sessions_use_the_version_that_is_set() {
    let other = Ip::V4(0x0a00_0001);
    let interfaces = vec![
        interface(vec![Ip::V4(0x7f00_0001), Ip::V6(1)], None),
        interface(vec![other], Some("00:01")),
        interface(vec![V6, V4], Some("00:02")),
    ];
    let all = Some(&interfaces);
    assert_eq!(session_url_ip(StreamUseIpv6::Auto, V6, all), V6);
    assert_eq!(session_url_ip(StreamUseIpv6::No, V4, all), V4);
    assert_eq!(session_url_ip(StreamUseIpv6::No, V6, all), V4);
    assert_eq!(session_url_ip(StreamUseIpv6::Yes, V4, all), V6);
    // The interface of the client has no such address: the first of any has.
    assert_eq!(session_url_ip(StreamUseIpv6::Yes, other, all), V6);
    assert_eq!(session_url_ip(StreamUseIpv6::No, Ip::V6(7), all), other);
    assert_eq!(session_url_ip(StreamUseIpv6::No, V6, None), V6);
    assert_eq!(interface_ip_for_family(all, V6, StreamUseIpv6::No), Some(V4));
    assert_eq!(interface_ip_for_family(all, other, StreamUseIpv6::Yes), None);
    assert_eq!(interface_ip_for_family(all, Ip::V6(7), StreamUseIpv6::Yes), None);
    assert_eq!(first_interface_ip(all, StreamUseIpv6::Yes), Some(V6));
    assert_eq!(first_interface_ip(None, StreamUseIpv6::Yes), None);
    assert!(ip_matches_stream_ipv6(V4, StreamUseIpv6::No) && !ip_matches_stream_ipv6(V4, StreamUseIpv6::Auto));
    assert_eq!(get_mac_address(all, V4), Ok(Some("00:02".to_string())));
    assert_eq!(get_mac_address(all, Ip::V6(1)), Ok(None));
    assert_eq!(get_mac_address(all, Ip::V6(9)), Ok(None));
    assert_eq!(get_mac_address(None, V4), Err(()));
}
