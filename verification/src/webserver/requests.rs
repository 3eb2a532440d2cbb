//! Requests about sessions: launching, resuming and ending one, box art, and
//! the PIN that is handed in.
use vstd::prelude::*;

use crate::application;
use crate::application::ApplicationConfig;
use crate::hexadecimal;
use crate::signed;
use crate::text;
use crate::text::NumberError;
use crate::webserver::params;
use crate::webserver::params::Params;
use crate::webserver::response;
use crate::webserver::response::{Answer, ContentType};

verus! {

/// The keys of a session.
#[derive(Debug)]
pub struct SessionKeyData {
    /// The key for input from the client.
    pub remote_input_key: Vec<u8>,
    /// Its number.
    pub remote_input_key_id: i64,
}

/// A session that is asked for.
#[derive(Debug)]
pub struct LaunchRequest {
    /// The application, by its place in the list.
    pub application: usize,
    /// Its number.
    pub application_id: i32,
    /// Width in pixels.
    pub width: u32,
    /// Height in pixels.
    pub height: u32,
    /// Frames per second.
    pub refresh_rate: u32,
    /// The keys.
    pub keys: SessionKeyData,
    /// Number of audio channels.
    pub audio_channels: u8,
    /// The bits of the audio channels.
    pub audio_channel_mask: u32,
    /// Colours go beyond the standard range.
    pub hdr: bool,
}

/// A session that is asked for, as values.
#[verifier::ext_equal]
pub struct LaunchValues {
    /// The application, by its place in the list.
    pub application: int,
    /// Its number.
    pub application_id: int,
    /// Width in pixels.
    pub width: int,
    /// Height in pixels.
    pub height: int,
    /// Frames per second.
    pub refresh_rate: int,
    /// The key for input from the client.
    pub key: Seq<u8>,
    /// Its number.
    pub key_id: int,
    /// Number of audio channels.
    pub audio_channels: int,
    /// The bits of the audio channels.
    pub audio_channel_mask: int,
    /// Colours go beyond the standard range.
    pub hdr: bool,
}

impl View for LaunchRequest {
    type V = LaunchValues;

    open spec fn view(&self) -> LaunchValues {
        LaunchValues {
            application: self.application as int,
            application_id: self.application_id as int,
            width: self.width as int,
            height: self.height as int,
            refresh_rate: self.refresh_rate as int,
            key: self.keys.remote_input_key@,
            key_id: self.keys.remote_input_key_id as int,
            audio_channels: self.audio_channels as int,
            audio_channel_mask: self.audio_channel_mask as int,
            hdr: self.hdr,
        }
    }
}

/// The number of each application.
pub open spec fn ids_of(apps: Seq<ApplicationConfig>) -> Seq<i32> {
    apps.map_values(|a: ApplicationConfig| application::id_of(application::hash_of(a.title@)))
}

/// The number of each application; see [`ids_of`].
pub fn app_ids(apps: &Vec<ApplicationConfig>) -> (r: Vec<i32>)
    ensures
        r@ == ids_of(apps@),
{
    let mut r: Vec<i32> = Vec::new();
    let mut i: usize = 0;
    while i < apps.len()
        invariant
            i <= apps@.len(),
            r@ == ids_of(apps@.take(i as int)),
        decreases apps@.len() - i,
    {
        let ghost before = r@;
        r.push(apps[i].id());
        i = i + 1;
        assert(ids_of(apps@.take(i as int)) == before.push(r@[i - 1]));
    }
    assert(apps@.take(apps@.len() as int) == apps@);
    r
}

/// Index of the first `id`, the number of them if there is none.
pub open spec fn place_of(ids: Seq<i32>, id: int) -> int
    decreases ids.len(),
{
    if ids.len() == 0 {
        0
    } else if place_of(ids.drop_last(), id) < ids.len() - 1 {
        place_of(ids.drop_last(), id)
    } else if ids.last() == id {
        ids.len() - 1
    } else {
        ids.len() as int
    }
}

/// The place holds the number, and no place before it does.
pub proof fn place_holds_id(ids: Seq<i32>, id: int)
    ensures
        0 <= place_of(ids, id) <= ids.len(),
        place_of(ids, id) < ids.len() ==> ids[place_of(ids, id)] == id,
        forall|i: int| #![trigger ids[i]] 0 <= i < place_of(ids, id) ==> ids[i] != id,
    decreases ids.len(),
{
    if ids.len() > 0 {
        let rest = ids.drop_last();
        place_holds_id(rest, id);
        assert forall|i: int| #![trigger ids[i]] 0 <= i < place_of(ids, id) implies ids[i] != id by {
            if i < rest.len() {
                assert(rest[i] == ids[i]);
            }
        }
    }
}

/// Index of the first `id`; see [`place_of`].
fn find_place(ids: &[i32], id: i32) -> (r: usize)
    ensures
        r == place_of(ids@, id as int),
        r <= ids@.len(),
{
    let mut r: usize = 0;
    let mut i: usize = 0;
    while i < ids.len()
        invariant
            i <= ids@.len(),
            r <= i,
            r == place_of(ids@.take(i as int), id as int),
        decreases ids@.len() - i,
    {
        assert(ids@.take(i + 1).drop_last() == ids@.take(i as int));
        if r == i && ids[i] != id {
            r = i + 1;
        }
        i = i + 1;
    }
    assert(ids@.take(ids@.len() as int) == ids@);
    r
}

/// What is said of an application that is not there: its number less one,
/// wrapped around.
pub open spec fn unknown_app(id: i32) -> Seq<char> {
    "Couldn't find application with ID "@ + signed::signed_decimal(
        if id == i32::MIN {
            i32::MAX as int
        } else {
            id - 1
        },
    ) + "."@
}

/// What is said of an application that is not there; see [`unknown_app`].
fn say_unknown_app(id: i32) -> (r: String)
    ensures
        r@ == unknown_app(id),
{
    let shown: i32 = if id == i32::MIN {
        i32::MAX
    } else {
        id - 1
    };
    let number = signed::signed_string(shown as i64);
    let mut r = text::joined("Couldn't find application with ID ", number.as_str());
    r.append(".");
    r
}

/// A number that was read, or what is said of it.
pub open spec fn app_id_of(s: Seq<char>) -> Result<int, Seq<char>> {
    match signed::read_signed(s, i32::MIN as int, i32::MAX as int) {
        Ok(id) => Ok(id),
        Err(e) => Err("Failed to parse application ID: "@ + e.message_spec()),
    }
}

/// Reads the number of an application; see [`app_id_of`].
fn read_app_id(s: &str) -> (r: Result<i32, String>)
    ensures
        match r {
            Ok(id) => app_id_of(s@) == Ok::<int, Seq<char>>(id as int),
            Err(e) => app_id_of(s@) == Err::<int, Seq<char>>(e@),
        },
{
    let chars = text::chars_of(s);
    match signed::parse_signed(chars.as_slice(), i32::MIN as i64, i32::MAX as i64) {
        Ok(id) => Ok(id as i32),
        Err(e) => Err(text::joined("Failed to parse application ID: ", e.message())),
    }
}

/// Width, height and frames per second, or what is said of the mode.
pub open spec fn mode_of(mode: Seq<char>) -> Result<(int, int, int), Seq<char>> {
    let parts = text::split_on(mode, 'x');
    if parts.len() != 3 {
        Err("Expected mode in format WxHxR, but got '"@ + mode + "'."@)
    } else {
        match text::read_unsigned(parts[0], u32::MAX as int) {
            Err(e) => Err("Failed to parse width: "@ + e.message_spec()),
            Ok(width) => match text::read_unsigned(parts[1], u32::MAX as int) {
                Err(e) => Err("Failed to parse height: "@ + e.message_spec()),
                Ok(height) => match text::read_unsigned(parts[2], u32::MAX as int) {
                    Err(e) => Err("Failed to parse refresh rate: "@ + e.message_spec()),
                    Ok(rate) => Ok((width, height, rate)),
                },
            },
        }
    }
}

/// Reads a part of the mode.
fn read_part(s: &Vec<char>, failure: &str) -> (r: Result<u32, String>)
    ensures
        match r {
            Ok(n) => text::read_unsigned(s@, u32::MAX as int) == Ok::<int, NumberError>(n as int),
            Err(e) => text::read_unsigned(s@, u32::MAX as int) matches Err(n) && e@ == failure@
                + n.message_spec(),
        },
{
    match text::parse_unsigned(s.as_slice(), u32::MAX as u64) {
        Ok(n) => Ok(n as u32),
        Err(e) => Err(text::joined(failure, e.message())),
    }
}

/// Width, height and frames per second; see [`mode_of`].
pub fn read_mode(mode: &str) -> (r: Result<(u32, u32, u32), String>)
    ensures
        match r {
            Ok((w, h, f)) => mode_of(mode@) == Ok::<(int, int, int), Seq<char>>(
                (w as int, h as int, f as int),
            ),
            Err(e) => mode_of(mode@) == Err::<(int, int, int), Seq<char>>(e@),
        },
{
    let chars = text::chars_of(mode);
    let parts = text::split_chars(chars.as_slice(), 'x');
    let ghost pieces = text::split_on(mode@, 'x');
    assert(pieces.len() == parts@.len());
    if parts.len() != 3 {
        let mut e = text::joined("Expected mode in format WxHxR, but got '", mode);
        e.append("'.");
        return Err(e);
    }
    assert(pieces[0] == parts@[0]@ && pieces[1] == parts@[1]@ && pieces[2] == parts@[2]@);
    let width = match read_part(&parts[0], "Failed to parse width: ") {
        Ok(n) => n,
        Err(e) => return Err(e),
    };
    let height = match read_part(&parts[1], "Failed to parse height: ") {
        Ok(n) => n,
        Err(e) => return Err(e),
    };
    match read_part(&parts[2], "Failed to parse refresh rate: ") {
        Ok(rate) => Ok((width, height, rate)),
        Err(e) => Err(e),
    }
}

/// The keys in a request, or what is said of them; `request` is what the
/// request is called.
pub open spec fn keys_of(p: params::Entries, request: Seq<char>) -> Result<(Seq<u8>, int), Seq<char>> {
    let p1 = params::without(p, "rikey"@);
    let p2 = params::without(p1, "rikeyid"@);
    match params::value_of(p, "rikey"@) {
        None => Err(params::missing("Expected 'rikey' in "@ + request + " request, got "@, p1)),
        Some(key) => if !hexadecimal::is_hex_text(key) {
            Err("Failed to decode remote input key: "@ + hexadecimal::decode_error(key))
        } else {
            match params::value_of(p1, "rikeyid"@) {
                None => Err(
                    params::missing("Expected 'rikey_id' in "@ + request + " request, got "@, p2),
                ),
                Some(id) => match signed::read_signed(id, i64::MIN as int, i64::MAX as int) {
                    Err(e) => Err(
                        "Couldn't parse 'rikey_id' in "@ + request + " request, got '"@ + id
                            + "' with error: "@ + e.message_spec(),
                    ),
                    Ok(n) => Ok((hexadecimal::hex_decoded(key), n)),
                },
            }
        },
    }
}

/// The keys in a request; see [`keys_of`].
fn read_keys(params: &mut Params, request: &str) -> (r: Result<SessionKeyData, String>)
    ensures
        match r {
            Ok(k) => {
                &&& keys_of(old(params)@, request@) == Ok::<(Seq<u8>, int), Seq<char>>(
                    (k.remote_input_key@, k.remote_input_key_id as int),
                )
                &&& final(params)@ == params::without(
                    params::without(old(params)@, "rikey"@),
                    "rikeyid"@,
                )
            },
            Err(e) => keys_of(old(params)@, request@) == Err::<(Seq<u8>, int), Seq<char>>(e@),
        },
{
    let mut expected = text::joined("Expected 'rikey' in ", request);
    expected.append(" request, got ");
    let key = match params.require("rikey", expected.as_str()) {
        Ok(key) => key,
        Err(e) => return Err(e),
    };
    let remote_input_key = match hexadecimal::decode(key.as_str()) {
        Ok(key) => key,
        Err(e) => return Err(text::joined("Failed to decode remote input key: ", e.as_str())),
    };
    let mut expected = text::joined("Expected 'rikey_id' in ", request);
    expected.append(" request, got ");
    let id = match params.require("rikeyid", expected.as_str()) {
        Ok(id) => id,
        Err(e) => return Err(e),
    };
    let chars = text::chars_of(id.as_str());
    match signed::parse_signed(chars.as_slice(), i64::MIN, i64::MAX) {
        Ok(remote_input_key_id) => Ok(SessionKeyData { remote_input_key, remote_input_key_id }),
        Err(e) => {
            let mut message = text::joined("Couldn't parse 'rikey_id' in ", request);
            message.append(" request, got '");
            message.append(id.as_str());
            message.append("' with error: ");
            message.append(e.message());
            Err(message)
        },
    }
}

/// The number under `key`, or `default` where there is none that can be read.
pub open spec fn number_or(p: params::Entries, key: Seq<char>, default: int) -> int {
    match params::value_of(p, key) {
        None => default,
        Some(s) => match text::read_unsigned(s, u32::MAX as int) {
            Ok(n) => n,
            Err(_) => default,
        },
    }
}

/// The number under `key`; see [`number_or`].
fn read_number_or(params: &mut Params, key: &str, default: u32) -> (r: u32)
    ensures
        r == number_or(old(params)@, key@, default as int),
        final(params)@ == params::without(old(params)@, key@),
{
    match params.remove(key) {
        None => default,
        Some(s) => {
            let chars = text::chars_of(s.as_str());
            match text::parse_unsigned(chars.as_slice(), u32::MAX as u64) {
                Ok(n) => n as u32,
                Err(_) => default,
            }
        },
    }
}

/// Stereo: two channels, and the bits of left and right.
pub const DEFAULT_SURROUND: u32 = 196610;

/// The session that is asked for, or what is said of the request; the first
/// thing that is wrong decides. `ids` are the numbers of the applications.
pub open spec fn launch_of(p: params::Entries, ids: Seq<i32>) -> Result<LaunchValues, Seq<char>> {
    let p1 = params::without(p, "appid"@);
    let p2 = params::without(p1, "mode"@);
    let p3 = params::without(params::without(p2, "rikey"@), "rikeyid"@);
    let p4 = params::without(p3, "surroundAudioInfo"@);
    match params::value_of(p, "appid"@) {
        None => Err(params::missing("Expected 'appid' in launch request, got "@, p1)),
        Some(s) => match app_id_of(s) {
            Err(e) => Err(e),
            Ok(id) => match params::value_of(p1, "mode"@) {
                None => Err(params::missing("Expected 'mode' in launch request, got "@, p2)),
                Some(mode) => match mode_of(mode) {
                    Err(e) => Err(e),
                    Ok((width, height, refresh_rate)) => match keys_of(p2, "launch"@) {
                        Err(e) => Err(e),
                        Ok((key, key_id)) => {
                            let surround = number_or(
                                p3,
                                "surroundAudioInfo"@,
                                DEFAULT_SURROUND as int,
                            );
                            let place = place_of(ids, id);
                            if place >= ids.len() {
                                Err(unknown_app(id as i32))
                            } else {
                                Ok(
                                    LaunchValues {
                                        application: place,
                                        application_id: id,
                                        width,
                                        height,
                                        refresh_rate,
                                        key,
                                        key_id,
                                        audio_channels: surround % 0x100,
                                        audio_channel_mask: surround / 0x1_0000,
                                        hdr: number_or(p4, "hdrMode"@, 0) != 0,
                                    },
                                )
                            }
                        },
                    },
                },
            },
        },
    }
}

/// The session that is asked for; see [`launch_of`].
pub fn read_launch(params: &mut Params, ids: &[i32]) -> (r: Result<LaunchRequest, String>)
    ensures
        match r {
            Ok(l) => launch_of(old(params)@, ids@) == Ok::<LaunchValues, Seq<char>>(l@),
            Err(e) => launch_of(old(params)@, ids@) == Err::<LaunchValues, Seq<char>>(e@),
        },
{
    let id = match params.require("appid", "Expected 'appid' in launch request, got ") {
        Ok(s) => match read_app_id(s.as_str()) {
            Ok(id) => id,
            Err(e) => return Err(e),
        },
        Err(e) => return Err(e),
    };
    let (width, height, refresh_rate) = match params.require(
        "mode",
        "Expected 'mode' in launch request, got ",
    ) {
        Ok(mode) => match read_mode(mode.as_str()) {
            Ok(m) => m,
            Err(e) => return Err(e),
        },
        Err(e) => return Err(e),
    };
    let keys = match read_keys(params, "launch") {
        Ok(keys) => keys,
        Err(e) => return Err(e),
    };
    let surround = read_number_or(params, "surroundAudioInfo", DEFAULT_SURROUND);
    let hdr_mode = read_number_or(params, "hdrMode", 0);
    let place = find_place(ids, id);
    if place >= ids.len() {
        return Err(say_unknown_app(id));
    }
    Ok(
        LaunchRequest {
            application: place,
            application_id: id,
            width,
            height,
            refresh_rate,
            keys,
            audio_channels: (surround % 0x100) as u8,
            audio_channel_mask: surround / 0x1_0000,
            hdr: hdr_mode != 0,
        },
    )
}

/// The session that a request asks for, among these applications, or the
/// answer to a request that is wrong.
pub fn launch(params: &mut Params, apps: &Vec<ApplicationConfig>) -> (r: Result<
    LaunchRequest,
    Answer,
>)
    ensures
        match r {
            Ok(l) => launch_of(old(params)@, ids_of(apps@)) == Ok::<LaunchValues, Seq<char>>(l@),
            Err(a) => launch_of(old(params)@, ids_of(apps@)) matches Err(e) && a.is_xml_error(400, e),
        },
{
    let ids = app_ids(apps);
    match read_launch(params, ids.as_slice()) {
        Ok(l) => Ok(l),
        Err(e) => Err(response::xml_error(400, e.as_str())),
    }
}

/// A session that is launched is one of an application that is on the list.
pub proof fn launched_app_is_listed(p: params::Entries, ids: Seq<i32>)
    requires
        launch_of(p, ids) is Ok,
    ensures
        0 <= launch_of(p, ids)->Ok_0.application < ids.len(),
        ids[launch_of(p, ids)->Ok_0.application] == launch_of(p, ids)->Ok_0.application_id,
{
    let id = launch_of(p, ids)->Ok_0.application_id;
    place_holds_id(ids, id);
}

/// What launching a session came to.
#[derive(Clone, Copy, Debug, PartialEq, Eq, Structural)]
pub enum LaunchOutcome {
    /// The session could not be set up.
    NotInitialized,
    /// The application runs.
    Launched,
    /// The application could not be launched.
    Failed,
    /// The application was not up in time.
    TimedOut,
}

/// The session that was set up is to be stopped, so that it can be tried
/// again.
pub fn stops_session(outcome: LaunchOutcome) -> (r: bool)
    ensures
        r == (outcome == LaunchOutcome::Failed || outcome == LaunchOutcome::TimedOut),
{
    match outcome {
        LaunchOutcome::Failed | LaunchOutcome::TimedOut => true,
        _ => false,
    }
}

/// Where the stream is found.
pub open spec fn session_url(host: Option<Seq<char>>, port: u16) -> Seq<char> {
    match host {
        None => Seq::empty(),
        Some(h) => "<sessionUrl0>rtsp://"@ + h + ":"@ + text::decimal(port as nat)
            + "</sessionUrl0>"@,
    }
}

/// Where the stream is found; see [`session_url`].
fn write_session_url(host: Option<&str>, port: u16) -> (r: String)
    ensures
        r@ == session_url(
            match host {
                Some(h) => Some(h@),
                None => None,
            },
            port,
        ),
{
    match host {
        None => String::new(),
        Some(h) => {
            let number = text::decimal_string(port as u64);
            let mut r = text::joined("<sessionUrl0>rtsp://", h);
            r.append(":");
            r.append(number.as_str());
            r.append("</sessionUrl0>");
            r
        },
    }
}

/// The answer to a launch; `host` is the host part of the stream's address.
pub fn launch_answer(outcome: LaunchOutcome, host: Option<&str>, port: u16) -> (r: Answer)
    ensures
        match outcome {
            LaunchOutcome::NotInitialized => r.is_xml_error(400, "Failed to start session"@),
            LaunchOutcome::Launched => r.is_xml(
                "<root status_code=\"200\"><gamesession>1</gamesession>"@ + session_url(
                    match host {
                        Some(h) => Some(h@),
                        None => None,
                    },
                    port,
                ) + "</root>"@,
            ),
            LaunchOutcome::Failed | LaunchOutcome::TimedOut => r.is_xml_error(
                503,
                "Application failed to start (check Moonshine logs for more information)."@,
            ),
        },
{
    match outcome {
        LaunchOutcome::NotInitialized => response::xml_error(400, "Failed to start session"),
        LaunchOutcome::Failed | LaunchOutcome::TimedOut => response::xml_error(
            503,
            "Application failed to start (check Moonshine logs for more information).",
        ),
        LaunchOutcome::Launched => {
            let url = write_session_url(host, port);
            let mut body = text::joined(
                "<root status_code=\"200\"><gamesession>1</gamesession>",
                url.as_str(),
            );
            body.append("</root>");
            response::xml(body)
        },
    }
}

/// The keys with which a session is resumed, or the answer to a request that
/// is wrong.
pub fn resume(params: &mut Params) -> (r: Result<SessionKeyData, Answer>)
    ensures
        match r {
            Ok(k) => keys_of(old(params)@, "resume"@) == Ok::<(Seq<u8>, int), Seq<char>>(
                (k.remote_input_key@, k.remote_input_key_id as int),
            ),
            Err(a) => keys_of(old(params)@, "resume"@) matches Err(e) && a.is_xml_error(400, e),
        },
{
    match read_keys(params, "resume") {
        Ok(k) => Ok(k),
        Err(e) => Err(response::xml_error(400, e.as_str())),
    }
}

/// The answer to a request to resume, by whether the keys were taken over.
pub fn resume_answer(updated: bool, host: Option<&str>, port: u16) -> (r: Answer)
    ensures
        if updated {
            r.is_xml(
                "<root status_code=\"200\">"@ + session_url(
                    match host {
                        Some(h) => Some(h@),
                        None => None,
                    },
                    port,
                ) + "<resume>1</resume></root>"@,
            )
        } else {
            r.is_xml_error(400, "Failed to update session keys"@)
        },
{
    if !updated {
        return response::xml_error(400, "Failed to update session keys");
    }
    let url = write_session_url(host, port);
    let mut body = text::joined("<root status_code=\"200\">", url.as_str());
    body.append("<resume>1</resume></root>");
    response::xml(body)
}

/// The answer to a request to end the session, by whether it was stopped.
pub fn cancel(stopped: bool) -> (r: Answer)
    ensures
        if stopped {
            r.is_xml("<root status_code=\"200\"><cancel>1</cancel></root>"@)
        } else {
            r.refuses("Failed to stop session"@)
        },
{
    if !stopped {
        return response::bad_request("Failed to stop session".to_owned());
    }
    response::xml("<root status_code=\"200\"><cancel>1</cancel></root>".to_owned())
}

/// The application whose box art is asked for, or what is said of the request.
pub open spec fn asset_of(p: params::Entries, ids: Seq<i32>) -> Result<int, Seq<char>> {
    match params::value_of(p, "appid"@) {
        None => Err(
            params::missing(
                "Expected 'appasset' in launch request, got "@,
                params::without(p, "appid"@),
            ),
        ),
        Some(s) => match app_id_of(s) {
            Err(e) => Err(e),
            Ok(id) => if place_of(ids, id) < ids.len() {
                Ok(place_of(ids, id))
            } else {
                Err(unknown_app(id as i32))
            },
        },
    }
}

/// The application whose box art is asked for; see [`asset_of`].
pub fn read_asset(params: &mut Params, ids: &[i32]) -> (r: Result<usize, String>)
    ensures
        match r {
            Ok(n) => asset_of(old(params)@, ids@) == Ok::<int, Seq<char>>(n as int) && n < ids@.len(),
            Err(e) => asset_of(old(params)@, ids@) == Err::<int, Seq<char>>(e@),
        },
{
    let id = match params.require("appid", "Expected 'appasset' in launch request, got ") {
        Ok(s) => match read_app_id(s.as_str()) {
            Ok(id) => id,
            Err(e) => return Err(e),
        },
        Err(e) => return Err(e),
    };
    let place = find_place(ids, id);
    if place >= ids.len() {
        return Err(say_unknown_app(id));
    }
    Ok(place)
}

/// The path of the box art that is asked for, or the answer to a request that
/// is wrong.
pub fn app_asset(params: &mut Params, apps: &Vec<ApplicationConfig>) -> (r: Result<String, Answer>)
    ensures
        match asset_of(old(params)@, ids_of(apps@)) {
            Err(e) => r matches Err(a) && a.refuses(e),
            Ok(n) => match apps@[n].boxart {
                Some(path) => r == Ok::<String, Answer>(path),
                None => r matches Err(a) && a.refuses(
                    "No boxart defined for app '"@ + apps@[n].title@ + "'."@,
                ),
            },
        },
{
    let ids = app_ids(apps);
    let n = match read_asset(params, ids.as_slice()) {
        Ok(n) => n,
        Err(e) => return Err(response::bad_request(e)),
    };
    match &apps[n].boxart {
        Some(path) => Ok(path.clone()),
        None => {
            let mut e = text::joined("No boxart defined for app '", apps[n].title.as_str());
            e.append("'.");
            Err(response::bad_request(e))
        },
    }
}

/// The longest body of a request that hands in a PIN.
pub const PIN_BODY_LIMIT: usize = 1024;

/// A client's number and PIN, where a form holds both.
pub open spec fn pin_of(p: params::Entries) -> Option<(Seq<char>, Seq<char>)> {
    match (params::value_of(p, "uniqueid"@), params::value_of(p, "pin"@)) {
        (Some(id), Some(pin)) => Some((id, pin)),
        _ => None,
    }
}

/// A client's number and PIN; see [`pin_of`].
pub fn read_pin(params: &Params) -> (r: Option<(String, String)>)
    ensures
        match r {
            Some((id, pin)) => pin_of(params@) == Some((id@, pin@)),
            None => pin_of(params@) is None,
        },
{
    match (params.get("uniqueid"), params.get("pin")) {
        (Some(id), Some(pin)) => Some((id, pin)),
        _ => None,
    }
}

/// The client's number and the PIN that a body hands in, or the answer to one
/// that could not be read (`None`), is too long, or lacks either.
pub fn submit_pin(body: Option<&[u8]>) -> (r: Result<(String, String), Answer>)
    ensures
        match r {
            Ok((id, pin)) => {
                &&& body matches Some(b) && b@.len() <= PIN_BODY_LIMIT && pin_of(
                    params::form_parsed(b@),
                ) == Some((id@, pin@))
            },
            Err(a) => {
                &&& a.refuses("Bad request."@)
                &&& body matches Some(b) ==> b@.len() > PIN_BODY_LIMIT || pin_of(
                    params::form_parsed(b@),
                ) is None
            },
        },
{
    if let Some(b) = body {
        if b.len() <= PIN_BODY_LIMIT {
            let params = Params::from_form(b);
            if let Some(found) = read_pin(&params) {
                return Ok(found);
            }
        }
    }
    Err(response::bad_request("Bad request.".to_owned()))
}

/// The answer to a PIN, by whether it was taken.
pub fn submit_pin_answer(registered: bool) -> (r: Answer)
    ensures
        if registered {
            r.says(200, ContentType::Unset, "PIN accepted."@)
        } else {
            r.refuses("Failed to register PIN."@)
        },
{
    if registered {
        Answer {
            status: 200,
            content_type: ContentType::Unset,
            body: "PIN accepted.".to_owned(),
        }
    } else {
        response::bad_request("Failed to register PIN.".to_owned())
    }
}

/// The names that requests for a session use are told apart.
proof fn launch_names_differ()
    ensures
        "appid"@ != "mode"@,
        "appid"@ != "rikey"@,
        "appid"@ != "rikeyid"@,
        "appid"@ != "surroundAudioInfo"@,
        "appid"@ != "hdrMode"@,
        "mode"@ != "rikey"@,
        "mode"@ != "rikeyid"@,
        "mode"@ != "surroundAudioInfo"@,
        "mode"@ != "hdrMode"@,
        "rikey"@ != "rikeyid"@,
        "rikey"@ != "surroundAudioInfo"@,
        "rikey"@ != "hdrMode"@,
        "rikeyid"@ != "surroundAudioInfo"@,
        "rikeyid"@ != "hdrMode"@,
        "surroundAudioInfo"@ != "hdrMode"@,
{
    reveal_strlit("appid");
    reveal_strlit("mode");
    reveal_strlit("rikey");
    reveal_strlit("rikeyid");
    reveal_strlit("surroundAudioInfo");
    reveal_strlit("hdrMode");
    assert("appid"@.len() == 5 && "appid"@[0] == 'a');
    assert("mode"@.len() == 4);
    assert("rikey"@.len() == 5 && "rikey"@[0] == 'r');
    assert("rikeyid"@.len() == 7 && "rikeyid"@[0] == 'r');
    assert("surroundAudioInfo"@.len() == 17);
    assert("hdrMode"@.len() == 7 && "hdrMode"@[0] == 'h');
}

/// What is read of a request for a session does not depend on what was taken
/// out of it before.
proof fn launch_values_stay(p: params::Entries)
    ensures
        ({
            let p1 = params::without(p, "appid"@);
            let p2 = params::without(p1, "mode"@);
            let p25 = params::without(p2, "rikey"@);
            let p3 = params::without(p25, "rikeyid"@);
            let p4 = params::without(p3, "surroundAudioInfo"@);
            &&& params::value_of(p1, "mode"@) == params::value_of(p, "mode"@)
            &&& params::value_of(p2, "rikey"@) == params::value_of(p, "rikey"@)
            &&& params::value_of(p25, "rikeyid"@) == params::value_of(p, "rikeyid"@)
            &&& params::value_of(p3, "surroundAudioInfo"@) == params::value_of(p, "surroundAudioInfo"@)
            &&& params::value_of(p4, "hdrMode"@) == params::value_of(p, "hdrMode"@)
        }),
{
    launch_names_differ();
    let p1 = params::without(p, "appid"@);
    let p2 = params::without(p1, "mode"@);
    let p25 = params::without(p2, "rikey"@);
    let p3 = params::without(p25, "rikeyid"@);
    params::removed_values_are_gone(p, "appid"@, "mode"@);
    params::removed_values_are_gone(p, "appid"@, "rikey"@);
    params::removed_values_are_gone(p, "appid"@, "rikeyid"@);
    params::removed_values_are_gone(p, "appid"@, "surroundAudioInfo"@);
    params::removed_values_are_gone(p, "appid"@, "hdrMode"@);
    params::removed_values_are_gone(p1, "mode"@, "rikey"@);
    params::removed_values_are_gone(p1, "mode"@, "rikeyid"@);
    params::removed_values_are_gone(p1, "mode"@, "surroundAudioInfo"@);
    params::removed_values_are_gone(p1, "mode"@, "hdrMode"@);
    params::removed_values_are_gone(p2, "rikey"@, "rikeyid"@);
    params::removed_values_are_gone(p2, "rikey"@, "surroundAudioInfo"@);
    params::removed_values_are_gone(p2, "rikey"@, "hdrMode"@);
    params::removed_values_are_gone(p25, "rikeyid"@, "surroundAudioInfo"@);
    params::removed_values_are_gone(p25, "rikeyid"@, "hdrMode"@);
    params::removed_values_are_gone(p3, "surroundAudioInfo"@, "hdrMode"@);
}

/// The text `mode` is three numbers with `x` between them.
pub open spec fn writes_mode(mode: Seq<char>, a: Seq<char>, b: Seq<char>, c: Seq<char>) -> bool {
    mode == a.push('x') + b.push('x') + c && !a.contains('x') && !b.contains('x') && !c.contains('x')
}

/// A session is launched as it was asked for: each of its values is what the
/// request holds under the name for it. Its application is the first of the
/// list that has the number asked for; it goes beyond the standard range of
/// colours exactly if the request holds a number other than 0 for that; it has
/// two channels, left and right, unless the request holds a number that tells
/// them.
pub proof fn launch_is_as_asked_for(p: params::Entries, ids: Seq<i32>)
    requires
        launch_of(p, ids) is Ok,
    ensures
        ({
            let l = launch_of(p, ids)->Ok_0;
            &&& params::value_of(p, "appid"@) matches Some(s) && signed::read_signed(
                s,
                i32::MIN as int,
                i32::MAX as int,
            ) == Ok::<int, NumberError>(l.application_id)
            &&& 0 <= l.application < ids.len()
            &&& ids[l.application] == l.application_id
            &&& forall|i: int| 0 <= i < l.application ==> #[trigger] ids[i] != l.application_id
            &&& params::value_of(p, "mode"@) matches Some(s) && exists|
                a: Seq<char>,
                b: Seq<char>,
                c: Seq<char>,
            | #[trigger]
                writes_mode(s, a, b, c) && text::read_unsigned(a, u32::MAX as int) == Ok::<int, NumberError>(
                    l.width,
                ) && text::read_unsigned(b, u32::MAX as int) == Ok::<int, NumberError>(l.height)
                    && text::read_unsigned(c, u32::MAX as int) == Ok::<int, NumberError>(l.refresh_rate)
            &&& params::value_of(p, "rikey"@) matches Some(s) && hexadecimal::spells(s, l.key)
            &&& params::value_of(p, "rikeyid"@) matches Some(s) && signed::read_signed(
                s,
                i64::MIN as int,
                i64::MAX as int,
            ) == Ok::<int, NumberError>(l.key_id)
            &&& l.hdr <==> (params::value_of(p, "hdrMode"@) matches Some(s) && (text::read_unsigned(
                s,
                u32::MAX as int,
            ) matches Ok(n) && n != 0))
            &&& match params::value_of(p, "surroundAudioInfo"@) {
                Some(s) => match text::read_unsigned(s, u32::MAX as int) {
                    Ok(n) => {
                        &&& 0 <= l.audio_channels < 256
                        &&& 0 <= n - (l.audio_channel_mask * 65536 + l.audio_channels) < 65536
                        &&& (n - l.audio_channels) % 256 == 0
                    },
                    Err(_) => l.audio_channels == 2 && l.audio_channel_mask == 3,
                },
                None => l.audio_channels == 2 && l.audio_channel_mask == 3,
            }
        }),
{
    launch_values_stay(p);
    let l = launch_of(p, ids)->Ok_0;
    place_holds_id(ids, l.application_id);
    let mode = params::value_of(p, "mode"@)->0;
    let parts = text::split_on(mode, 'x');
    text::three_pieces(mode, mode, mode, mode, 'x');
    text::split_then_join(mode, 'x');
    assert(writes_mode(mode, parts[0], parts[1], parts[2]));
    let key = params::value_of(p, "rikey"@)->0;
    hexadecimal::decoding_keeps_every_byte(key, Seq::empty());
    if let Some(s) = params::value_of(p, "surroundAudioInfo"@) {
        text::numbers_are_digits(s, '0', u32::MAX as int);
    }
}

/// A request for a session that holds an application on the list, a mode and
/// keys is granted, with these values; the rest may be missing.
pub proof fn complete_launches_are_granted(
    p: params::Entries,
    ids: Seq<i32>,
    id: i32,
    width: u32,
    height: u32,
    refresh_rate: u32,
    key: Seq<u8>,
    key_id: i64,
)
    requires
        ids.contains(id),
        params::value_of(p, "appid"@) == Some(signed::signed_decimal(id as int)),
        params::value_of(p, "mode"@) == Some(
            text::decimal(width as nat).push('x') + text::decimal(height as nat).push('x') + text::decimal(
                refresh_rate as nat,
            ),
        ),
        params::value_of(p, "rikey"@) == Some(hexadecimal::hex_encoded(key)),
        params::value_of(p, "rikeyid"@) == Some(signed::signed_decimal(key_id as int)),
    ensures
        launch_of(p, ids) matches Ok(l) && l.application_id == id && l.width == width && l.height == height
            && l.refresh_rate == refresh_rate && l.key == key && l.key_id == key_id,
{
    launch_values_stay(p);
    signed::signed_decimal_reads_back(id as int, i32::MIN as int, i32::MAX as int);
    signed::signed_decimal_reads_back(key_id as int, i64::MIN as int, i64::MAX as int);
    let max = u32::MAX as int;
    let a = text::decimal(width as nat);
    let b = text::decimal(height as nat);
    let c = text::decimal(refresh_rate as nat);
    text::decimal_reads_back(width as nat, max);
    text::decimal_reads_back(height as nat, max);
    text::decimal_reads_back(refresh_rate as nat, max);
    assert(!a.contains('x')) by {
        assert forall|i: int| 0 <= i < a.len() implies a[i] != 'x' by {
            assert(text::is_digit(a[i]));
        }
    }
    assert(!b.contains('x')) by {
        assert forall|i: int| 0 <= i < b.len() implies b[i] != 'x' by {
            assert(text::is_digit(b[i]));
        }
    }
    assert(!c.contains('x')) by {
        assert forall|i: int| 0 <= i < c.len() implies c[i] != 'x' by {
            assert(text::is_digit(c[i]));
        }
    }
    text::three_pieces(a, a, b, c, 'x');
    hexadecimal::hex_reads_back(key);
    place_holds_id(ids, id as int);
    let at = choose|i: int| 0 <= i < ids.len() && ids[i] == id;
    assert(ids[at] == id);
}

/// A request for a session that lacks an application, a mode or keys is
/// refused, and so is one for an application that is not on the list.
pub proof fn incomplete_launches_are_refused(p: params::Entries, ids: Seq<i32>)
    ensures
        params::value_of(p, "appid"@) is None ==> launch_of(p, ids) is Err,
        params::value_of(p, "mode"@) is None ==> launch_of(p, ids) is Err,
        params::value_of(p, "rikey"@) is None ==> launch_of(p, ids) is Err,
        params::value_of(p, "rikeyid"@) is None ==> launch_of(p, ids) is Err,
        ids.len() == 0 ==> launch_of(p, ids) is Err,
{
    if launch_of(p, ids) is Ok {
        launch_is_as_asked_for(p, ids);
    }
}

/// A session is resumed with the keys that the request holds, and exactly if
/// it holds both.
pub proof fn resumed_keys_are_as_asked_for(p: params::Entries, request: Seq<char>)
    ensures
        keys_of(p, request) is Ok <==> {
            &&& params::value_of(p, "rikey"@) matches Some(s) && exists|b: Seq<u8>| #[trigger]
                hexadecimal::spells(s, b)
            &&& params::value_of(p, "rikeyid"@) matches Some(s) && signed::read_signed(
                s,
                i64::MIN as int,
                i64::MAX as int,
            ) is Ok
        },
        keys_of(p, request) matches Ok((key, id)) ==> {
            &&& params::value_of(p, "rikey"@) matches Some(s) && hexadecimal::spells(s, key)
            &&& params::value_of(p, "rikeyid"@) matches Some(s) && signed::read_signed(
                s,
                i64::MIN as int,
                i64::MAX as int,
            ) == Ok::<int, NumberError>(id)
        },
{
    launch_names_differ();
    params::removed_values_are_gone(p, "rikey"@, "rikeyid"@);
    if let Some(s) = params::value_of(p, "rikey"@) {
        hexadecimal::decoding_keeps_every_byte(s, Seq::empty());
        if exists|b: Seq<u8>| #[trigger] hexadecimal::spells(s, b) {
            let b = choose|b: Seq<u8>| #[trigger] hexadecimal::spells(s, b);
            hexadecimal::decoding_keeps_every_byte(s, b);
        }
    }
}

/// Box art is that of the first application of the list that has the number
/// asked for; there is none exactly where the number cannot be read or no
/// application has it.
pub proof fn asset_is_of_the_app_asked_for(p: params::Entries, ids: Seq<i32>)
    ensures
        match asset_of(p, ids) {
            Ok(n) => {
                &&& 0 <= n < ids.len()
                &&& params::value_of(p, "appid"@) matches Some(s) && signed::read_signed(
                    s,
                    i32::MIN as int,
                    i32::MAX as int,
                ) == Ok::<int, NumberError>(ids[n] as int)
                &&& forall|i: int| 0 <= i < n ==> #[trigger] ids[i] != ids[n]
            },
            Err(_) => params::value_of(p, "appid"@) matches Some(s) ==> (signed::read_signed(
                s,
                i32::MIN as int,
                i32::MAX as int,
            ) matches Ok(id) ==> forall|i: int| 0 <= i < ids.len() ==> #[trigger] ids[i] != id),
        },
{
    if let Some(s) = params::value_of(p, "appid"@) {
        if let Ok(id) = signed::read_signed(s, i32::MIN as int, i32::MAX as int) {
            place_holds_id(ids, id);
        }
    }
}

/// A PIN is handed on with the number of its client, both as they stand in the
/// form, exactly where the form holds both.
pub proof fn pin_is_as_handed_in(p: params::Entries)
    ensures
        pin_of(p) is Some <==> params::value_of(p, "uniqueid"@) is Some && params::value_of(p, "pin"@) is Some,
        pin_of(p) matches Some((id, pin)) ==> params::value_of(p, "uniqueid"@) == Some(id)
            && params::value_of(p, "pin"@) == Some(pin),
{
}

/// A request that is refused is told why: an application that is not there by
/// its number less one, a number that cannot be read by the reason, and a mode
/// that is not three numbers by the mode or the part that is wrong.
pub proof fn refusals_say_why(id: i32, s: Seq<char>, mode: Seq<char>, port: u16)
    ensures
        id > i32::MIN ==> unknown_app(id) == "Couldn't find application with ID "@ + signed::signed_decimal(
            id - 1,
        ) + "."@,
        unknown_app(i32::MIN) == "Couldn't find application with ID "@ + signed::signed_decimal(
            i32::MAX as int,
        ) + "."@,
        app_id_of(s) matches Ok(n) ==> signed::read_signed(s, i32::MIN as int, i32::MAX as int) == Ok::<
            int,
            NumberError,
        >(n),
        signed::read_signed(s, i32::MIN as int, i32::MAX as int) matches Err(e) ==> app_id_of(s) == Err::<
            int,
            Seq<char>,
        >("Failed to parse application ID: "@ + e.message_spec()),
        text::split_on(mode, 'x').len() != 3 ==> mode_of(mode) == Err::<(int, int, int), Seq<char>>(
            "Expected mode in format WxHxR, but got '"@ + mode + "'."@,
        ),
        session_url(None, port) == Seq::<char>::empty(),
        session_url(Some(s), port) == "<sessionUrl0>rtsp://"@ + s + ":"@ + text::decimal(port as nat)
            + "</sessionUrl0>"@,
{
}

/// A value that is missing is told by its name and the names that are there:
/// that of the application before the mode, and the mode before the keys.
pub proof fn missing_values_are_told(p: params::Entries, ids: Seq<i32>)
    ensures
        params::value_of(p, "appid"@) is None ==> {
            &&& launch_of(p, ids) == Err::<LaunchValues, Seq<char>>(
                params::missing(
                    "Expected 'appid' in launch request, got "@,
                    params::without(p, "appid"@),
                ),
            )
            &&& asset_of(p, ids) == Err::<int, Seq<char>>(
                params::missing(
                    "Expected 'appasset' in launch request, got "@,
                    params::without(p, "appid"@),
                ),
            )
        },
        params::value_of(p, "rikey"@) is None ==> keys_of(p, "launch"@) == Err::<
            (Seq<u8>, int),
            Seq<char>,
        >(
            params::missing(
                "Expected 'rikey' in "@ + "launch"@ + " request, got "@,
                params::without(p, "rikey"@),
            ),
        ),
{
}

} // verus!
