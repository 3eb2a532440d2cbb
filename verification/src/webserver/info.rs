//! What the host tells about itself, and the page that asks for the PIN.
use vstd::prelude::*;

use crate::application;
use crate::application::ApplicationConfig;
use crate::hexadecimal;
use crate::markup;
use crate::signed;
use crate::text;
use crate::webserver::params;
use crate::webserver::params::Params;
use crate::webserver::response;
use crate::webserver::response::{Answer, ContentType};

verus! {

/// One application in the list.
pub open spec fn app_item(app: ApplicationConfig, hdr_supported: bool) -> Seq<char> {
    "<App><IsHdrSupported>"@ + (if hdr_supported {
        "1"@
    } else {
        "0"@
    }) + "</IsHdrSupported><AppTitle>"@ + markup::escaped(app.title@) + "</AppTitle><ID>"@
        + signed::signed_decimal(application::id_of(application::hash_of(app.title@)) as int)
        + "</ID></App>"@
}

/// The applications in the list.
pub open spec fn app_items(apps: Seq<ApplicationConfig>, hdr_supported: bool) -> Seq<char>
    decreases apps.len(),
{
    if apps.len() == 0 {
        "<root status_code=\"200\">"@
    } else {
        app_items(apps.drop_last(), hdr_supported) + app_item(apps.last(), hdr_supported)
    }
}

/// One application in the list; see [`app_item`].
fn write_app(app: &ApplicationConfig, hdr_supported: bool) -> (r: String)
    ensures
        r@ == app_item(*app, hdr_supported),
{
    let title = markup::escape_xml(app.title.as_str());
    let id = signed::signed_string(app.id() as i64);
    let hdr: &str = if hdr_supported {
        "1"
    } else {
        "0"
    };
    let mut r = text::joined("<App><IsHdrSupported>", hdr);
    r.append("</IsHdrSupported><AppTitle>");
    r.append(title.as_str());
    r.append("</AppTitle><ID>");
    r.append(id.as_str());
    r.append("</ID></App>");
    r
}

/// The list of applications, each with its escaped title and its number.
pub fn app_list(apps: &Vec<ApplicationConfig>, hdr_supported: bool) -> (r: Answer)
    ensures
        r.is_xml(app_items(apps@, hdr_supported) + "</root>"@),
{
    let mut body = "<root status_code=\"200\">".to_owned();
    let mut i: usize = 0;
    while i < apps.len()
        invariant
            i <= apps@.len(),
            body@ == app_items(apps@.take(i as int), hdr_supported),
        decreases apps@.len() - i,
    {
        assert(apps@.take(i + 1).drop_last() == apps@.take(i as int));
        let item = write_app(&apps[i], hdr_supported);
        body.append(item.as_str());
        i = i + 1;
    }
    assert(apps@.take(apps@.len() as int) == apps@);
    body.append("</root>");
    response::xml(body)
}

/// The client that is to be looked up among the paired ones: only under TLS,
/// and only where the request names it.
pub fn client_to_look_up(params: &Params, https: bool) -> (r: Option<String>)
    ensures
        match r {
            Some(id) => https && params::value_of(params@, "uniqueid"@) == Some(id@),
            None => !https || params::value_of(params@, "uniqueid"@) is None,
        },
{
    if https {
        params.get("uniqueid")
    } else {
        None
    }
}

/// The host, as it tells about itself.
#[derive(Debug)]
pub struct HostInfo {
    /// Its name.
    pub name: String,
    /// Its own number.
    pub unique_id: String,
    /// Port for TLS.
    pub port_https: u16,
}

/// H.264.
pub const H264: u32 = 0x1;

/// HEVC.
pub const HEVC: u32 = 0x100;

/// HEVC with 10 bits.
pub const HEVC_MAIN10: u32 = 0x200;

/// AV1.
pub const AV1_MAIN8: u32 = 0x10000;

/// AV1 with 10 bits.
pub const AV1_MAIN10: u32 = 0x20000;

/// H.264 with full chroma.
pub const H264_HIGH8_444: u32 = 0x40000;

/// HEVC with full chroma.
pub const HEVC_REXT8_444: u32 = 0x80000;

/// HEVC with 10 bits and full chroma.
pub const HEVC_REXT10_444: u32 = 0x100000;

/// AV1 with full chroma.
pub const AV1_HIGH8_444: u32 = 0x200000;

/// AV1 with 10 bits and full chroma.
pub const AV1_HIGH10_444: u32 = 0x400000;

/// The codecs that the host offers, a bit for each.
pub const SERVER_CODEC_MODES: u32 = H264 | H264_HIGH8_444 | HEVC | HEVC_REXT8_444 | HEVC_MAIN10
    | HEVC_REXT10_444 | AV1_MAIN8 | AV1_HIGH8_444 | AV1_MAIN10 | AV1_HIGH10_444;

/// What the host tells about itself.
pub open spec fn server_info_body(
    host: HostInfo,
    mac: Seq<char>,
    paired: bool,
    running: Option<i32>,
) -> Seq<char> {
    "<root status_code=\"200\"><hostname>"@ + markup::escaped(host.name@)
        + "</hostname><appversion>7.1.431.-1</appversion><GfeVersion>3.23.0.74</GfeVersion><uniqueid>"@
        + host.unique_id@ + "</uniqueid><HttpsPort>"@ + text::decimal(host.port_https as nat)
        + "</HttpsPort><ExternalPort></ExternalPort><mac>"@ + mac
        + "</mac><MaxLumaPixelsHEVC>1869449984</MaxLumaPixelsHEVC><LocalIP></LocalIP><ServerCodecModeSupport>"@
        + text::decimal(SERVER_CODEC_MODES as nat)
        + "</ServerCodecModeSupport><SupportedDisplayMode></SupportedDisplayMode><PairStatus>"@ + (
    if paired {
        "1"@
    } else {
        "0"@
    }) + "</PairStatus><currentgame>"@ + signed::signed_decimal(
        match running {
            Some(id) => id as int,
            None => 0,
        },
    ) + "</currentgame><state>"@ + (if running is Some {
        "MOONSHINE_SERVER_BUSY"@
    } else {
        "MOONSHINE_SERVER_FREE"@
    }) + "</state></root>"@
}

/// What the host tells about itself. `paired` says that the client looked up
/// by [`client_to_look_up`] was found; `session` is the application that is
/// running, if any, or an error where the session could not be asked for.
pub fn server_info(
    host: &HostInfo,
    mac: Option<&str>,
    paired: bool,
    session: Result<Option<i32>, ()>,
) -> (r: Answer)
    ensures
        match session {
            Err(_) => r.refuses("Failed to get session context"@),
            Ok(running) => r.is_xml(
                server_info_body(
                    *host,
                    match mac {
                        Some(m) => m@,
                        None => Seq::empty(),
                    },
                    paired,
                    running,
                ),
            ),
        },
{
    let running: Option<i32> = match session {
        Ok(running) => running,
        Err(()) => return response::bad_request("Failed to get session context".to_owned()),
    };
    let name = markup::escape_xml(host.name.as_str());
    let port = text::decimal_string(host.port_https as u64);
    let codecs = text::decimal_string(SERVER_CODEC_MODES as u64);
    let game = signed::signed_string(
        match running {
            Some(id) => id as i64,
            None => 0,
        },
    );
    let empty = String::new();
    let mac: &str = match mac {
        Some(m) => m,
        None => empty.as_str(),
    };
    let mut body = text::joined("<root status_code=\"200\"><hostname>", name.as_str());
    body.append(
        "</hostname><appversion>7.1.431.-1</appversion><GfeVersion>3.23.0.74</GfeVersion><uniqueid>",
    );
    body.append(host.unique_id.as_str());
    body.append("</uniqueid><HttpsPort>");
    body.append(port.as_str());
    body.append("</HttpsPort><ExternalPort></ExternalPort><mac>");
    body.append(mac);
    body.append(
        "</mac><MaxLumaPixelsHEVC>1869449984</MaxLumaPixelsHEVC><LocalIP></LocalIP><ServerCodecModeSupport>",
    );
    body.append(codecs.as_str());
    body.append("</ServerCodecModeSupport><SupportedDisplayMode></SupportedDisplayMode><PairStatus>");
    if paired {
        body.append("1");
    } else {
        body.append("0");
    }
    body.append("</PairStatus><currentgame>");
    body.append(game.as_str());
    body.append("</currentgame><state>");
    match running {
        Some(_) => body.append("MOONSHINE_SERVER_BUSY"),
        None => body.append("MOONSHINE_SERVER_FREE"),
    }
    body.append("</state></root>");
    response::xml(body)
}

/// The most digits of a client's number that are taken over into a page.
pub const SHOWN_DIGITS: usize = 16;

/// The hexadecimal digits in `s`, at most [`SHOWN_DIGITS`].
pub open spec fn hex_digits(s: Seq<char>) -> Seq<char>
    decreases s.len(),
{
    if s.len() == 0 {
        Seq::empty()
    } else {
        let before = hex_digits(s.drop_last());
        if hexadecimal::is_hex(s.last()) && before.len() < SHOWN_DIGITS {
            before.push(s.last())
        } else {
            before
        }
    }
}

/// The client's number that is shown: its hexadecimal digits, or a stand-in
/// where there are none.
pub open spec fn shown_id(id: Option<Seq<char>>) -> Seq<char> {
    if id is Some && hex_digits(id->0).len() > 0 {
        hex_digits(id->0)
    } else {
        "0123456789ABCDEF"@
    }
}

/// The client's number that is shown; see [`shown_id`].
fn id_to_show(id: Option<String>) -> (r: Vec<char>)
    ensures
        r@ == shown_id(
            match id {
                Some(s) => Some(s@),
                None => None,
            },
        ),
{
    let mut digits: Vec<char> = Vec::new();
    if let Some(s) = id {
        let chars = text::chars_of(s.as_str());
        let mut i: usize = 0;
        while i < chars.len()
            invariant
                i <= chars@.len(),
                digits@ == hex_digits(chars@.take(i as int)),
            decreases chars@.len() - i,
        {
            assert(chars@.take(i + 1).drop_last() == chars@.take(i as int));
            let c = chars[i];
            let hex = (c >= '0' && c <= '9') || (c >= 'a' && c <= 'f') || (c >= 'A' && c <= 'F');
            if hex && digits.len() < SHOWN_DIGITS {
                digits.push(c);
            }
            i = i + 1;
        }
        assert(chars@.take(chars@.len() as int) == chars@);
        if digits.len() > 0 {
            return digits;
        }
    }
    text::chars_of("0123456789ABCDEF")
}

/// The number that is shown holds at most [`SHOWN_DIGITS`] characters, all of
/// them hexadecimal digits, whatever the request holds.
pub proof fn shown_id_is_harmless(id: Option<Seq<char>>)
    ensures
        0 < shown_id(id).len() <= SHOWN_DIGITS,
        forall|i: int| #![trigger shown_id(id)[i]] 0 <= i < shown_id(id).len() ==> hexadecimal::is_hex(shown_id(id)[i]),
{
    reveal_strlit("0123456789ABCDEF");
    if id is Some {
        hex_digits_are_digits(id->0);
    }
}

/// The digits are digits, and not too many.
proof fn hex_digits_are_digits(s: Seq<char>)
    ensures
        hex_digits(s).len() <= SHOWN_DIGITS,
        forall|i: int| #![trigger hex_digits(s)[i]] 0 <= i < hex_digits(s).len() ==> hexadecimal::is_hex(hex_digits(s)[i]),
    decreases s.len(),
{
    if s.len() > 0 {
        hex_digits_are_digits(s.drop_last());
    }
}

/// The page that asks for the PIN: `template` with the client's number in it.
pub fn pin(template: &str, params: &Params) -> (r: Answer)
    ensures
        r.says(
            200,
            ContentType::Html,
            markup::replaced(
                template@,
                "{{UNIQUE_ID}}"@,
                shown_id(params::value_of(params@, "uniqueid"@)),
            ),
        ),
{
    proof {
        reveal_strlit("{{UNIQUE_ID}}");
    }
    let id = id_to_show(params.get("uniqueid"));
    let page = text::chars_of(template);
    let mark = text::chars_of("{{UNIQUE_ID}}");
    let page = markup::replace_all(page.as_slice(), mark.as_slice(), id.as_slice());
    Answer {
        status: 200,
        content_type: ContentType::Html,
        body: text::string_of(page.as_slice()),
    }
}

/// Each application stands in the list once, in order, with its title and its
/// number, and with whether the host can show more than the standard range.
pub proof fn every_application_is_listed(
    apps: Seq<ApplicationConfig>,
    app: ApplicationConfig,
    hdr_supported: bool,
)
    ensures
        app_items(Seq::empty(), hdr_supported) == "<root status_code=\"200\">"@,
        app_items(apps.push(app), true) == app_items(apps, true)
            + ("<App><IsHdrSupported>"@ + "1"@ + "</IsHdrSupported><AppTitle>"@ + markup::escaped(
            app.title@,
        ) + "</AppTitle><ID>"@ + signed::signed_decimal(
            application::id_of(application::hash_of(app.title@)) as int,
        ) + "</ID></App>"@),
        app_items(apps.push(app), false) == app_items(apps, false)
            + ("<App><IsHdrSupported>"@ + "0"@ + "</IsHdrSupported><AppTitle>"@ + markup::escaped(
            app.title@,
        ) + "</AppTitle><ID>"@ + signed::signed_decimal(
            application::id_of(application::hash_of(app.title@)) as int,
        ) + "</ID></App>"@),
{
    assert(apps.push(app).drop_last() == apps);
}

/// The part of what the host tells that goes before the status of pairing.
pub open spec fn told_of_the_host(host: HostInfo, mac: Seq<char>) -> Seq<char> {
    "<root status_code=\"200\"><hostname>"@ + markup::escaped(host.name@)
        + "</hostname><appversion>7.1.431.-1</appversion><GfeVersion>3.23.0.74</GfeVersion><uniqueid>"@
        + host.unique_id@ + "</uniqueid><HttpsPort>"@ + text::decimal(host.port_https as nat)
        + "</HttpsPort><ExternalPort></ExternalPort><mac>"@ + mac
        + "</mac><MaxLumaPixelsHEVC>1869449984</MaxLumaPixelsHEVC><LocalIP></LocalIP><ServerCodecModeSupport>"@
        + text::decimal(0x7f0301)
        + "</ServerCodecModeSupport><SupportedDisplayMode></SupportedDisplayMode><PairStatus>"@
}

/// A client is told that it is paired exactly if it is, and that the host is
/// busy, and with what, exactly if an application is running.
pub proof fn status_is_told(host: HostInfo, mac: Seq<char>, id: i32)
    ensures
        server_info_body(host, mac, true, None) == told_of_the_host(host, mac) + "1"@
            + "</PairStatus><currentgame>"@ + signed::signed_decimal(0) + "</currentgame><state>"@
            + "MOONSHINE_SERVER_FREE"@ + "</state></root>"@,
        server_info_body(host, mac, false, None) == told_of_the_host(host, mac) + "0"@
            + "</PairStatus><currentgame>"@ + signed::signed_decimal(0) + "</currentgame><state>"@
            + "MOONSHINE_SERVER_FREE"@ + "</state></root>"@,
        server_info_body(host, mac, true, Some(id)) == told_of_the_host(host, mac) + "1"@
            + "</PairStatus><currentgame>"@ + signed::signed_decimal(id as int)
            + "</currentgame><state>"@ + "MOONSHINE_SERVER_BUSY"@ + "</state></root>"@,
        server_info_body(host, mac, false, Some(id)) == told_of_the_host(host, mac) + "0"@
            + "</PairStatus><currentgame>"@ + signed::signed_decimal(id as int)
            + "</currentgame><state>"@ + "MOONSHINE_SERVER_BUSY"@ + "</state></root>"@,
{
    codecs_are_offered();
}

/// The host offers H.264, HEVC and AV1, each with 8 bits and the latter two
/// with 10, and each of these with full chroma too.
pub proof fn codecs_are_offered()
    ensures
        SERVER_CODEC_MODES == 0x7f0301,
{
    assert(SERVER_CODEC_MODES == 0x7f0301) by (bit_vector);
}

/// A character of a client's number is shown exactly if it is a hexadecimal
/// digit and fewer than sixteen stand before it.
pub proof fn digits_are_shown(s: Seq<char>, c: char)
    ensures
        hex_digits(Seq::empty()) == Seq::<char>::empty(),
        hex_digits(s.push(c)) == if ('0' <= c <= '9' || 'a' <= c <= 'f' || 'A' <= c <= 'F')
            && hex_digits(s).len() < 16 {
            hex_digits(s).push(c)
        } else {
            hex_digits(s)
        },
{
    assert(s.push(c).drop_last() == s);
}

/// A client's number that holds one to sixteen hexadecimal digits and nothing
/// else is shown as it is; one that holds none is not shown.
pub proof fn plain_ids_are_shown(id: Seq<char>)
    ensures
        0 < id.len() <= 16 && (forall|i: int|
            0 <= i < id.len() ==> {
                ||| '0' <= #[trigger] id[i] <= '9'
                ||| 'a' <= id[i] <= 'f'
                ||| 'A' <= id[i] <= 'F'
            }) ==> shown_id(Some(id)) == id,
        (forall|i: int|
            0 <= i < id.len() ==> {
                &&& !('0' <= #[trigger] id[i] <= '9')
                &&& !('a' <= id[i] <= 'f')
                &&& !('A' <= id[i] <= 'F')
            }) ==> shown_id(Some(id)) == "0123456789ABCDEF"@,
        shown_id(None) == "0123456789ABCDEF"@,
{
    if forall|i: int|
        0 <= i < id.len() ==> {
            ||| '0' <= #[trigger] id[i] <= '9'
            ||| 'a' <= id[i] <= 'f'
            ||| 'A' <= id[i] <= 'F'
        } {
        if id.len() <= 16 {
            plain_digits_stay(id);
        }
    }
    if forall|i: int|
        0 <= i < id.len() ==> {
            &&& !('0' <= #[trigger] id[i] <= '9')
            &&& !('a' <= id[i] <= 'f')
            &&& !('A' <= id[i] <= 'F')
        } {
        other_characters_go(id);
    }
}

/// Up to sixteen digits stay.
proof fn plain_digits_stay(s: Seq<char>)
    requires
        s.len() <= 16,
        forall|i: int| #![trigger s[i]] 0 <= i < s.len() ==> hexadecimal::is_hex(s[i]),
    ensures
        hex_digits(s) == s,
    decreases s.len(),
{
    if s.len() > 0 {
        let before = s.drop_last();
        assert forall|i: int| #![trigger before[i]] 0 <= i < before.len() implies hexadecimal::is_hex(
            before[i],
        ) by {
            assert(before[i] == s[i]);
        }
        plain_digits_stay(before);
        assert(s[s.len() - 1] == s.last());
        assert(before.push(s.last()) == s);
    }
}

/// Nothing stays of what holds no digit.
proof fn other_characters_go(s: Seq<char>)
    requires
        forall|i: int| #![trigger s[i]] 0 <= i < s.len() ==> !hexadecimal::is_hex(s[i]),
    ensures
        hex_digits(s) == Seq::<char>::empty(),
    decreases s.len(),
{
    if s.len() > 0 {
        let before = s.drop_last();
        assert forall|i: int| #![trigger before[i]] 0 <= i < before.len() implies !hexadecimal::is_hex(
            before[i],
        ) by {
            assert(before[i] == s[i]);
        }
        other_characters_go(before);
        assert(s[s.len() - 1] == s.last());
    }
}

} // verus!
