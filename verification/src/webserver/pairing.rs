//! Pairing with a client, step by step:
//!
//! 1. `phrase=getservercert` hands in the client's certificate and a salt, and
//!    waits for the PIN; the answer is the host's certificate.
//! 2. `clientchallenge=..` is answered with a challenge of the host's own.
//! 3. `serverchallengeresp=..` is answered with the host's pairing secret.
//! 4. `phrase=pairchallenge` is answered, no more.
//! 5. `clientpairingsecret=..` is checked; then the client is paired.
//!
//! The state of a client that is being paired is the caller's; each step is
//! read here, and its outcome answered.
use vstd::prelude::*;
use vstd::utf8;

use crate::hexadecimal;
use crate::text;
use crate::webserver::params;
use crate::webserver::params::Params;
use crate::webserver::response;
use crate::webserver::response::Answer;

verus! {

/// Bytes of a salt.
pub const SALT_LEN: usize = 16;

/// What is said of bytes that are no text.
pub uninterp spec fn utf8_error_text(bytes: Seq<u8>) -> Seq<char>;

/// `String::from_utf8`, which takes valid UTF-8 for text and refuses anything
/// else. Its error is given as the text that it shows.
#[verifier::external_body]
fn text_from_utf8(bytes: Vec<u8>) -> (r: Result<String, String>)
    ensures
        match r {
            Ok(s) => utf8::valid_utf8(bytes@) && s@ == utf8::decode_utf8(bytes@),
            Err(e) => !utf8::valid_utf8(bytes@) && e@ == utf8_error_text(bytes@),
        },
{
    String::from_utf8(bytes).map_err(|e| e.to_string())
}

/// A step of pairing that a request asks for.
#[derive(Debug)]
pub enum PairStep {
    /// Begin: wait for the PIN.
    GetServerCert {
        /// The client.
        unique_id: String,
        /// Its certificate.
        pem: String,
        /// The salt.
        salt: Vec<u8>,
    },
    /// Answer the client's challenge.
    ClientChallenge {
        /// The client.
        unique_id: String,
        /// The challenge.
        challenge: Vec<u8>,
    },
    /// Take the answer to the host's challenge.
    ServerChallengeResponse {
        /// The client.
        unique_id: String,
        /// The answer.
        response: Vec<u8>,
    },
    /// Acknowledge.
    PairChallenge,
    /// Check the client's secret.
    ClientPairingSecret {
        /// The client.
        unique_id: String,
        /// The secret.
        secret: Vec<u8>,
    },
}

/// A step of pairing, as values.
pub enum PairValues {
    /// Begin.
    GetServerCert(Seq<char>, Seq<char>, Seq<u8>),
    /// Answer the client's challenge.
    ClientChallenge(Seq<char>, Seq<u8>),
    /// Take the answer to the host's challenge.
    ServerChallengeResponse(Seq<char>, Seq<u8>),
    /// Acknowledge.
    PairChallenge,
    /// Check the client's secret.
    ClientPairingSecret(Seq<char>, Seq<u8>),
}

impl View for PairStep {
    type V = PairValues;

    open spec fn view(&self) -> PairValues {
        match *self {
            PairStep::GetServerCert { unique_id, pem, salt } => PairValues::GetServerCert(
                unique_id@,
                pem@,
                salt@,
            ),
            PairStep::ClientChallenge { unique_id, challenge } => PairValues::ClientChallenge(
                unique_id@,
                challenge@,
            ),
            PairStep::ServerChallengeResponse { unique_id, response } => PairValues::ServerChallengeResponse(
                unique_id@,
                response@,
            ),
            PairStep::PairChallenge => PairValues::PairChallenge,
            PairStep::ClientPairingSecret { unique_id, secret } => PairValues::ClientPairingSecret(
                unique_id@,
                secret@,
            ),
        }
    }
}

/// Numbers with commas between them.
pub open spec fn numbers_listed(bytes: Seq<u8>) -> Seq<char>
    decreases bytes.len(),
{
    if bytes.len() == 0 {
        Seq::empty()
    } else if bytes.len() == 1 {
        text::decimal(bytes[0] as nat)
    } else {
        numbers_listed(bytes.drop_last()) + ", "@ + text::decimal(bytes.last() as nat)
    }
}

/// Bytes as a list of numbers; see [`numbers_listed`].
fn show_bytes(bytes: &Vec<u8>) -> (r: String)
    ensures
        r@ == "["@ + numbers_listed(bytes@) + "]"@,
{
    let mut inner = String::new();
    let mut i: usize = 0;
    while i < bytes.len()
        invariant
            i <= bytes@.len(),
            inner@ == numbers_listed(bytes@.take(i as int)),
        decreases bytes@.len() - i,
    {
        assert(bytes@.take(i + 1).drop_last() == bytes@.take(i as int));
        let number = text::decimal_string(bytes[i] as u64);
        if i > 0 {
            inner.append(", ");
            inner.append(number.as_str());
        } else {
            inner = number;
        }
        i = i + 1;
    }
    assert(bytes@.take(bytes@.len() as int) == bytes@);
    let mut r = text::joined("[", inner.as_str());
    r.append("]");
    r
}

/// What is said where the value under `key` is missing.
pub open spec fn lacks(key: Seq<char>, rest: params::Entries) -> Seq<char> {
    params::missing("Expected '"@ + key + "' in request, got "@, rest)
}

/// The value under `key` as bytes, or what is said of it.
pub open spec fn bytes_under(p: params::Entries, key: Seq<char>) -> Result<Seq<u8>, Seq<char>> {
    match params::value_of(p, key) {
        None => Err(lacks(key, params::without(p, key))),
        Some(s) => if hexadecimal::is_hex_text(s) {
            Ok(hexadecimal::hex_decoded(s))
        } else {
            Err(hexadecimal::decode_error(s))
        },
    }
}

/// The value under `key`, or what is said where it is missing.
pub open spec fn text_under(p: params::Entries, key: Seq<char>) -> Result<Seq<char>, Seq<char>> {
    match params::value_of(p, key) {
        None => Err(lacks(key, params::without(p, key))),
        Some(s) => Ok(s),
    }
}

/// Takes out the value under `key`; see [`text_under`].
fn require(params: &mut Params, key: &str) -> (r: Result<String, String>)
    ensures
        final(params)@ == params::without(old(params)@, key@),
        match r {
            Ok(s) => text_under(old(params)@, key@) == Ok::<Seq<char>, Seq<char>>(s@),
            Err(e) => text_under(old(params)@, key@) == Err::<Seq<char>, Seq<char>>(e@),
        },
{
    let mut expected = text::joined("Expected '", key);
    expected.append("' in request, got ");
    params.require(key, expected.as_str())
}

/// Takes out the value under `key` as bytes; see [`bytes_under`].
fn require_bytes(params: &mut Params, key: &str) -> (r: Result<Vec<u8>, String>)
    ensures
        final(params)@ == params::without(old(params)@, key@),
        match r {
            Ok(b) => bytes_under(old(params)@, key@) == Ok::<Seq<u8>, Seq<char>>(b@),
            Err(e) => bytes_under(old(params)@, key@) == Err::<Seq<u8>, Seq<char>>(e@),
        },
{
    match require(params, key) {
        Ok(s) => hexadecimal::decode(s.as_str()),
        Err(e) => Err(e),
    }
}

/// The first step, or what is said of the request.
pub open spec fn server_cert_step(p: params::Entries) -> Result<PairValues, Seq<char>> {
    let p1 = params::without(p, "clientcert"@);
    let p2 = params::without(p1, "uniqueid"@);
    match bytes_under(p, "clientcert"@) {
        Err(e) => Err(e),
        Ok(cert) => if !utf8::valid_utf8(cert) {
            Err("Failed to parse client cert as utf8: "@ + utf8_error_text(cert))
        } else {
            match text_under(p1, "uniqueid"@) {
                Err(e) => Err(e),
                Ok(id) => match bytes_under(p2, "salt"@) {
                    Err(e) => Err(e),
                    Ok(salt) => if salt.len() != SALT_LEN {
                        Err(
                            "Failed to parse salt value, expected exactly 16 values but got ["@
                                + numbers_listed(salt) + "]"@,
                        )
                    } else {
                        Ok(PairValues::GetServerCert(id, utf8::decode_utf8(cert), salt))
                    },
                },
            }
        },
    }
}

/// The first step; see [`server_cert_step`].
fn read_server_cert(params: &mut Params) -> (r: Result<PairStep, String>)
    ensures
        match r {
            Ok(s) => server_cert_step(old(params)@) == Ok::<PairValues, Seq<char>>(s@),
            Err(e) => server_cert_step(old(params)@) == Err::<PairValues, Seq<char>>(e@),
        },
{
    let cert = match require_bytes(params, "clientcert") {
        Ok(cert) => cert,
        Err(e) => return Err(e),
    };
    let pem = match text_from_utf8(cert) {
        Ok(pem) => pem,
        Err(e) => return Err(text::joined("Failed to parse client cert as utf8: ", e.as_str())),
    };
    let unique_id = match require(params, "uniqueid") {
        Ok(id) => id,
        Err(e) => return Err(e),
    };
    let salt = match require_bytes(params, "salt") {
        Ok(salt) => salt,
        Err(e) => return Err(e),
    };
    if salt.len() != SALT_LEN {
        let shown = show_bytes(&salt);
        let e = text::joined(
            "Failed to parse salt value, expected exactly 16 values but got ",
            shown.as_str(),
        );
        proof {
            reveal_strlit("Failed to parse salt value, expected exactly 16 values but got ");
            reveal_strlit("Failed to parse salt value, expected exactly 16 values but got [");
            reveal_strlit("[");
            let head = "Failed to parse salt value, expected exactly 16 values but got "@;
            assert(head + "["@ == "Failed to parse salt value, expected exactly 16 values but got ["@);
            assert(e@ == head + ("["@ + numbers_listed(salt@) + "]"@));
            assert(e@ == (head + "["@) + numbers_listed(salt@) + "]"@);
        }
        return Err(e);
    }
    Ok(PairStep::GetServerCert { unique_id, pem, salt })
}

/// A client and bytes of it, or what is said of the request; `id_first` says
/// in which order they are looked for.
pub open spec fn client_bytes(p: params::Entries, key: Seq<char>, id_first: bool) -> Result<
    (Seq<char>, Seq<u8>),
    Seq<char>,
> {
    if id_first {
        match text_under(p, "uniqueid"@) {
            Err(e) => Err(e),
            Ok(id) => match bytes_under(params::without(p, "uniqueid"@), key) {
                Err(e) => Err(e),
                Ok(b) => Ok((id, b)),
            },
        }
    } else {
        match bytes_under(p, key) {
            Err(e) => Err(e),
            Ok(b) => match text_under(params::without(p, key), "uniqueid"@) {
                Err(e) => Err(e),
                Ok(id) => Ok((id, b)),
            },
        }
    }
}

/// A client and bytes of it; see [`client_bytes`].
fn read_client_bytes(params: &mut Params, key: &str, id_first: bool) -> (r: Result<
    (String, Vec<u8>),
    String,
>)
    ensures
        match r {
            Ok((id, b)) => client_bytes(old(params)@, key@, id_first) == Ok::<
                (Seq<char>, Seq<u8>),
                Seq<char>,
            >((id@, b@)),
            Err(e) => client_bytes(old(params)@, key@, id_first) == Err::<
                (Seq<char>, Seq<u8>),
                Seq<char>,
            >(e@),
        },
{
    if id_first {
        let id = match require(params, "uniqueid") {
            Ok(id) => id,
            Err(e) => return Err(e),
        };
        match require_bytes(params, key) {
            Ok(b) => Ok((id, b)),
            Err(e) => Err(e),
        }
    } else {
        let b = match require_bytes(params, key) {
            Ok(b) => b,
            Err(e) => return Err(e),
        };
        match require(params, "uniqueid") {
            Ok(id) => Ok((id, b)),
            Err(e) => Err(e),
        }
    }
}

/// The step that a request asks for, or what is said of the request. A phrase
/// decides, else the first of the other values that is there.
pub open spec fn step_of(p: params::Entries) -> Result<PairValues, Seq<char>> {
    let rest = params::without(p, "phrase"@);
    match params::value_of(p, "phrase"@) {
        Some(phrase) => if phrase == "getservercert"@ {
            server_cert_step(rest)
        } else if phrase == "pairchallenge"@ {
            if params::value_of(rest, "uniqueid"@) is Some {
                Ok(PairValues::PairChallenge)
            } else {
                Err(params::missing("Expected 'uniqueid' in pair challenge, got "@, rest))
            }
        } else {
            Err("Unknown pair phrase received: "@ + phrase)
        },
        None => if params::value_of(p, "clientchallenge"@) is Some {
            match client_bytes(p, "clientchallenge"@, true) {
                Err(e) => Err(e),
                Ok((id, b)) => Ok(PairValues::ClientChallenge(id, b)),
            }
        } else if params::value_of(p, "serverchallengeresp"@) is Some {
            match client_bytes(p, "serverchallengeresp"@, false) {
                Err(e) => Err(e),
                Ok((id, b)) => Ok(PairValues::ServerChallengeResponse(id, b)),
            }
        } else if params::value_of(p, "clientpairingsecret"@) is Some {
            match client_bytes(p, "clientpairingsecret"@, false) {
                Err(e) => Err(e),
                Ok((id, b)) => Ok(PairValues::ClientPairingSecret(id, b)),
            }
        } else {
            Err("Unknown pair command with params: "@ + params::pair_list(p))
        },
    }
}

/// The step that a phrase asks for.
fn read_phrase(params: &mut Params, phrase: &str) -> (r: Result<PairStep, String>)
    requires
        params::value_of(old(params)@, "phrase"@) is None,
    ensures
        ({
            let rest = old(params)@;
            let expected = if phrase@ == "getservercert"@ {
                server_cert_step(rest)
            } else if phrase@ == "pairchallenge"@ {
                if params::value_of(rest, "uniqueid"@) is Some {
                    Ok(PairValues::PairChallenge)
                } else {
                    Err(params::missing("Expected 'uniqueid' in pair challenge, got "@, rest))
                }
            } else {
                Err("Unknown pair phrase received: "@ + phrase@)
            };
            match r {
                Ok(s) => expected == Ok::<PairValues, Seq<char>>(s@),
                Err(e) => expected == Err::<PairValues, Seq<char>>(e@),
            }
        }),
{
    if text::same_text(phrase, "getservercert") {
        return read_server_cert(params);
    }
    if text::same_text(phrase, "pairchallenge") {
        if params.contains_key("uniqueid") {
            return Ok(PairStep::PairChallenge);
        }
        let names = params.names_shown();
        let mut e = text::joined("Expected 'uniqueid' in pair challenge, got ", names.as_str());
        e.append(".");
        return Err(e);
    }
    Err(text::joined("Unknown pair phrase received: ", phrase))
}

/// The step that a request asks for; see [`step_of`].
pub fn read_step(params: &mut Params) -> (r: Result<PairStep, String>)
    ensures
        match r {
            Ok(s) => step_of(old(params)@) == Ok::<PairValues, Seq<char>>(s@),
            Err(e) => step_of(old(params)@) == Err::<PairValues, Seq<char>>(e@),
        },
{
    let ghost before = params@;
    if params.contains_key("phrase") {
        if let Some(phrase) = params.remove("phrase") {
            proof {
                params::removed_values_are_gone(before, "phrase"@, "phrase"@);
            }
            return read_phrase(params, phrase.as_str());
        }
    }
    if params.contains_key("clientchallenge") {
        return match read_client_bytes(params, "clientchallenge", true) {
            Ok((unique_id, challenge)) => Ok(PairStep::ClientChallenge { unique_id, challenge }),
            Err(e) => Err(e),
        };
    }
    if params.contains_key("serverchallengeresp") {
        return match read_client_bytes(params, "serverchallengeresp", false) {
            Ok((unique_id, response)) => Ok(
                PairStep::ServerChallengeResponse { unique_id, response },
            ),
            Err(e) => Err(e),
        };
    }
    if params.contains_key("clientpairingsecret") {
        return match read_client_bytes(params, "clientpairingsecret", false) {
            Ok((unique_id, secret)) => Ok(PairStep::ClientPairingSecret { unique_id, secret }),
            Err(e) => Err(e),
        };
    }
    let shown = params.pairs_shown();
    Err(text::joined("Unknown pair command with params: ", shown.as_str()))
}

/// The step that a request asks for, or the answer to a request that is wrong.
pub fn handle_pair_request(params: &mut Params) -> (r: Result<PairStep, Answer>)
    ensures
        match r {
            Ok(s) => step_of(old(params)@) == Ok::<PairValues, Seq<char>>(s@),
            Err(a) => step_of(old(params)@) matches Err(e) && a.refuses(e),
        },
{
    match read_step(params) {
        Ok(s) => Ok(s),
        Err(e) => Err(response::bad_request(e)),
    }
}

/// An answer that tells that the step went well.
pub open spec fn paired_body(inner: Seq<char>) -> Seq<char> {
    "<root status_code=\"200\"><paired>1</paired>"@ + inner + "</root>"@
}

/// An answer that tells that the step went well; see [`paired_body`].
pub fn paired_xml_response(inner: &str) -> (r: Answer)
    ensures
        r.is_xml(paired_body(inner@)),
{
    let mut body = text::joined("<root status_code=\"200\"><paired>1</paired>", inner);
    body.append("</root>");
    response::xml(body)
}

/// How the wait for the PIN ended.
#[derive(Clone, Copy, Debug, PartialEq, Eq, Structural)]
pub enum PinWait {
    /// Pairing could not be begun.
    NotStarted,
    /// The PIN came.
    Entered,
    /// The host is shutting down.
    ShuttingDown,
}

/// The answer to the first step: the host's certificate once the PIN came.
pub fn get_server_cert(wait: PinWait, server_pem: &str) -> (r: Answer)
    requires
        utf8::encode_utf8(server_pem@).len() * 2 <= isize::MAX,
    ensures
        match wait {
            PinWait::NotStarted => r.refuses("Failed to start pairing client"@),
            PinWait::ShuttingDown => r.refuses("Server is shutting down."@),
            PinWait::Entered => r.is_xml(
                paired_body(
                    "<plaincert>"@ + hexadecimal::hex_encoded(utf8::encode_utf8(server_pem@))
                        + "</plaincert>"@,
                ),
            ),
        },
{
    match wait {
        PinWait::NotStarted => response::bad_request("Failed to start pairing client".to_owned()),
        PinWait::ShuttingDown => response::bad_request("Server is shutting down.".to_owned()),
        PinWait::Entered => hex_answer("<plaincert>", server_pem.as_bytes(), "</plaincert>"),
    }
}

/// An answer that holds bytes between two tags.
fn hex_answer(open: &str, bytes: &[u8], close: &str) -> (r: Answer)
    requires
        bytes@.len() * 2 <= isize::MAX,
    ensures
        r.is_xml(paired_body(open@ + hexadecimal::hex_encoded(bytes@) + close@)),
{
    let digits = hexadecimal::encode(bytes);
    let mut inner = text::joined(open, digits.as_str());
    inner.append(close);
    paired_xml_response(inner.as_str())
}

/// The answer to the client's challenge; nothing where it was refused.
pub fn client_challenge(answer: Option<&[u8]>) -> (r: Answer)
    requires
        answer matches Some(b) ==> b@.len() * 2 <= isize::MAX,
    ensures
        match answer {
            None => r.refuses("Failed to process client challenge"@),
            Some(b) => r.is_xml(
                paired_body(
                    "<challengeresponse>"@ + hexadecimal::hex_encoded(b@) + "</challengeresponse>"@,
                ),
            ),
        },
{
    match answer {
        None => response::bad_request("Failed to process client challenge".to_owned()),
        Some(b) => hex_answer("<challengeresponse>", b, "</challengeresponse>"),
    }
}

/// The host's pairing secret, in answer to the client's answer; nothing where
/// that was refused.
pub fn server_challenge_response(secret: Option<&[u8]>) -> (r: Answer)
    requires
        secret matches Some(b) ==> b@.len() * 2 <= isize::MAX,
    ensures
        match secret {
            None => r.refuses("Failed to process server challenge response"@),
            Some(b) => r.is_xml(
                paired_body(
                    "<pairingsecret>"@ + hexadecimal::hex_encoded(b@) + "</pairingsecret>"@,
                ),
            ),
        },
{
    match secret {
        None => response::bad_request("Failed to process server challenge response".to_owned()),
        Some(b) => hex_answer("<pairingsecret>", b, "</pairingsecret>"),
    }
}

/// The answer to the fourth step.
pub fn pair_challenge() -> (r: Answer)
    ensures
        r.is_xml(paired_body(Seq::empty())),
{
    let empty = String::new();
    paired_xml_response(empty.as_str())
}

/// The answer to the client's secret, by whether it was accepted.
pub fn client_pairing_secret(accepted: bool) -> (r: Answer)
    ensures
        if accepted {
            r.is_xml(paired_body(Seq::empty()))
        } else {
            r.refuses("Failed to check client pairing secret"@)
        },
{
    if !accepted {
        return response::bad_request("Failed to check client pairing secret".to_owned());
    }
    pair_challenge()
}

/// Where a client's PIN is entered. `host` is the host part of the host's own
/// address.
pub fn pin_url(host: &str, port: u16, unique_id: &str) -> (r: String)
    ensures
        r@ == "http://"@ + host@ + ":"@ + text::decimal(port as nat) + "/pin?uniqueid="@ + unique_id@,
{
    let number = text::decimal_string(port as u64);
    let mut r = text::joined("http://", host);
    r.append(":");
    r.append(number.as_str());
    r.append("/pin?uniqueid=");
    r.append(unique_id);
    r
}

/// Pairing is begun only with a salt of the full length.
pub proof fn begun_pairing_has_full_salt(p: params::Entries)
    requires
        step_of(p) is Ok,
    ensures
        step_of(p)->Ok_0 matches PairValues::GetServerCert(_, _, salt) ==> salt.len() == SALT_LEN,
{
}

/// A request with a phrase is never taken for another step.
pub proof fn phrase_decides(p: params::Entries)
    requires
        params::value_of(p, "phrase"@) is Some,
        step_of(p) is Ok,
    ensures
        step_of(p)->Ok_0 is GetServerCert || step_of(p)->Ok_0 is PairChallenge,
{
}

/// The names that requests for pairing use are told apart.
proof fn pair_names_differ()
    ensures
        "uniqueid"@ != "clientchallenge"@,
        "uniqueid"@ != "serverchallengeresp"@,
        "uniqueid"@ != "clientpairingsecret"@,
        "uniqueid"@ != "clientcert"@,
        "uniqueid"@ != "salt"@,
        "uniqueid"@ != "phrase"@,
        "clientcert"@ != "salt"@,
        "clientcert"@ != "phrase"@,
        "salt"@ != "phrase"@,
{
    reveal_strlit("uniqueid");
    reveal_strlit("clientchallenge");
    reveal_strlit("serverchallengeresp");
    reveal_strlit("clientpairingsecret");
    reveal_strlit("clientcert");
    reveal_strlit("salt");
    reveal_strlit("phrase");
    assert("uniqueid"@.len() == 8);
    assert("clientchallenge"@.len() == 15);
    assert("serverchallengeresp"@.len() == 19);
    assert("clientpairingsecret"@.len() == 19);
    assert("clientcert"@.len() == 10);
    assert("salt"@.len() == 4);
    assert("phrase"@.len() == 6);
}

/// A step carries what its request holds, whole: the client by its number, and
/// every byte that the digits of the request spell.
pub proof fn steps_carry_the_whole_request(p: params::Entries)
    requires
        step_of(p) is Ok,
    ensures
        match step_of(p)->Ok_0 {
            PairValues::GetServerCert(id, pem, salt) => {
                &&& params::value_of(p, "phrase"@) == Some("getservercert"@)
                &&& params::value_of(p, "uniqueid"@) == Some(id)
                &&& params::value_of(p, "clientcert"@) matches Some(v) && hexadecimal::spells(
                    v,
                    utf8::encode_utf8(pem),
                )
                &&& params::value_of(p, "salt"@) matches Some(v) && hexadecimal::spells(v, salt)
                &&& salt.len() == 16
            },
            PairValues::ClientChallenge(id, b) => {
                &&& params::value_of(p, "phrase"@) is None
                &&& params::value_of(p, "uniqueid"@) == Some(id)
                &&& params::value_of(p, "clientchallenge"@) matches Some(v) && hexadecimal::spells(v, b)
            },
            PairValues::ServerChallengeResponse(id, b) => {
                &&& params::value_of(p, "phrase"@) is None
                &&& params::value_of(p, "uniqueid"@) == Some(id)
                &&& params::value_of(p, "serverchallengeresp"@) matches Some(v) && hexadecimal::spells(
                    v,
                    b,
                )
            },
            PairValues::PairChallenge => {
                &&& params::value_of(p, "phrase"@) == Some("pairchallenge"@)
                &&& params::value_of(p, "uniqueid"@) is Some
            },
            PairValues::ClientPairingSecret(id, b) => {
                &&& params::value_of(p, "phrase"@) is None
                &&& params::value_of(p, "uniqueid"@) == Some(id)
                &&& params::value_of(p, "clientpairingsecret"@) matches Some(v) && hexadecimal::spells(
                    v,
                    b,
                )
            },
        },
{
    pair_names_differ();
    let rest = params::without(p, "phrase"@);
    let after_cert = params::without(rest, "clientcert"@);
    params::removed_values_are_gone(p, "phrase"@, "uniqueid"@);
    params::removed_values_are_gone(p, "phrase"@, "clientcert"@);
    params::removed_values_are_gone(p, "phrase"@, "salt"@);
    params::removed_values_are_gone(rest, "clientcert"@, "uniqueid"@);
    params::removed_values_are_gone(rest, "clientcert"@, "salt"@);
    params::removed_values_are_gone(after_cert, "uniqueid"@, "salt"@);
    params::removed_values_are_gone(p, "uniqueid"@, "clientchallenge"@);
    params::removed_values_are_gone(p, "serverchallengeresp"@, "uniqueid"@);
    params::removed_values_are_gone(p, "clientpairingsecret"@, "uniqueid"@);
    spelled_value(p, "clientchallenge"@);
    spelled_value(p, "serverchallengeresp"@);
    spelled_value(p, "clientpairingsecret"@);
    spelled_value(p, "clientcert"@);
    spelled_value(p, "salt"@);
    if let PairValues::GetServerCert(id, pem, salt) = step_of(p)->Ok_0 {
        let cert = hexadecimal::hex_decoded(params::value_of(p, "clientcert"@)->0);
        utf8::decode_utf8_encode_utf8(cert);
    }
}

/// A value that can be decoded spells what it is decoded to.
proof fn spelled_value(p: params::Entries, key: Seq<char>)
    ensures
        params::value_of(p, key) matches Some(v) ==> hexadecimal::is_hex_text(v) ==> hexadecimal::spells(
            v,
            hexadecimal::hex_decoded(v),
        ),
{
    if let Some(v) = params::value_of(p, key) {
        hexadecimal::decoding_keeps_every_byte(v, Seq::empty());
    }
}

/// A request that has what its step needs is taken for that step: a number of
/// the client, and digits that spell bytes.
pub proof fn complete_requests_are_taken(
    p: params::Entries,
    id: Seq<char>,
    digits: Seq<char>,
    bytes: Seq<u8>,
    salt_digits: Seq<char>,
    salt: Seq<u8>,
)
    requires
        params::value_of(p, "uniqueid"@) == Some(id),
        hexadecimal::spells(digits, bytes),
        hexadecimal::spells(salt_digits, salt),
    ensures
        params::value_of(p, "phrase"@) is None && params::value_of(p, "clientchallenge"@) == Some(digits)
            ==> step_of(p) == Ok::<PairValues, Seq<char>>(PairValues::ClientChallenge(id, bytes)),
        params::value_of(p, "phrase"@) is None && params::value_of(p, "clientchallenge"@) is None
            && params::value_of(p, "serverchallengeresp"@) == Some(digits) ==> step_of(p) == Ok::<
            PairValues,
            Seq<char>,
        >(PairValues::ServerChallengeResponse(id, bytes)),
        params::value_of(p, "phrase"@) is None && params::value_of(p, "clientchallenge"@) is None
            && params::value_of(p, "serverchallengeresp"@) is None && params::value_of(
            p,
            "clientpairingsecret"@,
        ) == Some(digits) ==> step_of(p) == Ok::<PairValues, Seq<char>>(
            PairValues::ClientPairingSecret(id, bytes),
        ),
        params::value_of(p, "phrase"@) == Some("pairchallenge"@) ==> step_of(p) == Ok::<
            PairValues,
            Seq<char>,
        >(PairValues::PairChallenge),
        params::value_of(p, "phrase"@) == Some("getservercert"@) && params::value_of(p, "clientcert"@)
            == Some(digits) && utf8::valid_utf8(bytes) && params::value_of(p, "salt"@) == Some(salt_digits)
            && salt.len() == 16 ==> step_of(p) == Ok::<PairValues, Seq<char>>(
            PairValues::GetServerCert(id, utf8::decode_utf8(bytes), salt),
        ),
{
    pair_names_differ();
    assert("pairchallenge"@ != "getservercert"@) by {
        reveal_strlit("pairchallenge");
        reveal_strlit("getservercert");
        assert("pairchallenge"@[0] != "getservercert"@[0]);
    }
    hexadecimal::decoding_keeps_every_byte(digits, bytes);
    hexadecimal::decoding_keeps_every_byte(salt_digits, salt);
    let rest = params::without(p, "phrase"@);
    let after_cert = params::without(rest, "clientcert"@);
    params::removed_values_are_gone(p, "phrase"@, "uniqueid"@);
    params::removed_values_are_gone(p, "phrase"@, "clientcert"@);
    params::removed_values_are_gone(p, "phrase"@, "salt"@);
    params::removed_values_are_gone(rest, "clientcert"@, "uniqueid"@);
    params::removed_values_are_gone(rest, "clientcert"@, "salt"@);
    params::removed_values_are_gone(after_cert, "uniqueid"@, "salt"@);
    params::removed_values_are_gone(p, "uniqueid"@, "clientchallenge"@);
    params::removed_values_are_gone(p, "serverchallengeresp"@, "uniqueid"@);
    params::removed_values_are_gone(p, "clientpairingsecret"@, "uniqueid"@);
}

/// A request without the client's number is refused, and so is one with a
/// phrase that is not known.
pub proof fn incomplete_requests_are_refused(p: params::Entries)
    ensures
        params::value_of(p, "uniqueid"@) is None ==> step_of(p) is Err,
        params::value_of(p, "phrase"@) matches Some(phrase) && phrase != "getservercert"@ && phrase
            != "pairchallenge"@ ==> step_of(p) is Err,
{
    if step_of(p) is Ok {
        steps_carry_the_whole_request(p);
    }
}

/// A request that is refused is told why: which value is missing and which are
/// there, that a phrase or a command is not known, or that the salt has not the
/// right length, with the salt.
pub proof fn refusals_say_why(p: params::Entries, key: Seq<char>, phrase: Seq<char>)
    ensures
        lacks(key, p) == params::missing("Expected '"@ + key + "' in request, got "@, p),
        params::value_of(p, "phrase"@) == Some(phrase) && phrase != "getservercert"@ && phrase
            != "pairchallenge"@ ==> step_of(p) == Err::<PairValues, Seq<char>>(
            "Unknown pair phrase received: "@ + phrase,
        ),
        params::value_of(p, "phrase"@) is None && params::value_of(p, "clientchallenge"@) is None
            && params::value_of(p, "serverchallengeresp"@) is None && params::value_of(
            p,
            "clientpairingsecret"@,
        ) is None ==> step_of(p) == Err::<PairValues, Seq<char>>(
            "Unknown pair command with params: "@ + params::pair_list(p),
        ),
        params::value_of(p, key) is None ==> {
            &&& bytes_under(p, key) == Err::<Seq<u8>, Seq<char>>(lacks(key, params::without(p, key)))
            &&& text_under(p, key) == Err::<Seq<char>, Seq<char>>(lacks(key, params::without(p, key)))
        },
{
}

/// Bytes are shown as numbers with commas between them.
pub proof fn bytes_are_shown_as_numbers(bytes: Seq<u8>, byte: u8)
    ensures
        numbers_listed(Seq::empty()) == Seq::<char>::empty(),
        numbers_listed(seq![byte]) == text::decimal(byte as nat),
        bytes.len() > 0 ==> numbers_listed(bytes.push(byte)) == numbers_listed(bytes) + ", "@
            + text::decimal(byte as nat),
        paired_body(numbers_listed(bytes)) == "<root status_code=\"200\"><paired>1</paired>"@
            + numbers_listed(bytes) + "</root>"@,
{
    assert(bytes.push(byte).drop_last() == bytes);
}

/// A salt of any length but sixteen bytes is refused, and shown.
pub proof fn salts_have_sixteen_bytes(p: params::Entries)
    ensures
        server_cert_step(p) matches Ok(PairValues::GetServerCert(_, _, salt)) ==> salt.len() == 16,
        ({
            let rest = params::without(params::without(p, "clientcert"@), "uniqueid"@);
            let cert = bytes_under(p, "clientcert"@);
            let salt = bytes_under(rest, "salt"@);
            cert is Ok && utf8::valid_utf8(cert->Ok_0) && text_under(
                params::without(p, "clientcert"@),
                "uniqueid"@,
            ) is Ok && salt is Ok && salt->Ok_0.len() != 16 ==> server_cert_step(p) == Err::<
                PairValues,
                Seq<char>,
            >(
                "Failed to parse salt value, expected exactly 16 values but got ["@ + numbers_listed(
                    salt->Ok_0,
                ) + "]"@,
            )
        }),
{
}

} // verus!
