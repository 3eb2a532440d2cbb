use moonshine::webserver::pairing::{
    client_challenge, client_pairing_secret, get_server_cert, handle_pair_request, pair_challenge,
    paired_xml_response, pin_url, read_step, server_challenge_response, PairStep, PinWait,
};
use moonshine::webserver::params::Params;

fn params(query: &str) -> Params {
    Params::from_query(Some(query))
}

fn error(query: &str) -> String {
    read_step(&mut params(query)).unwrap_err()
}

const SALT: &str = "000102030405060708090a0b0c0d0e0f";

#[test]
fn pairing_begins_with_certificate_and_salt() {
    // The certificate is the hexadecimal form of its text, here "PEM".
    let query = format!("phrase=getservercert&clientcert=50454D&uniqueid=7&salt={SALT}");
    match read_step(&mut params(&query)).unwrap() {
        PairStep::GetServerCert { unique_id, pem, salt } => {
            assert_eq!(unique_id, "7");
            assert_eq!(pem, "PEM");
            assert_eq!(salt, (0..16).collect::<Vec<u8>>());
        }
        other => panic!("{other:?}"),
    }
}

#[test]
fn wrong_beginnings_are_told_what_is_wrong() {
    let begin = "phrase=getservercert";
    assert_eq!(error(begin), "Expected 'clientcert' in request, got [].");
    assert_eq!(error(&format!("{begin}&clientcert=0")), "Odd number of digits");
    assert_eq!(error(&format!("{begin}&clientcert=zz")), "Invalid character 'z' at position 0");
    assert_eq!(
        error(&format!("{begin}&clientcert=41ff")),
        "Failed to parse client cert as utf8: invalid utf-8 sequence of 1 bytes from index 1"
    );
    assert_eq!(error(&format!("{begin}&clientcert=41&x=1")), "Expected 'uniqueid' in request, got [\"x\"].");
    assert_eq!(error(&format!("{begin}&clientcert=41&uniqueid=7")), "Expected 'salt' in request, got [].");
    assert_eq!(
        error(&format!("{begin}&clientcert=41&uniqueid=7&salt=0aff")),
        "Failed to parse salt value, expected exactly 16 values but got [10, 255]"
    );
    assert_eq!(
        error(&format!("{begin}&clientcert=41&uniqueid=7&salt=")),
        "Failed to parse salt value, expected exactly 16 values but got []"
    );
}

#[test]
fn the_other_steps_hold_bytes() {
    match read_step(&mut params("uniqueid=7&clientchallenge=0102")).unwrap() {
        PairStep::ClientChallenge { unique_id, challenge } => {
            assert_eq!((unique_id.as_str(), challenge), ("7", vec![1, 2]));
        }
        other => panic!("{other:?}"),
    }
    match read_step(&mut params("uniqueid=7&serverchallengeresp=03")).unwrap() {
        PairStep::ServerChallengeResponse { unique_id, response } => {
            assert_eq!((unique_id.as_str(), response), ("7", vec![3]));
        }
        other => panic!("{other:?}"),
    }
    match read_step(&mut params("uniqueid=7&clientpairingsecret=04")).unwrap() {
        PairStep::ClientPairingSecret { unique_id, secret } => {
            assert_eq!((unique_id.as_str(), secret), ("7", vec![4]));
        }
        other => panic!("{other:?}"),
    }
    assert!(matches!(read_step(&mut params("phrase=pairchallenge&uniqueid=7")).unwrap(), PairStep::PairChallenge));
    // A phrase decides, whatever else is there.
    assert!(matches!(
        read_step(&mut params("clientchallenge=00&phrase=pairchallenge&uniqueid=7")).unwrap(),
        PairStep::PairChallenge
    ));
}

#[test]
fn wrong_steps_are_told_what_is_wrong() {
    assert_eq!(error("phrase=pairchallenge&x=1"), "Expected 'uniqueid' in pair challenge, got [\"x\"].");
    assert_eq!(error("phrase=hello"), "Unknown pair phrase received: hello");
    assert_eq!(error("a=b"), "Unknown pair command with params: {\"a\": \"b\"}");
    // The client is looked for first in one step, and last in the others.
    assert_eq!(error("clientchallenge=zz"), "Expected 'uniqueid' in request, got [\"clientchallenge\"].");
    assert_eq!(error("serverchallengeresp=zz"), "Invalid character 'z' at position 0");
    assert_eq!(error("clientpairingsecret=00"), "Expected 'uniqueid' in request, got [].");
    let answer = handle_pair_request(&mut params("phrase=hello")).unwrap_err();
    assert_eq!((answer.status, answer.body.as_str()), (400, "Unknown pair phrase received: hello"));
}

#[test]
fn steps_are_answered() {
    assert_eq!(
        get_server_cert(PinWait::Entered, "PEM").body,
        "<root status_code=\"200\"><paired>1</paired><plaincert>50454d</plaincert></root>"
    );
    assert_eq!(get_server_cert(PinWait::NotStarted, "PEM").body, "Failed to start pairing client");
    assert_eq!(get_server_cert(PinWait::ShuttingDown, "PEM").body, "Server is shutting down.");
    assert_eq!(
        client_challenge(Some(&[0, 255])).body,
        "<root status_code=\"200\"><paired>1</paired><challengeresponse>00ff</challengeresponse></root>"
    );
    assert_eq!(client_challenge(None).body, "Failed to process client challenge");
    assert_eq!(
        server_challenge_response(Some(&[171])).body,
        "<root status_code=\"200\"><paired>1</paired><pairingsecret>ab</pairingsecret></root>"
    );
    assert_eq!(server_challenge_response(None).body, "Failed to process server challenge response");
    assert_eq!(pair_challenge().body, "<root status_code=\"200\"><paired>1</paired></root>");
    assert_eq!(client_pairing_secret(true).body, "<root status_code=\"200\"><paired>1</paired></root>");
    let refused = client_pairing_secret(false);
    assert_eq!((refused.status, refused.body.as_str()), (400, "Failed to check client pairing secret"));
    assert_eq!(paired_xml_response("<x/>").body, "<root status_code=\"200\"><paired>1</paired><x/></root>");
}

#[test]
fn the_pin_is_entered_at_the_host() {
    assert_eq!(pin_url("192.168.1.5", 47989, "7"), "http://192.168.1.5:47989/pin?uniqueid=7");
}
