use moonshine::tls::{
    certificate_name, certificate_source, extract_public_key, lenient_validate, load_certs,
    load_private_key, scheme_algorithm, verdict, verify_signature_manual, Algorithm,
    CertificateSource, KEY_BITS, KeyKind, LoadError, TlsError, VALIDITY_SECONDS,
};

/// Bytes written as lines of hexadecimal digits.
fn bytes(lines: &[&str]) -> Vec<u8> {
    hex::decode(lines.join("")).unwrap()
}

const MESSAGE: &[u8] = b"handshake";

/// A certificate that expired long ago.
const RSA_CERT: &[&str] = &[
    "3082029b30820183a003020102020101300d06092a864886f70d01010b05003011310f300d06035504030c06636c69656e74",
    "301e170d3031303130313030303030305a170d3032303130313030303030305a3011310f300d06035504030c06636c69656e",
    "7430820122300d06092a864886f70d01010105000382010f003082010a0282010100e8277502e8e02b30bc6c5158a4f32b72",
    "53cae77e3ee4f90bcdfacae36d7a199c7434e640ca7827e23f28b78fccd9d7c13663a4a2e9de0b0f3703755e3ccb78fa5f50",
    "697073fd5ee6f598714805625c205912c0b14a2f68e531d68d0ed51175cddc4e2a90c7c0c7f45cd09de758c48a1d287d4e00",
    "1dd9d94cfa363bfc6213c7debc46ef0f4e0d7281a613d43d03515e232dd8898011adef2af1f9b11b7d510eb72681edb5d5a8",
    "640dff4a9eb76cbc3373ba379e151c97a5df2bda184e343d41d883bb3c47aa52766e577ff16b4a6a6febb13e50166ae8fec2",
    "127ac00e34f33d5f57aa999a9a9d70c49e71e400bf50f26e1b0a6c70fdf289b92fca1d652b8f320f0203010001300d06092a",
    "864886f70d01010b0500038201010068428c551c61e413803bbddae16bc1ac6bcc03ee5ad6e62bce6e5892e8dcdadd6ae35f",
    "0ad020812fd8d455e947c178937399d8cec2480ef731a565bf1eea6010b6144877f8eeb86962889bd4c92f722c6dcc74f264",
    "93e5d1f8ca7c9c1197187a6b0db4a515c9ef499af296215b93b751b275fff4630ea7809255bf6760a84ffe0691b017badebd",
    "bd450c0ff26d02a1f9ef3db5ca2abf125be28c2a6574e5dc918b2522184f73a0e5fd5d4e58baf8b295df094e47561549c54c",
    "6ad92df8ceb67317328a9a7b6306bdba6ab7ca07475fa33a38094de86324b5bb84e59aa7643b831935f2695a45cf04746371",
    "a586a744d677653225ad65f2fbcbe3bcd029d7bc4a",
];

/// A certificate that expired long ago.
const P256_CERT: &[&str] = &[
    "3082010e3081b5a003020102020101300a06082a8648ce3d0403023011310f300d06035504030c06636c69656e74301e170d",
    "3031303130313030303030305a170d3032303130313030303030305a3011310f300d06035504030c06636c69656e74305930",
    "1306072a8648ce3d020106082a8648ce3d03010703420004559d3087e966f9f5957b3e4b7b6a16308097127ac7b03c2743b6",
    "43ede94455aa09c484787bc4630820cfc0ef231d1f9e30c8bfa8ebf03a5c7419af802f9eb338300a06082a8648ce3d040302",
    "0348003045022100eac98c48ce150822420bca3a0312e69f562587b2d7a835dc267faca19be7ea76022037bd64627ecae797",
    "54ccf95f53df33d46eb8fb7c1d27e7ed6cebcb58fc47cae5",
];

/// A certificate that expired long ago.
const P384_CERT: &[&str] = &[
    "3082014c3081d2a003020102020101300a06082a8648ce3d0403033011310f300d06035504030c06636c69656e74301e170d",
    "3031303130313030303030305a170d3032303130313030303030305a3011310f300d06035504030c06636c69656e74307630",
    "1006072a8648ce3d020106052b81040022036200043080a79b231f6d7e9ee9c2d0b005df7d530dc5d8416d42cbf26e73c6e0",
    "194f92402938282a8cec227d1fb323e561c9f1de5be2df558c39feb389fcf4d86599dddb09ef7626d0e71517a9ef958e1900",
    "dd7b6e6bd9e9d2db2b35e24bf7ab927a1a300a06082a8648ce3d0403030369003066023100dd02c888d28469ea9f7e78e7df",
    "ada545ec96b23c165057ac5c5f99da629600c28e82840db404203071cd6409daa39365023100ec6e34ccc86ad124672c6956",
    "92ba369d8f335e682fad5bf990199588b59e2b0c44bb4ebfa0028138db6eaec81af53644",
];

/// A certificate that expired long ago.
const ED25519_CERT: &[&str] = &[
    "3081ce308181a003020102020101300506032b65703011310f300d06035504030c06636c69656e74301e170d303130313031",
    "3030303030305a170d3032303130313030303030305a3011310f300d06035504030c06636c69656e74302a300506032b6570",
    "0321002fe3d24c53a73fcc0feb78437e49051a0c052a57e9d49b8adb81aca9d0e85f9c300506032b65700341001f2bdf7950",
    "7ce9aa01257e8f6af086bd63a64fc9354be48585e8103c0a988953a4ea3be367f41a1613da72ccdb6e7d6baaa12d3e4551ec",
    "3d5b1e2a2c35988e04",
];

const SIGNATURE_PKCS1_256: &[&str] = &[
    "91ccf2f8880104e2400669d93bcc765c5bdd13d2cca7ac9f350618e1f22b98fb785707ec2c5ba458b4225e4e9e8ed892f571",
    "d6e6f02c2af9f2fed4c3064a96515b0f54df5324a09d265f0dd8d32df94c72442d15efb01c0286f95eb7b87d9546c06ec23f",
    "5544d22a90719b24ffc7b980c6b7ad23c731c4ad5256d59685a1d99a34ddc7957b128c5fd77b587103907f2ab4111d8992a1",
    "c376ff2df7e99b660a105de137875ec87b2f86f8af4c1fb451f25e0a43fad5c895869c9b428596205a8e16133fb67c8d037e",
    "7094e0b2af1805187047fe75e1f4d7b3eaced81650771412f3a78f65f494329f08cc50f4bb91de4a6375dcc72fa46a02b567",
    "7d3b764dd293",
];

const SIGNATURE_PSS_256: &[&str] = &[
    "20b0c2b3269b5766c4afd523e0334ba5ec5eb7914ee685cd375710c5512383167f4c9182891c72896e14ccd5af57e4aa4e33",
    "d544f5e7ef1d0fb572770fca00f594b4c731d2e7423c3227f5cab033456fe8491e061e7653460dbb2c1449d64d91ac29d3bf",
    "238e13896eaa41d95f734f22a991b655ac800b4ad95c0b9904f67e82fc081a7fe2c77f04a651d42d2c924998761755b12c33",
    "9bb2ee8778016b4537908ccc09e0b31b5b70b9ff8908f836a840359ce336dbb384733a6ce953dfa2a6c9c944e3aba167c338",
    "b6a13baabd2d31cd9e855a8270b9b7a7a6f1b8595309c6e06854ed5ea220040fd28979518939516983771a5b53e0e9646e59",
    "4c32abb3b8df",
];

const SIGNATURE_PKCS1_384: &[&str] = &[
    "741af59e4def1c7830c87fe419ee1e8bbdfc2143d5b3650a1875615d8718bc42c208850ce211e304371140ae90ea5c70425b",
    "c02473ad3b933fdc0438f00a3cc6026c7c529edc7029eefcb4f9bbac48b79a27f764c4697444a698209244dcf46e71f520ba",
    "04d9dd46c7225452e56d8bdfd34fa0f4d343f1475f7c17d5e4469553de3a3628b47734fc3c05061e89018207ec630bfef051",
    "c157861c6a93dabb27cb2db98a22bd55df5e11afd1479cbda663a5458a7a2d663a73e6511bdbacbc9f7797de5ca4151c3127",
    "717d3e91f56303738e86484b79b24c7c08eea4cb11872d7dd790d805794978243e2e9e290ba467a5fe6dfce263fd40a4553e",
    "867320300c86",
];

const SIGNATURE_PSS_384: &[&str] = &[
    "af7966a9b2c5dbed8e1d48fd87fb1a9ae8aec190facb7b56c55e2777542f57886e5d46905ad970972e0ff5dde226ec6be3af",
    "ffeab4039d33aba18f688b1ded2694ab9b498b67c02f35fc2259dd6a050a9770c5029b01fe8d5b643cba7b2405948198606f",
    "96e017647285c8924f9ed65d87c4337767f095abc40c3545fd4d4e90e08725fe065af5feb62ffcbd797bf870cc7e079006f8",
    "252281561c2e2a453e4e8118a34b0bbaa5ac619ef9a7923d4777cb9fc43e04fc7f4c48bed542b958187d9d68333a1cd3bdbe",
    "cf55a551bb0d6cf7dd9596f74ff424afa0d4bf1594c90da5be7e3ec449548644966f43315ebe8dcbee9e2475772bece62ba0",
    "055136f86ba7",
];

const SIGNATURE_PKCS1_512: &[&str] = &[
    "1216aa8cd5e683ea04185e8e472fd28683182fe36df5d09013a6ae232337ca8b7caa62877a71dfa481b03198b43aa6b917ee",
    "a1064d4a81db5addd3d728a60e7f97137c8d79759d23416e3f9d7f6c17f85f2fb4ea6e2b0fa2a14c477b407ce3f9a4b39c94",
    "27f5c216b30cebd084564d11942806c29b957bc7ad5bc895817a5c86b0b27d3b0850e9e778811e0a00821a777a8c83a54787",
    "bbc58a002298fdd277d2599b7a339172b91b425f7e5a4e9a0440cbe861c0381ff2e2ea5392c4dda878aaf1e80ffdc4e18b5e",
    "f9996c0563c8f9db72c6fb8aa7b4876585e786b2b97702d780ef16c540050703d4b9e861cffbce56efae2b92c4a73c718557",
    "858cfd9474bd",
];

const SIGNATURE_PSS_512: &[&str] = &[
    "be5807e24f0546bdd9ca135e3c50f5ec4ec8737fa503cf390fba98105392b78c90cbea8913403c0fa4b73870c534c4516aee",
    "1d71a7703c7fabfe2f475962bb3ea553069c62ad6d46973f2fd020fc32f0f2f13db6f8667de258a65dd130139f6c17be2ce5",
    "d5977064163faa8c2db1b23b2f04776a9ae9a93167236d757a4c7e08fea76b7a48dbbb94946d5bda06a13b13db6204aba1b8",
    "0aea5dd71a21af77e0e3beb1353532b81ca0c3a6e6f200659a9d6059c1f15b59a914e551c433e870f2193e5d4134e4991a5e",
    "5b2d04b960b355a82330be7a0907d5bb99ee9aebc753f3adb26716c38257377fd86ab4728d01cf706366e501af8ad311714e",
    "e7790039b567",
];

const SIGNATURE_P256: &[&str] = &[
    "304402205081d53db368911332a2681c03f9a03242eeaac85c18a4f7f2217b8e2dd833dd02205b32e6a246ffe7e530096f95",
    "7344c9e995cdace10b7e818c9b0f8dfe1ec4d0b1",
];

const SIGNATURE_P384: &[&str] = &[
    "306402307fb4718aad24fd39d84a87f5f6d97a4519550d2da9ace33b8e13c0bb5c4825b2cc846e39a762dcba7864f3c95213",
    "cc9b023015704bb4c4378e1be49aba0e8103eb87b162d81b5940f145b9f5b1d132161d5aaee47109266c19141fcc57f1b8e0",
    "56c8",
];

const SIGNATURE_ED: &[&str] = &[
    "69246b4093466e76a9a593fc77e903f1fa553cf2c98a6cd4c20da2a1e59cb8f991643ad1b7241a82bf86fbe5e478c1510965",
    "67de3b8bcf173240060fb060e105",
];

const P256_KEY: &str =
    "04559d3087e966f9f5957b3e4b7b6a16308097127ac7b03c2743b643ede94455aa09c484787bc4630820cfc0ef231d1f9e30c8bfa8ebf03a5c7419af802f9eb338";

const ED25519_KEY: &str = "2fe3d24c53a73fcc0feb78437e49051a0c052a57e9d49b8adb81aca9d0e85f9c";

#[test]
fn keys_are_read_from_certificates() {
    assert_eq!(hex::encode(extract_public_key(&bytes(P256_CERT)).unwrap()), P256_KEY);
    assert_eq!(hex::encode(extract_public_key(&bytes(ED25519_CERT)).unwrap()), ED25519_KEY);
    assert_eq!(extract_public_key(b"no certificate"), Err(TlsError::BadEncoding));
    assert_eq!(extract_public_key(&bytes(P256_CERT)[..40]), Err(TlsError::BadEncoding));
}

#[test]
fn expired_certificates_are_accepted_and_broken_ones_are_not() {
    assert_eq!(lenient_validate(&bytes(RSA_CERT)), Ok(()));
    assert_eq!(lenient_validate(&bytes(ED25519_CERT)), Ok(()));
    assert_eq!(lenient_validate(b""), Err(TlsError::BadEncoding));
    assert_eq!(lenient_validate(b"no certificate"), Err(TlsError::BadEncoding));
}

fn check(cert: &[&str], scheme: u16, signature: &[&str]) -> Result<(), TlsError> {
    verify_signature_manual(MESSAGE, &bytes(cert), scheme, &bytes(signature))
}

#[test]
fn signatures_of_every_scheme_are_checked() {
    assert_eq!(check(RSA_CERT, 0x0401, SIGNATURE_PKCS1_256), Ok(()));
    assert_eq!(check(RSA_CERT, 0x0501, SIGNATURE_PKCS1_384), Ok(()));
    assert_eq!(check(RSA_CERT, 0x0601, SIGNATURE_PKCS1_512), Ok(()));
    assert_eq!(check(RSA_CERT, 0x0804, SIGNATURE_PSS_256), Ok(()));
    assert_eq!(check(RSA_CERT, 0x0805, SIGNATURE_PSS_384), Ok(()));
    assert_eq!(check(RSA_CERT, 0x0806, SIGNATURE_PSS_512), Ok(()));
    assert_eq!(check(P256_CERT, 0x0403, SIGNATURE_P256), Ok(()));
    assert_eq!(check(P384_CERT, 0x0503, SIGNATURE_P384), Ok(()));
    assert_eq!(check(ED25519_CERT, 0x0807, SIGNATURE_ED), Ok(()));
}

#[test]
fn signatures_that_do_not_fit_are_refused() {
    assert_eq!(check(RSA_CERT, 0x0401, SIGNATURE_PKCS1_384), Err(TlsError::BadSignature));
    assert_eq!(check(RSA_CERT, 0x0804, SIGNATURE_PKCS1_256), Err(TlsError::BadSignature));
    assert_eq!(check(P256_CERT, 0x0403, SIGNATURE_P384), Err(TlsError::BadSignature));
    assert_eq!(check(P256_CERT, 0x0403, &[]), Err(TlsError::BadSignature));
    assert_eq!(
        verify_signature_manual(b"another", &bytes(ED25519_CERT), 0x0807, &bytes(SIGNATURE_ED)),
        Err(TlsError::BadSignature)
    );
}

#[test]
fn schemes_that_are_not_supported_are_refused() {
    // ECDSA on P-521, and a scheme that nobody knows.
    assert_eq!(check(P256_CERT, 0x0603, SIGNATURE_P256), Err(TlsError::UnsupportedSignatureAlgorithm));
    assert_eq!(check(P256_CERT, 0x1234, SIGNATURE_P256), Err(TlsError::UnsupportedSignatureAlgorithm));
    assert_eq!(scheme_algorithm(0x0603), None);
    assert_eq!(scheme_algorithm(0x0807), Some(Algorithm::Ed25519));
    // The certificate is looked at first.
    assert_eq!(verify_signature_manual(MESSAGE, b"broken", 0x1234, b""), Err(TlsError::BadEncoding));
}

#[test]
fn the_first_that_fails_is_the_error() {
    let some = Some(Algorithm::Ed25519);
    assert_eq!(verdict(false, None, false), Err(TlsError::BadEncoding));
    assert_eq!(verdict(true, None, true), Err(TlsError::UnsupportedSignatureAlgorithm));
    assert_eq!(verdict(true, some, false), Err(TlsError::BadSignature));
    assert_eq!(verdict(true, some, true), Ok(()));
}

#[test]
fn a_certificate_is_made_where_there_is_none() {
    assert_eq!(certificate_source(false, false), CertificateSource::Create);
    assert_eq!(certificate_source(true, false), CertificateSource::Read);
    assert_eq!(certificate_source(false, true), CertificateSource::Read);
    assert_eq!(certificate_source(true, true), CertificateSource::Read);
    assert_eq!(KEY_BITS, 2048);
    assert_eq!(VALIDITY_SECONDS, 315_360_000);
    assert_eq!(certificate_name(), "Moonshine");
}

fn section(kind: &str, base64: &str) -> String {
    format!("-----BEGIN {kind}-----\n{base64}\n-----END {kind}-----\n")
}

#[test]
fn certificate_files_hold_certificates_in_order() {
    let pem = section("CERTIFICATE", "AQID") + &section("PRIVATE KEY", "BAU=") + &section("CERTIFICATE", "Bg==");
    assert_eq!(load_certs(pem.as_bytes()), Ok(vec![vec![1, 2, 3], vec![6]]));
    assert_eq!(load_certs(b"nothing here"), Ok(vec![]));
    let broken = pem + "-----BEGIN CERTIFICATE-----\nAQID\n";
    assert_eq!(load_certs(broken.as_bytes()), Err(LoadError::BadCertificates));
}

#[test]
fn key_files_hold_a_key() {
    let kinds = [
        ("PRIVATE KEY", KeyKind::Pkcs8),
        ("RSA PRIVATE KEY", KeyKind::Pkcs1),
        ("EC PRIVATE KEY", KeyKind::Sec1),
    ];
    for (name, kind) in kinds {
        let pem = section("CERTIFICATE", "AQID") + &section(name, "BAU=") + &section("PRIVATE KEY", "Bg==");
        assert_eq!(load_private_key(pem.as_bytes()), Ok((kind, vec![4, 5])));
    }
    let certificate = section("CERTIFICATE", "AQID");
    assert_eq!(load_private_key(certificate.as_bytes()), Err(LoadError::NoKey));
    let broken = section("PRIVATE KEY", "%%%");
    assert_eq!(load_private_key(broken.as_bytes()), Err(LoadError::BadKey));
}
