use claim_signer::placeholder::{invalid_signature_bytes, PLACEHOLDER_RESERVE_SIZE};
use claim_signer::{AsyncPlaceholder, AsyncSigner, Error, Placeholder, Signer};

#[test]
fn placeholder_scenario() {
    let signer = Placeholder {};
    assert_eq!(signer.sign(b"hello"), Ok(b"invalid signature".to_vec()));
    assert_eq!(signer.reserve_size(), 128);
    assert_eq!(signer.certs(), Ok(Vec::<Vec<u8>>::new()));
    assert_eq!(signer.alg(), None);
}

#[test]
fn placeholder_signature_ignores_the_payload() {
    let signer = Placeholder {};
    let long = vec![0xabu8; 4096];
    let payloads: [&[u8]; 4] = [b"", b"hello", b"invalid signature", &long];
    for payload in payloads {
        assert_eq!(signer.sign(payload), Ok(b"invalid signature".to_vec()));
    }
}

#[test]
fn placeholder_signature_fits_the_reserved_size() {
    let signer = Placeholder {};
    let sig = signer.sign(b"").unwrap();
    assert_eq!(sig.len(), 17);
    assert!(sig.len() <= signer.reserve_size());
}

#[test]
fn placeholder_signature_is_its_text_in_ascii() {
    let expected: Vec<u8> = vec![
        0x69, 0x6e, 0x76, 0x61, 0x6c, 0x69, 0x64, 0x20, 0x73, 0x69, 0x67, 0x6e, 0x61, 0x74,
        0x75, 0x72, 0x65,
    ];
    assert_eq!(invalid_signature_bytes(), expected);
    assert_eq!(String::from_utf8(invalid_signature_bytes()).unwrap(), "invalid signature");
}

#[test]
fn placeholder_has_no_certificates() {
    assert_eq!(Placeholder {}.certs(), Ok(vec![]));
    let first = Placeholder {};
    let second = Placeholder {};
    assert_eq!(first.certs(), second.certs());
}

#[test]
fn placeholder_names_no_algorithm() {
    assert_eq!(Placeholder {}.alg(), None);
}

#[test]
fn placeholder_reserve_size_is_stable() {
    let signer = Placeholder {};
    let first = signer.reserve_size();
    let _ = signer.sign(b"between the two calls");
    let second = signer.reserve_size();
    assert_eq!(first, 128);
    assert_eq!(second, first);
    assert_eq!(PLACEHOLDER_RESERVE_SIZE, 128);
}

#[test]
fn placeholder_keeps_the_defaults() {
    let signer = Placeholder {};
    assert_eq!(signer.time_authority_url(), None);
    assert_eq!(signer.ocsp_val(), None);
}

#[test]
fn placeholder_never_fails() {
    let signer = Placeholder {};
    assert_ne!(signer.sign(b"x"), Err(Error::Signing));
    assert_ne!(signer.certs(), Err(Error::CertificateLoad));
}

#[test]
fn async_placeholder_scenario() {
    let signer = AsyncPlaceholder {};
    assert_eq!(signer.sign(b"hello"), Ok(b"invalid signature".to_vec()));
    assert_eq!(signer.sign(b""), Ok(b"invalid signature".to_vec()));
    assert_eq!(signer.reserve_size(), 128);
    assert_eq!(signer.reserve_size(), signer.reserve_size());
    assert!(signer.sign(b"hello").unwrap().len() <= signer.reserve_size());
}

#[test]
fn async_placeholder_is_shared_between_threads() {
    fn shared<T: Sync>(_: &T) {}
    shared(&AsyncPlaceholder {});
}
