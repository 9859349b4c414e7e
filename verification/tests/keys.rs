use cargo_trust::crypto::signature::be32_bytes;
use cargo_trust::{PublicKey, Signature};
use ed25519_dalek::{Keypair, SecretKey, Signer};
use pbp::{KeyFlags, PgpKey, PgpSig, SigType};

fn keypair(seed: u8) -> Keypair {
    let secret = SecretKey::from_bytes(&[seed; 32]).unwrap();
    let public = ed25519_dalek::PublicKey::from(&secret);
    Keypair { secret, public }
}

fn pgp_key(pair: &Keypair, user: &str) -> PgpKey {
    PgpKey::new::<sha2::Sha256, _>(pair.public.as_bytes(), KeyFlags::SIGN, user, |digest| {
        pair.sign(digest).to_bytes()
    })
}

fn pgp_signature(pair: &Keypair, data: &[u8], fingerprint: [u8; 20]) -> PgpSig {
    PgpSig::new::<sha2::Sha256, _>(data, fingerprint, SigType::BinaryDocument, &[], |digest| {
        pair.sign(digest).to_bytes()
    })
}

#[test]
fn binary_key_is_read_with_its_fingerprint() {
    let pair = keypair(1);
    let encoded = pgp_key(&pair, "alice <alice@example.org>");
    let key = PublicKey::from_bytes(encoded.as_bytes()).unwrap();
    assert_eq!(key.material(), &pair.public.as_bytes()[..]);
    assert_eq!(key.material().len(), 32);
    assert_eq!(key.fingerprint(), encoded.fingerprint());
    assert!(key.has_fingerprint(&encoded.fingerprint()));
    assert!(!key.has_fingerprint(&[0u8; 20]));
}

#[test]
fn fingerprint_does_not_depend_on_the_user() {
    let pair = keypair(1);
    let one = PublicKey::from_bytes(pgp_key(&pair, "alice").as_bytes()).unwrap();
    let other = PublicKey::from_bytes(pgp_key(&pair, "somebody else").as_bytes()).unwrap();
    assert_eq!(one.fingerprint(), other.fingerprint());
    assert!(one.same_as(&other));
}

#[test]
fn different_keys_differ() {
    let one = PublicKey::from_bytes(pgp_key(&keypair(1), "alice").as_bytes()).unwrap();
    let other = PublicKey::from_bytes(pgp_key(&keypair(2), "alice").as_bytes()).unwrap();
    assert!(!one.same_as(&other));
    assert_ne!(one.fingerprint(), other.fingerprint());
    assert!(one.same_as(&one.clone()));
}

#[test]
fn bytes_that_are_no_key_are_refused() {
    assert!(PublicKey::from_bytes(&[]).is_none());
    assert!(PublicKey::from_bytes(b"not a key").is_none());
    let pair = keypair(1);
    let encoded = pgp_key(&pair, "alice");
    assert!(PublicKey::from_bytes(&encoded.as_bytes()[..20]).is_none());
    let mut wrong_algorithm = encoded.as_bytes().to_vec();
    wrong_algorithm[8] = 1;
    assert!(PublicKey::from_bytes(&wrong_algorithm).is_none());
}

#[test]
fn text_that_is_no_key_is_refused() {
    assert!(PublicKey::from_ascii_armor("").is_none());
    assert!(PublicKey::from_ascii_armor("not a key").is_none());
    assert!(PublicKey::from_ascii_armor(
        "-----BEGIN PGP PUBLIC KEY BLOCK-----\n\n!!!!\n=AAAA\n-----END PGP PUBLIC KEY BLOCK-----\n"
    )
    .is_none());
}

#[test]
fn binary_signature_is_read() {
    let pair = keypair(3);
    let fingerprint = pgp_key(&pair, "carol").fingerprint();
    let packet = pgp_signature(&pair, b"some data", fingerprint);
    let signature = Signature::from_bytes(packet.as_bytes()).unwrap();
    assert_eq!(signature.fingerprint(), packet.fingerprint());
    assert_eq!(signature.raw(), &packet.signature());
    assert_eq!(signature.raw().to_vec(), pair.sign(&signature.signed_digest(b"some data")).to_bytes().to_vec());
}

#[test]
fn bytes_that_are_no_signature_are_refused() {
    assert!(Signature::from_bytes(&[]).is_none());
    assert!(Signature::from_bytes(b"not a signature").is_none());
    let pair = keypair(3);
    let packet = pgp_signature(&pair, b"some data", [9u8; 20]);
    assert!(Signature::from_bytes(&packet.as_bytes()[..40]).is_none());
    let key = pgp_key(&pair, "carol");
    assert!(Signature::from_bytes(key.as_bytes()).is_none());
}

#[test]
fn signed_digest_is_the_one_that_was_signed() {
    let pair = keypair(3);
    let data = b"the data that is signed";
    let seen = std::cell::RefCell::new(Vec::new());
    let packet =
        PgpSig::new::<sha2::Sha256, _>(data, [7u8; 20], SigType::BinaryDocument, &[], |digest| {
            seen.borrow_mut().extend_from_slice(digest);
            pair.sign(digest).to_bytes()
        });
    let signature = Signature::from_bytes(packet.as_bytes()).unwrap();
    assert_eq!(signature.signed_digest(data).to_vec(), seen.into_inner());
    assert_ne!(signature.signed_digest(b"other data"), signature.signed_digest(data));
}

#[test]
fn with_fingerprint_replaces_only_the_claim() {
    let pair = keypair(3);
    let data = b"the data that is signed";
    let packet = pgp_signature(&pair, data, [7u8; 20]);
    let signature = Signature::from_bytes(packet.as_bytes()).unwrap();
    let changed = signature.clone().with_fingerprint([8u8; 20]);
    assert_eq!(changed.fingerprint(), [8u8; 20]);
    assert_eq!(changed.raw(), signature.raw());
    assert_eq!(changed.signed_digest(data), signature.signed_digest(data));
}

#[test]
fn be32_is_big_endian() {
    assert_eq!(be32_bytes(0), [0, 0, 0, 0]);
    assert_eq!(be32_bytes(1), [0, 0, 0, 1]);
    assert_eq!(be32_bytes(0x0102_0304), [1, 2, 3, 4]);
    assert_eq!(be32_bytes(0xffff_ffff), [255, 255, 255, 255]);
    assert_eq!(be32_bytes(29), [0, 0, 0, 29]);
}
