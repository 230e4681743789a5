use sgl_tls::crypto::Sha256Hasher;

fn hex(digest: [u8; 32]) -> String {
    digest.iter().map(|byte| format!("{byte:02x}")).collect()
}

const EMPTY: &str = "e3b0c44298fc1c149afbf4c8996fb92427ae41e4649b934ca495991b7852b855";
const ABC: &str = "ba7816bf8f01cfea414140de5dae2223b00361a396177a9cb410ff61f20015ad";

#[test]
fn nothing_has_the_digest_of_the_empty_message() {
    assert_eq!(hex(Sha256Hasher::new().finalize()), EMPTY);
    assert_eq!(hex(Sha256Hasher::default().finalize()), EMPTY);
    assert_eq!(hex(Sha256Hasher::with_fips(true).finalize()), EMPTY);
    assert_eq!(hex(Sha256Hasher::with_fips(false).finalize()), EMPTY);
}

#[test]
fn abc_has_its_digest_in_every_build() {
    for fips in [false, true] {
        let mut hasher = Sha256Hasher::with_fips(fips);
        hasher.update(b"abc");
        assert_eq!(hex(hasher.finalize()), ABC);
    }
}

#[test]
fn digest_does_not_depend_on_the_pieces() {
    let message: Vec<u8> = (0..1000u32).map(|i| (i % 251) as u8).collect();
    let mut digests = Vec::new();
    for fips in [false, true] {
        for piece in [1, 7, 63, 64, 65, 1000] {
            let mut hasher = Sha256Hasher::with_fips(fips);
            for chunk in message.chunks(piece) {
                hasher.update(chunk);
                hasher.update(&[]);
            }
            digests.push(hasher.finalize());
        }
    }
    assert!(digests.iter().all(|digest| *digest == digests[0]));
    assert_ne!(hex(digests[0]), EMPTY);
}

#[test]
fn a_million_a_have_their_digest() {
    for fips in [false, true] {
        let mut hasher = Sha256Hasher::with_fips(fips);
        for _ in 0..1000 {
            hasher.update(&[b'a'; 1000]);
        }
        assert_eq!(
            hex(hasher.finalize()),
            "cdc76e5c9914fb9281a1c7e284d73e67f1809a48a497200e046d39ccc7112cd0"
        );
    }
}
