//! Licenses: an encrypted time of expiry that only the holder of the key can have made.
use vstd::prelude::*;

use aes_gcm::aead::{Aead, AeadCore, KeyInit};
use sha2::Digest;
use vstd::bytes::{u64_from_le_bytes, u64_to_le_bytes};

use crate::text;
use crate::text::trim;
use crate::time::Now;

verus! {

/// Bytes of a nonce.
pub const NONCE_LEN: usize = 12;

/// Bytes of a tag.
pub const TAG_LEN: usize = 16;

/// Bytes of a block of the cipher.
pub const BLOCK_LEN: usize = 16;

/// Bytes of a license: the nonce, the sealed time and its tag.
pub const PAYLOAD_LEN: usize = 36;

/// The text that the key is made from.
pub open spec fn seed() -> Seq<u8> {
    vstd::utf8::encode_utf8("poly_15min_bot_trial_seed_2025"@)
}

/// The SHA-256 hash of bytes.
pub uninterp spec fn sha256(data: Seq<u8>) -> Seq<u8>;

/// What AES-256-GCM makes of a text under a key and a nonce: the ciphertext and its tag.
pub uninterp spec fn sealed(key: Seq<u8>, nonce: Seq<u8>, plaintext: Seq<u8>) -> Option<Seq<u8>>;

/// The text that AES-256-GCM finds in a ciphertext with its tag, where the tag is right.
pub uninterp spec fn opened(key: Seq<u8>, nonce: Seq<u8>, ciphertext: Seq<u8>) -> Option<Seq<u8>>;

/// `d` is `c` with the same tag behind another ciphertext.
pub open spec fn same_tag(c: Seq<u8>, d: Seq<u8>) -> bool {
    let start = c.len() - TAG_LEN;
    start >= 0 && d.len() == c.len() && d.skip(start) == c.skip(start) && d != c
}

/// Under this key no ciphertext of a block at the most is opened, with its nonce and tag, once it is changed.
pub open spec fn notices_changes(key: Seq<u8>) -> bool {
    forall|nonce: Seq<u8>, plaintext: Seq<u8>, d: Seq<u8>|
        nonce.len() == NONCE_LEN && plaintext.len() <= BLOCK_LEN && (#[trigger] sealed(key, nonce, plaintext)
            matches Some(c) && same_tag(c, d)) ==> #[trigger] opened(key, nonce, d) is None
}

/// Bytes in standard Base64.
pub uninterp spec fn base64_text(bytes: Seq<u8>) -> Seq<char>;

/// The bytes that a text in standard Base64 stands for, where it is one.
pub uninterp spec fn base64_bytes(s: Seq<char>) -> Option<Seq<u8>>;

/// `sha2::Sha256::digest`: 32 bytes.
#[verifier::external_body]
fn hash(data: &[u8]) -> (r: Vec<u8>)
    ensures
        r@ == sha256(data@),
        r@.len() == 32,
{
    sha2::Sha256::digest(data).to_vec()
}

/// `aes_gcm::Aes256Gcm::generate_nonce` from the system's source of randomness: twelve bytes of which
/// nothing more is known.
#[verifier::external_body]
fn fresh_nonce() -> (r: Vec<u8>)
    ensures
        r@.len() == NONCE_LEN,
{
    aes_gcm::Aes256Gcm::generate_nonce(&mut aes_gcm::aead::OsRng).to_vec()
}

/// `aes_gcm::Aes256Gcm::encrypt`: it refuses only texts of more than `2^36` bytes, and what it makes is
/// opened again under the same key and nonce. Sixteen bytes of tag stand behind the ciphertext, and with
/// any other tag behind it, it is not opened. Neither is it opened with any other nonce: the tag is the sum
/// of a hash, on which the nonce has no bearing, and the block cipher's image of the nonce, which is
/// one-to-one. Whether a changed ciphertext of a block at the most is opened under the same nonce and tag
/// depends on the key alone: the hash of one block is a product in a field, which changes with the block
/// unless the hash key is zero, and with a hash key of zero it never changes. So where one such change is
/// refused, all are.
#[verifier::external_body]
fn encrypt(key: &Vec<u8>, nonce: &Vec<u8>, plaintext: &Vec<u8>) -> (r: Option<Vec<u8>>)
    requires
        key@.len() == 32,
        nonce@.len() == NONCE_LEN,
    ensures
        (match r {
            Some(c) => Some(c@),
            None => None,
        }) == sealed(key@, nonce@, plaintext@),
        plaintext@.len() <= 0x10_0000_0000 ==> r is Some,
        r matches Some(c) ==> opened(key@, nonce@, c@) == Some(plaintext@),
        r matches Some(c) ==> c@.len() == plaintext@.len() + TAG_LEN,
        r matches Some(c) ==> forall|d: Seq<u8>|
            d.len() == c@.len() && d.take(plaintext@.len() as int) == c@.take(plaintext@.len() as int) && d
                != c@ ==> (#[trigger] opened(key@, nonce@, d)) is None,
        r matches Some(c) ==> forall|m: Seq<u8>|
            m.len() == NONCE_LEN && m != nonce@ ==> (#[trigger] opened(key@, m, c@)) is None,
        r matches Some(c) ==> plaintext@.len() <= BLOCK_LEN ==> forall|d: Seq<u8>|
            same_tag(c@, d) && (#[trigger] opened(key@, nonce@, d)) is None ==> notices_changes(key@),
{
    let cipher = aes_gcm::Aes256Gcm::new_from_slice(key).ok()?;
    cipher.encrypt(aes_gcm::Nonce::from_slice(nonce), plaintext.as_slice()).ok()
}

/// `aes_gcm::Aes256Gcm::decrypt`: the text, where the tag is right. It is as long as the ciphertext without
/// the tag.
#[verifier::external_body]
fn decrypt(key: &Vec<u8>, nonce: &Vec<u8>, ciphertext: &Vec<u8>) -> (r: Option<Vec<u8>>)
    requires
        key@.len() == 32,
        nonce@.len() == NONCE_LEN,
    ensures
        (match r {
            Some(t) => Some(t@),
            None => None,
        }) == opened(key@, nonce@, ciphertext@),
        r matches Some(t) ==> ciphertext@.len() == t@.len() + TAG_LEN,
{
    let cipher = aes_gcm::Aes256Gcm::new_from_slice(key).ok()?;
    cipher.decrypt(aes_gcm::Nonce::from_slice(nonce), ciphertext.as_slice()).ok()
}

/// `base64::Engine::encode` of the standard engine: a text without white space that is decoded again to
/// the same bytes, with four characters for every three bytes or part of three.
#[verifier::external_body]
fn encode(bytes: &Vec<u8>) -> (r: String)
    ensures
        r@ == base64_text(bytes@),
        base64_bytes(r@) == Some(bytes@),
        forall|i: int| 0 <= i < r@.len() ==> !text::is_white(#[trigger] r@[i]),
        r@.len() == 4 * ((bytes@.len() + 2) / 3),
{
    base64::Engine::encode(&base64::engine::general_purpose::STANDARD, bytes)
}

/// `base64::Engine::decode` of the standard engine.
#[verifier::external_body]
fn decode(s: &str) -> (r: Option<Vec<u8>>)
    ensures
        (match r {
            Some(b) => Some(b@),
            None => None,
        }) == base64_bytes(s@),
{
    base64::Engine::decode(&base64::engine::general_purpose::STANDARD, s).ok()
}

/// Why a license does not hold.
#[derive(Clone, Copy, Debug, PartialEq, Eq, Structural)]
pub enum LicenseError {
    /// The clock stands before the Unix epoch.
    Clock,
    /// There is no license.
    NotFound,
    /// It is not in Base64.
    BadFormat,
    /// It is too short for a nonce.
    TooShort,
    /// It was not made with the key.
    Tampered,
    /// What it holds is not a time.
    BadContent,
    /// Its time is over.
    Expired,
    /// It could not be made.
    NotMade,
}

impl LicenseError {
    /// The error in words.
    pub open spec fn words(self) -> Seq<char> {
        match self {
            LicenseError::Clock => "System time error"@,
            LicenseError::NotFound => "License file not found. Please place the license.key provided by the author in the program's runtime directory, or set the POLY_15MIN_BOT_LICENSE environment variable to specify the path."@,
            LicenseError::BadFormat => "Invalid license format (base64 decode failed)"@,
            LicenseError::TooShort => "Invalid or tampered license (data too short)"@,
            LicenseError::Tampered => "Invalid or tampered license (decryption or verification failed)"@,
            LicenseError::BadContent => "Invalid or tampered license (content length abnormal)"@,
            LicenseError::Expired => "License has expired. Please contact the author to obtain a new license to continue using."@,
            LicenseError::NotMade => "Encryption failed"@,
        }
    }

    /// The error in words.
    pub fn text(self) -> (r: &'static str)
        ensures
            r@ == self.words(),
    {
        match self {
            LicenseError::Clock => "System time error",
            LicenseError::NotFound => "License file not found. Please place the license.key provided by the author in the program's runtime directory, or set the POLY_15MIN_BOT_LICENSE environment variable to specify the path.",
            LicenseError::BadFormat => "Invalid license format (base64 decode failed)",
            LicenseError::TooShort => "Invalid or tampered license (data too short)",
            LicenseError::Tampered => "Invalid or tampered license (decryption or verification failed)",
            LicenseError::BadContent => "Invalid or tampered license (content length abnormal)",
            LicenseError::Expired => "License has expired. Please contact the author to obtain a new license to continue using.",
            LicenseError::NotMade => "Encryption failed",
        }
    }
}

/// The file of the license: the configured one, or else `license.key`.
pub fn license_file_path(configured: Option<&str>) -> (r: String)
    ensures
        r@ == match configured {
            Some(path) => path@,
            None => "license.key"@,
        },
{
    match configured {
        Some(path) => path.to_string(),
        None => "license.key".to_string(),
    }
}

/// Seconds since the Unix epoch.
pub fn now_secs(now: Now) -> (r: Result<u64, LicenseError>)
    ensures
        now.utc < 0 ==> r == Err::<u64, LicenseError>(LicenseError::Clock),
        now.utc >= 0 ==> r == Ok::<u64, LicenseError>((now.utc as int / 1_000_000_000) as u64),
{
    if now.utc < 0 {
        Err(LicenseError::Clock)
    } else {
        Ok((now.utc / 1_000_000_000) as u64)
    }
}

/// The key.
pub open spec fn license_key() -> Seq<u8> {
    sha256(seed())
}

/// The key.
pub fn derive_key() -> (r: Vec<u8>)
    ensures
        r@ == license_key(),
        r@.len() == 32,
{
    hash("poly_15min_bot_trial_seed_2025".as_bytes())
}

/// The bytes of a license: the nonce, and behind it the sealed time.
pub open spec fn license_payload(nonce: Seq<u8>, expiry_secs: u64) -> Option<Seq<u8>> {
    match sealed(license_key(), nonce, vstd::bytes::spec_u64_to_le_bytes(expiry_secs)) {
        Some(c) => Some(nonce + c),
        None => None,
    }
}

/// Where the bytes of a license are parted: the nonce and the ciphertext.
pub open spec fn parted(payload: Option<Seq<u8>>) -> Result<(Seq<u8>, Seq<u8>), LicenseError> {
    match payload {
        None => Err(LicenseError::BadFormat),
        Some(p) => if p.len() < NONCE_LEN {
            Err(LicenseError::TooShort)
        } else {
            Ok((p.take(NONCE_LEN as int), p.skip(NONCE_LEN as int)))
        },
    }
}

/// The time that an opened license holds.
pub open spec fn time_in(plaintext: Option<Seq<u8>>) -> Result<u64, LicenseError> {
    match plaintext {
        None => Err(LicenseError::Tampered),
        Some(t) => if t.len() != 8 {
            Err(LicenseError::BadContent)
        } else {
            Ok(vstd::bytes::spec_u64_from_le_bytes(t))
        },
    }
}

/// The time of expiry that a license holds.
pub open spec fn license_time(encoded: Seq<char>) -> Result<u64, LicenseError> {
    match parted(base64_bytes(text::trimmed(encoded))) {
        Err(e) => Err(e),
        Ok((nonce, ciphertext)) => time_in(opened(license_key(), nonce, ciphertext)),
    }
}

/// A text stands for the bytes of a license, but with another tag.
pub open spec fn has_other_tag(encoded: Seq<char>, payload: Seq<u8>) -> bool {
    let start = payload.len() - TAG_LEN;
    base64_bytes(text::trimmed(encoded)) matches Some(p) && p.len() == payload.len() && p.take(start)
        == payload.take(start) && p != payload
}

/// A text stands for the bytes of a license, but with another nonce.
pub open spec fn has_other_nonce(encoded: Seq<char>, payload: Seq<u8>) -> bool {
    base64_bytes(text::trimmed(encoded)) matches Some(p) && p.len() == payload.len() && p.skip(
        NONCE_LEN as int,
    ) == payload.skip(NONCE_LEN as int) && p != payload
}

/// A text stands for the bytes of a license, but with another ciphertext.
pub open spec fn has_other_ciphertext(encoded: Seq<char>, payload: Seq<u8>) -> bool {
    base64_bytes(text::trimmed(encoded)) matches Some(p) && p.take(NONCE_LEN as int) == payload.take(
        NONCE_LEN as int,
    ) && same_tag(payload, p)
}

/// A text stands for the bytes of a license, but for one of them.
pub open spec fn has_one_other_byte(encoded: Seq<char>, payload: Seq<u8>) -> bool {
    base64_bytes(text::trimmed(encoded)) matches Some(p) && exists|i: int, b: u8|
        0 <= i < payload.len() && b != payload[i] && p == #[trigger] payload.update(i, b)
}

/// Parts the bytes of a license, where they could be decoded.
pub fn part_payload(payload: Option<Vec<u8>>) -> (r: Result<(Vec<u8>, Vec<u8>), LicenseError>)
    ensures
        (match r {
            Ok((nonce, ciphertext)) => Ok((nonce@, ciphertext@)),
            Err(e) => Err(e),
        }) == parted(
            match payload {
                Some(p) => Some(p@),
                None => None,
            },
        ),
{
    let mut nonce = match payload {
        Some(p) => p,
        None => return Err(LicenseError::BadFormat),
    };
    if nonce.len() < NONCE_LEN {
        return Err(LicenseError::TooShort);
    }
    let ghost whole = nonce@;
    let ciphertext = nonce.split_off(NONCE_LEN);
    assert(nonce@ =~= whole.take(NONCE_LEN as int));
    assert(ciphertext@ =~= whole.skip(NONCE_LEN as int));
    Ok((nonce, ciphertext))
}

/// The time that an opened license holds, where it could be opened.
pub fn read_time(plaintext: Option<Vec<u8>>) -> (r: Result<u64, LicenseError>)
    ensures
        r == time_in(
            match plaintext {
                Some(t) => Some(t@),
                None => None,
            },
        ),
{
    match plaintext {
        None => Err(LicenseError::Tampered),
        Some(t) => if t.len() != 8 {
            Err(LicenseError::BadContent)
        } else {
            Ok(u64_from_le_bytes(t.as_slice()))
        },
    }
}

/// The time of expiry that a license holds. A license that is too short or too long holds none.
pub fn decrypt_timestamp(encoded: &str) -> (r: Result<u64, LicenseError>)
    ensures
        r == license_time(encoded@),
        r is Ok ==> (base64_bytes(text::trimmed(encoded@)) matches Some(p) && p.len() == PAYLOAD_LEN),
{
    match part_payload(decode(trim(encoded))) {
        Err(e) => Err(e),
        Ok((nonce, ciphertext)) => {
            let key = derive_key();
            read_time(decrypt(&key, &nonce, &ciphertext))
        },
    }
}

/// A license that expires at this second, made with this nonce; reading it gives the second back, and with
/// another tag or nonce it is refused. So it is with another ciphertext, where the key notices changes.
pub fn encrypt_timestamp(expiry_secs: u64, nonce: Vec<u8>) -> (r: Result<String, LicenseError>)
    requires
        nonce@.len() == NONCE_LEN,
    ensures
        r is Ok,
        license_payload(nonce@, expiry_secs) is Some,
        (license_payload(nonce@, expiry_secs)->0).len() == PAYLOAD_LEN,
        (r->Ok_0)@ == base64_text(license_payload(nonce@, expiry_secs)->0),
        (r->Ok_0)@.len() == 48,
        base64_bytes((r->Ok_0)@) == license_payload(nonce@, expiry_secs),
        license_time((r->Ok_0)@) == Ok::<u64, LicenseError>(expiry_secs),
        forall|other: Seq<char>| #[trigger]
            has_other_tag(other, license_payload(nonce@, expiry_secs)->0) ==> license_time(other) == Err::<
                u64,
                LicenseError,
            >(LicenseError::Tampered),
        forall|other: Seq<char>| #[trigger]
            has_other_nonce(other, license_payload(nonce@, expiry_secs)->0) ==> license_time(other) == Err::<
                u64,
                LicenseError,
            >(LicenseError::Tampered),
        notices_changes(license_key()) ==> forall|other: Seq<char>| #[trigger]
            has_other_ciphertext(other, license_payload(nonce@, expiry_secs)->0) ==> license_time(other) == Err::<
                u64,
                LicenseError,
            >(LicenseError::Tampered),
{
    let key = derive_key();
    let plaintext = u64_to_le_bytes(expiry_secs);
    proof {
        vstd::bytes::lemma_auto_spec_u64_to_from_le_bytes();
    }
    let mut ciphertext = match encrypt(&key, &nonce, &plaintext) {
        Some(c) => c,
        None => return Err(LicenseError::NotMade),
    };
    let ghost (n, c) = (nonce@, ciphertext@);
    let mut payload = nonce;
    payload.append(&mut ciphertext);
    assert(payload@ =~= n + c);
    let encoded = encode(&payload);
    proof {
        assert((n + c).take(NONCE_LEN as int) =~= n);
        assert((n + c).skip(NONCE_LEN as int) =~= c);
        lemma_nothing_to_trim(encoded@);
        assert forall|other: Seq<char>| #[trigger] has_other_tag(other, n + c) implies license_time(other)
            == Err::<u64, LicenseError>(LicenseError::Tampered) by {
            let p = base64_bytes(text::trimmed(other))->0;
            let start = PAYLOAD_LEN - TAG_LEN;
            let d = p.skip(NONCE_LEN as int);
            assert(p.take(NONCE_LEN as int) =~= p.take(start).take(NONCE_LEN as int));
            assert(n =~= (n + c).take(start).take(NONCE_LEN as int));
            assert(d.take(8) =~= p.take(start).skip(NONCE_LEN as int));
            assert(c.take(8) =~= (n + c).take(start).skip(NONCE_LEN as int));
            assert(p =~= p.take(NONCE_LEN as int) + d);
            assert(d != c);
            assert(opened(license_key(), n, d) is None);
        }
        assert forall|other: Seq<char>| #[trigger] has_other_nonce(other, n + c) implies license_time(other)
            == Err::<u64, LicenseError>(LicenseError::Tampered) by {
            let p = base64_bytes(text::trimmed(other))->0;
            let m = p.take(NONCE_LEN as int);
            assert(p =~= m + p.skip(NONCE_LEN as int));
            assert(m != n);
            assert(opened(license_key(), m, c) is None);
        }
        assert forall|other: Seq<char>| notices_changes(license_key()) && #[trigger] has_other_ciphertext(
            other,
            n + c,
        ) implies license_time(other) == Err::<u64, LicenseError>(LicenseError::Tampered) by {
            let p = base64_bytes(text::trimmed(other))->0;
            let d = p.skip(NONCE_LEN as int);
            assert(p =~= p.take(NONCE_LEN as int) + d);
            assert(d.skip(8) =~= p.skip(PAYLOAD_LEN - TAG_LEN));
            assert(c.skip(8) =~= (n + c).skip(PAYLOAD_LEN - TAG_LEN));
            assert(same_tag(c, d));
            assert(sealed(license_key(), n, plaintext@) == Some(c));
            assert(opened(license_key(), n, d) is None);
        }
    }
    Ok(encoded)
}

/// A text without white space is not trimmed.
proof fn lemma_nothing_to_trim(s: Seq<char>)
    requires
        forall|i: int| 0 <= i < s.len() ==> !text::is_white(#[trigger] s[i]),
    ensures
        text::trimmed(s) == s,
{
    if s.len() > 0 {
        assert(!text::is_white(s[0]));
        assert(!text::is_white(s[s.len() - 1]));
    }
}

/// A license that expires at this second; reading it gives the second back, and with another tag or nonce it
/// is refused. So it is with another ciphertext and with any one byte changed, where the key notices changes
/// ([`changes_are_noticed`] tells).
pub fn create_license(expiry_secs: u64) -> (r: Result<String, LicenseError>)
    ensures
        r is Ok,
        license_time((r->Ok_0)@) == Ok::<u64, LicenseError>(expiry_secs),
        (r->Ok_0)@.len() == 48,
        exists|nonce: Seq<u8>|
            {
                &&& nonce.len() == NONCE_LEN
                &&& #[trigger] license_payload(nonce, expiry_secs) is Some
                &&& (license_payload(nonce, expiry_secs)->0).len() == PAYLOAD_LEN
                &&& (r->Ok_0)@ == base64_text(license_payload(nonce, expiry_secs)->0)
                &&& base64_bytes((r->Ok_0)@) == license_payload(nonce, expiry_secs)
            },
        forall|other: Seq<char>| #[trigger]
            has_other_tag(other, base64_bytes((r->Ok_0)@)->0) ==> license_time(other) == Err::<
                u64,
                LicenseError,
            >(LicenseError::Tampered),
        forall|other: Seq<char>| #[trigger]
            has_other_nonce(other, base64_bytes((r->Ok_0)@)->0) ==> license_time(other) == Err::<
                u64,
                LicenseError,
            >(LicenseError::Tampered),
        notices_changes(license_key()) ==> forall|other: Seq<char>| #[trigger]
            has_other_ciphertext(other, base64_bytes((r->Ok_0)@)->0) ==> license_time(other) == Err::<
                u64,
                LicenseError,
            >(LicenseError::Tampered),
        notices_changes(license_key()) ==> forall|other: Seq<char>| #[trigger]
            has_one_other_byte(other, base64_bytes((r->Ok_0)@)->0) ==> license_time(other) == Err::<
                u64,
                LicenseError,
            >(LicenseError::Tampered),
{
    let nonce = fresh_nonce();
    let ghost n = nonce@;
    let r = encrypt_timestamp(expiry_secs, nonce);
    assert(license_payload(n, expiry_secs) is Some);
    proof {
        let payload = base64_bytes((r->Ok_0)@)->0;
        assert forall|other: Seq<char>| notices_changes(license_key()) && #[trigger] has_one_other_byte(
            other,
            payload,
        ) implies license_time(other) == Err::<u64, LicenseError>(LicenseError::Tampered) by {
            lemma_byte_in_one_part(other, payload);
        }
    }
    r
}

/// A changed byte of a license stands in its nonce, in its ciphertext or in its tag.
proof fn lemma_byte_in_one_part(encoded: Seq<char>, payload: Seq<u8>)
    requires
        payload.len() == PAYLOAD_LEN,
        has_one_other_byte(encoded, payload),
    ensures
        has_other_nonce(encoded, payload) || has_other_ciphertext(encoded, payload) || has_other_tag(
            encoded,
            payload,
        ),
{
    let p = base64_bytes(text::trimmed(encoded))->0;
    let (i, b) = choose|i: int, b: u8|
        0 <= i < payload.len() && b != payload[i] && p == #[trigger] payload.update(i, b);
    let start = PAYLOAD_LEN - TAG_LEN;
    assert(p[i] != payload[i]);
    if i < NONCE_LEN {
        assert(p.skip(NONCE_LEN as int) =~= payload.skip(NONCE_LEN as int));
    } else if i < start {
        assert(p.take(NONCE_LEN as int) =~= payload.take(NONCE_LEN as int));
        assert(p.skip(start) =~= payload.skip(start));
    } else {
        assert(p.take(start) =~= payload.take(start));
    }
}

/// Whether the key is one under which every changed license shows: it seals a time, changes a byte of what it
/// has sealed, and looks whether that is refused.
pub fn changes_are_noticed() -> (r: bool)
    ensures
        r == notices_changes(license_key()),
{
    let key = derive_key();
    let nonce: Vec<u8> = vec![0; NONCE_LEN];
    let plaintext = u64_to_le_bytes(0);
    let mut changed = match encrypt(&key, &nonce, &plaintext) {
        Some(c) => c,
        None => return false,
    };
    let ghost c = changed@;
    let byte: u8 = if changed[0] == 0 {
        1
    } else {
        0
    };
    changed.set(0, byte);
    assert(c[0] != changed@[0]);
    assert(changed@.skip(8) =~= c.skip(8));
    assert(same_tag(c, changed@));
    assert(sealed(key@, nonce@, plaintext@) == Some(c));
    decrypt(&key, &nonce, &changed).is_none()
}

/// The seconds that are left of a license, where it holds.
pub open spec fn validity(time: Result<u64, LicenseError>, now: u64) -> Result<u64, LicenseError> {
    match time {
        Err(e) => Err(e),
        Ok(expiry) => if now >= expiry {
            Err(LicenseError::Expired)
        } else {
            Ok((expiry - now) as u64)
        },
    }
}

/// The seconds that are left where this time of expiry was read.
pub fn time_left(time: Result<u64, LicenseError>, now: u64) -> (r: Result<u64, LicenseError>)
    ensures
        r == validity(time, now),
{
    match time {
        Err(e) => Err(e),
        Ok(expiry) => if now >= expiry {
            Err(LicenseError::Expired)
        } else {
            Ok(expiry - now)
        },
    }
}

/// The seconds that are left of a license. Without one, or with one that does not hold, there is an
/// error.
pub fn check_license(content: Option<&str>, now: Now) -> (r: Result<u64, LicenseError>)
    ensures
        r == if now.utc < 0 {
            Err(LicenseError::Clock)
        } else {
            match content {
                None => Err(LicenseError::NotFound),
                Some(c) => validity(
                    license_time(c@),
                    (now.utc as int / 1_000_000_000) as u64,
                ),
            }
        },
{
    let secs = match now_secs(now) {
        Ok(secs) => secs,
        Err(e) => return Err(e),
    };
    match content {
        None => Err(LicenseError::NotFound),
        Some(c) => time_left(decrypt_timestamp(c), secs),
    }
}

/// A license holds before its second of expiry, and from then on it does not.
pub proof fn license_holds_until_expiry(encoded: Seq<char>, expiry: u64, now: u64)
    requires
        license_time(encoded) == Ok::<u64, LicenseError>(expiry),
    ensures
        now < expiry ==> validity(license_time(encoded), now) == Ok::<u64, LicenseError>(
            (expiry - now) as u64,
        ),
        now >= expiry ==> validity(license_time(encoded), now) == Err::<u64, LicenseError>(
            LicenseError::Expired,
        ),
{
}

/// White space at the ends of a text is trimmed off.
proof fn lemma_trimmed_ends(front: Seq<char>, s: Seq<char>, end: Seq<char>)
    requires
        forall|i: int| 0 <= i < front.len() ==> text::is_white(#[trigger] front[i]),
        forall|i: int| 0 <= i < end.len() ==> text::is_white(#[trigger] end[i]),
    ensures
        text::trimmed(front + s + end) == text::trimmed(s),
    decreases front.len() + s.len() + end.len(),
{
    let whole = front + s + end;
    if front.len() > 0 {
        assert(whole[0] == front[0]);
        assert(whole.drop_first() =~= front.drop_first() + s + end);
        lemma_trimmed_ends(front.drop_first(), s, end);
    } else if s.len() > 0 && text::is_white(s[0]) {
        assert(whole[0] == s[0]);
        assert(whole.drop_first() =~= front + s.drop_first() + end);
        lemma_trimmed_ends(front, s.drop_first(), end);
    } else if end.len() > 0 {
        if s.len() > 0 {
            assert(whole[0] == s[0]);
            assert(whole.last() == end[end.len() - 1]);
            assert(whole.drop_last() =~= front + s + end.drop_last());
            lemma_trimmed_ends(front, s, end.drop_last());
        } else {
            assert(whole[0] == end[0]);
            assert(whole.drop_first() =~= front + s + end.drop_first());
            lemma_trimmed_ends(front, s, end.drop_first());
        }
    } else {
        assert(whole =~= s);
    }
}

/// White space around a license does not matter.
pub proof fn white_space_does_not_matter(front: Seq<char>, encoded: Seq<char>, end: Seq<char>)
    requires
        forall|i: int| 0 <= i < front.len() ==> text::is_white(#[trigger] front[i]),
        forall|i: int| 0 <= i < end.len() ==> text::is_white(#[trigger] end[i]),
    ensures
        license_time(front + encoded + end) == license_time(encoded),
{
    lemma_trimmed_ends(front, encoded, end);
}

/// What is not Base64, or too short for a nonce, is no license.
pub proof fn malformed_license_is_refused(encoded: Seq<char>)
    ensures
        base64_bytes(text::trimmed(encoded)) is None ==> license_time(encoded) == Err::<u64, LicenseError>(
            LicenseError::BadFormat,
        ),
        base64_bytes(text::trimmed(encoded)) matches Some(p) && p.len() < NONCE_LEN ==> license_time(encoded)
            == Err::<u64, LicenseError>(LicenseError::TooShort),
{
}

} // verus!
