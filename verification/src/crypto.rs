use vstd::prelude::*;

use aes_gcm::aead::Aead;
use aes_gcm::aead::OsRng;
use aes_gcm::AeadCore;
use aes_gcm::Aes256Gcm;
use aes_gcm::KeyInit;
use aes_gcm::Nonce;

use crate::ascii::DOT;
use crate::ascii::LOWER_C;
use crate::ascii::LOWER_E;
use crate::ascii::LOWER_N;
use crate::errors::ExplorerError;
use crate::pane::copy_bytes;

verus! {

/// The longest plaintext AES-256-GCM accepts, as its crate documents.
pub const MAX_PLAINTEXT_LEN: u64 = 68719476736;

/// What AES-256-GCM returns for this key, nonce and plaintext: the
/// encrypted bytes with the authentication tag appended. The cipher is
/// deterministic in these three arguments, so the result bears a name
/// rather than a page of algorithm.
pub uninterp spec fn aead_sealed(key: Seq<u8>, nonce: Seq<u8>, plaintext: Seq<u8>) -> Seq<u8>;

/// Relies on aes_gcm's `Aes256Gcm` through `aead::Aead::encrypt`:
/// AES-256-GCM is deterministic in key, nonce and plaintext; the ciphertext
/// is the encrypted plaintext with its 16-byte tag appended; and encryption
/// succeeds exactly as long as the plaintext is within the crate's
/// documented length bound.
#[verifier::external_body]
fn aead_seal(key: &Vec<u8>, nonce: &Vec<u8>, plaintext: &Vec<u8>) -> (r: Option<Vec<u8>>)
    requires
        key@.len() == 32,
        nonce@.len() == 12,
    ensures
        r matches Some(c) ==> c@ == aead_sealed(key@, nonce@, plaintext@) && c@.len() == plaintext@.len() + 16,
        plaintext@.len() <= MAX_PLAINTEXT_LEN ==> r is Some,
{
    let cipher = match Aes256Gcm::new_from_slice(key.as_slice()) {
        Ok(c) => c,
        Err(_) => return None,
    };
    match cipher.encrypt(Nonce::from_slice(nonce.as_slice()), plaintext.as_slice()) {
        Ok(c) => Some(c),
        Err(_) => None,
    }
}

/// Relies on aes_gcm's `Aes256Gcm` through `aead::Aead::decrypt`: the tag
/// is checked over the whole ciphertext and, exactly when it matches,
/// decryption returns the one plaintext that seals to this ciphertext under
/// this key and nonce.
#[verifier::external_body]
fn aead_open(key: &Vec<u8>, nonce: &Vec<u8>, ciphertext: &Vec<u8>) -> (r: Option<Vec<u8>>)
    requires
        key@.len() == 32,
        nonce@.len() == 12,
    ensures
        r matches Some(q) ==> q@.len() + 16 == ciphertext@.len(),
        r matches Some(q) ==> forall|p: Seq<u8>|
            p.len() <= MAX_PLAINTEXT_LEN && ciphertext@ == aead_sealed(key@, nonce@, p) ==> q@
                == p,
        r is None ==> forall|p: Seq<u8>|
            p.len() <= MAX_PLAINTEXT_LEN ==> ciphertext@ != aead_sealed(key@, nonce@, p),
{
    let cipher = match Aes256Gcm::new_from_slice(key.as_slice()) {
        Ok(c) => c,
        Err(_) => return None,
    };
    match cipher.decrypt(Nonce::from_slice(nonce.as_slice()), ciphertext.as_slice()) {
        Ok(p) => Some(p),
        Err(_) => None,
    }
}

/// Relies on aes_gcm's `AeadCore::generate_nonce` over the operating
/// system's randomness: twelve bytes come back, and nothing more is assumed
/// of a random value.
#[verifier::external_body]
fn fresh_nonce() -> (r: Vec<u8>)
    ensures
        r@.len() == 12,
{
    Aes256Gcm::generate_nonce(&mut OsRng).to_vec()
}

/// The on-disk layout of an encrypted file: the twelve nonce bytes, then
/// the sealed payload.
pub open spec fn sealed_frame(key: Seq<u8>, nonce: Seq<u8>, plaintext: Seq<u8>) -> Seq<u8> {
    nonce + aead_sealed(key, nonce, plaintext)
}

/// Whether `data` is a well-formed encrypted file whose payload, under this
/// key and the nonce it carries, is exactly `plaintext`.
pub open spec fn frame_holds(key: Seq<u8>, data: Seq<u8>, plaintext: Seq<u8>) -> bool {
    &&& data.len() >= 12
    &&& plaintext.len() <= MAX_PLAINTEXT_LEN
    &&& data.skip(12) == aead_sealed(key, data.take(12), plaintext)
}

/// Round-trip law: a frame built by sealing `plaintext` under a key and a
/// fresh nonce satisfies the decryption success condition with exactly
/// `plaintext`, so decrypting what was just encrypted gives the original
/// bytes back.
pub proof fn lemma_round_trip(key: Seq<u8>, nonce: Seq<u8>, plaintext: Seq<u8>)
    requires
        nonce.len() == 12,
        plaintext.len() <= MAX_PLAINTEXT_LEN,
    ensures
        frame_holds(key, sealed_frame(key, nonce, plaintext), plaintext),
{
    let data = sealed_frame(key, nonce, plaintext);
    assert(data.take(12) =~= nonce);
    assert(data.skip(12) =~= aead_sealed(key, nonce, plaintext));
}

/// A copy of the byte range `[from, to)` of a byte string.
fn sub_bytes(v: &Vec<u8>, from: usize, to: usize) -> (r: Vec<u8>)
    requires
        from <= to <= v@.len(),
    ensures
        r@ == v@.subrange(from as int, to as int),
{
    let mut out: Vec<u8> = Vec::new();
    let mut i: usize = from;
    while i < to
        invariant
            from <= i <= to <= v@.len(),
            out@ =~= v@.subrange(from as int, i as int),
        decreases to - i,
    {
        out.push(v[i]);
        i = i + 1;
    }
    out
}

/// The key baked into the binary. A static embedded secret is a known
/// weakness of this tool, not something it tries to fix.
pub open spec fn embedded_key() -> Seq<u8> {
    seq![
        107u8, 33u8, 58u8, 129u8, 240u8, 77u8, 12u8, 164u8,
        201u8, 5u8, 90u8, 173u8, 222u8, 48u8, 151u8, 66u8,
        19u8, 250u8, 103u8, 84u8, 37u8, 142u8, 210u8, 71u8,
        126u8, 9u8, 188u8, 55u8, 232u8, 97u8, 140u8, 61u8,
    ]
}

/// The AES-256-GCM engine, holding the 32-byte key it seals and opens
/// files with.
pub struct AesEncryptor {
    key: Vec<u8>,
}

impl View for AesEncryptor {
    type V = Seq<u8>;

    closed spec fn view(&self) -> Seq<u8> {
        self.key@
    }
}

impl AesEncryptor {
    /// The key invariant AES-256 demands.
    pub open spec fn wf(&self) -> bool {
        self@.len() == 32
    }

    /// An encryptor over the embedded key.
    pub fn initialize() -> (r: AesEncryptor)
        ensures
            r@ == embedded_key(),
            r.wf(),
    {
        let key: Vec<u8> = vec![
            107u8, 33u8, 58u8, 129u8, 240u8, 77u8, 12u8, 164u8,
            201u8, 5u8, 90u8, 173u8, 222u8, 48u8, 151u8, 66u8,
            19u8, 250u8, 103u8, 84u8, 37u8, 142u8, 210u8, 71u8,
            126u8, 9u8, 188u8, 55u8, 232u8, 97u8, 140u8, 61u8,
        ];
        proof {
            assert(key@ =~= embedded_key());
        }
        AesEncryptor { key }
    }

    /// An encryptor over a caller's key, which AES-256 requires to be
    /// exactly 32 bytes.
    pub fn with_key(key: Vec<u8>) -> (r: Option<AesEncryptor>)
        ensures
            match r {
                Some(enc) => key@.len() == 32 && enc@ == key@ && enc.wf(),
                None => key@.len() != 32,
            },
    {
        if key.len() == 32 {
            Some(AesEncryptor { key })
        } else {
            None
        }
    }

    /// Encrypt a file's bytes: seal them under a fresh random nonce and
    /// frame the result as the nonce followed by the sealed payload.
    /// Succeeds on every plaintext within the cipher's length bound; a
    /// failure surfaces as a crypto error, never as a partial frame.
    pub fn encrypt_bytes(&self, plaintext: &Vec<u8>) -> (r: Result<Vec<u8>, ExplorerError>)
        requires
            self.wf(),
        ensures
            r matches Ok(c) ==> c@.len() == plaintext@.len() + 28 && c@.skip(12) == aead_sealed(
                self@,
                c@.take(12),
                plaintext@,
            ),
            r matches Ok(c) ==> (plaintext@.len() <= MAX_PLAINTEXT_LEN ==> frame_holds(
                self@,
                c@,
                plaintext@,
            )),
            plaintext@.len() <= MAX_PLAINTEXT_LEN ==> r is Ok,
            r matches Err(e) ==> e == ExplorerError::CryptoFailure,
    {
        let nonce = fresh_nonce();
        match aead_seal(&self.key, &nonce, plaintext) {
            Some(mut sealed) => {
                let mut out = copy_bytes(&nonce);
                out.append(&mut sealed);
                proof {
                    assert(out@.take(12) =~= nonce@);
                    assert(out@.skip(12) =~= aead_sealed(self@, nonce@, plaintext@));
                }
                Ok(out)
            },
            None => Err(ExplorerError::CryptoFailure),
        }
    }

    /// Decrypt an encrypted file's bytes: split off the twelve nonce bytes
    /// and open the rest. Whenever the data is a frame some plaintext seals
    /// to under this key, that plaintext and nothing else comes back; a
    /// too-short file, a wrong key or a tampered payload surfaces as a
    /// crypto error.
    pub fn decrypt_bytes(&self, data: &Vec<u8>) -> (r: Result<Vec<u8>, ExplorerError>)
        requires
            self.wf(),
        ensures
            forall|p: Seq<u8>| frame_holds(self@, data@, p) ==> (r matches Ok(q) && q@ == p),
            r matches Ok(q) ==> q@.len() + 28 == data@.len(),
            r matches Err(e) ==> e == ExplorerError::CryptoFailure,
            data@.len() < 12 ==> r is Err,
    {
        if data.len() < 12 {
            return Err(ExplorerError::CryptoFailure);
        }
        let nonce = sub_bytes(data, 0, 12);
        let ciphertext = sub_bytes(data, 12, data.len());
        proof {
            assert(nonce@ =~= data@.take(12));
            assert(ciphertext@ =~= data@.skip(12));
        }
        match aead_open(&self.key, &nonce, &ciphertext) {
            Some(p) => Ok(p),
            None => Err(ExplorerError::CryptoFailure),
        }
    }
}

/// The suffix an encrypted file's name carries.
pub open spec fn enc_suffix() -> Seq<u8> {
    seq![DOT, LOWER_E, LOWER_N, LOWER_C]
}

/// The name an encrypted file gets: the source name with the suffix
/// appended, in the same directory.
pub open spec fn encrypted_name_model(p: Seq<u8>) -> Seq<u8> {
    p + enc_suffix()
}

/// Whether a name carries the encrypted-file suffix.
pub open spec fn has_enc_suffix(p: Seq<u8>) -> bool {
    p.len() >= 4 && p.skip(p.len() - 4) == enc_suffix()
}

/// The name a decrypted file gets back: the suffix stripped.
pub open spec fn decrypted_name_model(p: Seq<u8>) -> Seq<u8>
    recommends
        has_enc_suffix(p),
{
    p.take(p.len() - 4)
}

/// The target path of an encryption: the source path with the suffix.
pub fn encrypted_name(p: &Vec<u8>) -> (r: Vec<u8>)
    ensures
        r@ == encrypted_name_model(p@),
{
    let mut out = copy_bytes(p);
    out.push(DOT);
    out.push(LOWER_E);
    out.push(LOWER_N);
    out.push(LOWER_C);
    proof {
        assert(out@ =~= encrypted_name_model(p@));
    }
    out
}

/// The target path of a decryption: the source path with the suffix
/// stripped, or nothing when the suffix is missing and the request must be
/// rejected.
pub fn decrypted_name(p: &Vec<u8>) -> (r: Option<Vec<u8>>)
    ensures
        match r {
            Some(v) => has_enc_suffix(p@) && v@ == decrypted_name_model(p@),
            None => !has_enc_suffix(p@),
        },
{
    let len = p.len();
    if len < 4 {
        proof {
            assert(!has_enc_suffix(p@));
        }
        return None;
    }
    if p[len - 4] == DOT && p[len - 3] == LOWER_E && p[len - 2] == LOWER_N && p[len - 1]
        == LOWER_C {
        let out = sub_bytes(p, 0, len - 4);
        proof {
            assert(p@.skip(p@.len() - 4) =~= enc_suffix());
            assert(out@ =~= decrypted_name_model(p@));
        }
        Some(out)
    } else {
        proof {
            if has_enc_suffix(p@) {
                assert(p@.skip(p@.len() - 4)[0] == p@[p@.len() - 4]);
                assert(p@.skip(p@.len() - 4)[1] == p@[p@.len() - 3]);
                assert(p@.skip(p@.len() - 4)[2] == p@[p@.len() - 2]);
                assert(p@.skip(p@.len() - 4)[3] == p@[p@.len() - 1]);
            }
        }
        None
    }
}

} // verus!
