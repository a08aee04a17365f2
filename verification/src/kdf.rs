use vstd::prelude::*;
use argon2::password_hash::rand_core::OsRng;
use argon2::password_hash::{PasswordHash, PasswordHasher, PasswordVerifier, SaltString};
use argon2::{Algorithm, Argon2, Params, Version};
use crate::text::all_visible_ascii;
use vstd::utf8::encode_utf8;

verus! {

/// The cost parameters of Argon2d (version 0x13) as the vault uses it.
pub struct KdfParams {
    /// Memory cost in KiB.
    pub m_cost: u32,
    /// Number of passes.
    pub t_cost: u32,
    /// Degree of parallelism.
    pub p_cost: u32,
}

impl KdfParams {
    /// Parameters that `argon2::Params::new` accepts (with the default output
    /// length). Argon2 allocates `m_cost` KiB; a cost the machine cannot
    /// allocate aborts the program.
    pub open spec fn valid(&self) -> bool {
        &&& 1 <= self.p_cost <= 0xff_ffff
        &&& self.m_cost >= 8 * self.p_cost
        &&& self.t_cost >= 1
    }

    /// The parameters every vault is created and opened with.
    pub open spec fn vault_spec() -> KdfParams {
        KdfParams { m_cost: 16000, t_cost: 160, p_cost: 1 }
    }

    /// The parameters every vault is created and opened with: 16000 KiB,
    /// 160 passes, one lane.
    pub fn vault() -> (res: KdfParams)
        ensures
            res == Self::vault_spec(),
            res.valid(),
    {
        KdfParams { m_cost: 16000, t_cost: 160, p_cost: 1 }
    }
}

/// A character of the B64 alphabet of the PHC string format.
pub open spec fn is_b64_char(c: char) -> bool {
    ||| 'A' <= c <= 'Z'
    ||| 'a' <= c <= 'z'
    ||| '0' <= c <= '9'
    ||| c == '+'
    ||| c == '/'
}

/// The B64 character (standard alphabet) of a sextet `0..64`.
pub open spec fn b64_char(n: int) -> char {
    if n < 26 {
        (n + 65) as char
    } else if n < 52 {
        (n - 26 + 97) as char
    } else if n < 62 {
        (n - 52 + 48) as char
    } else if n == 62 {
        '+'
    } else {
        '/'
    }
}

/// Bit `k` (most significant first) of a byte sequence; zero past its end.
pub open spec fn b64_bit(bytes: Seq<u8>, k: int) -> int {
    if 0 <= k < 8 * bytes.len() {
        ((bytes[k / 8] >> ((7 - k % 8) as u8)) & 1u8) as int
    } else {
        0
    }
}

/// Sextet `i` of the bits of a byte sequence.
pub open spec fn b64_sextet(bytes: Seq<u8>, i: int) -> int {
    32 * b64_bit(bytes, 6 * i) + 16 * b64_bit(bytes, 6 * i + 1) + 8 * b64_bit(bytes, 6 * i + 2)
        + 4 * b64_bit(bytes, 6 * i + 3) + 2 * b64_bit(bytes, 6 * i + 4) + b64_bit(bytes, 6 * i + 5)
}

/// The unpadded B64 text of a byte sequence (standard alphabet, the last
/// sextet filled with zero bits).
pub open spec fn b64_unpadded(bytes: Seq<u8>) -> Seq<char> {
    Seq::new(((8 * bytes.len() + 5) / 6) as nat, |i: int| b64_char(b64_sextet(bytes, i)))
}

/// `salt` is the B64 text of 16 bytes, as `SaltString::generate` makes it.
pub open spec fn is_generated_salt(salt: Seq<char>) -> bool {
    exists|bytes: Seq<u8>| bytes.len() == 16 && salt == #[trigger] b64_unpadded(bytes)
}

/// The PHC string (`$argon2d$v=19$m=..,t=..,p=..$salt$hash`) that Argon2d
/// makes of `password` with the B64 salt string `salt`.
pub uninterp spec fn argon2d_phc(password: Seq<u8>, salt: Seq<char>, m_cost: u32, t_cost: u32, p_cost: u32) -> Seq<char>;

/// The 32-byte raw Argon2d output for `password` and the salt bytes `salt`.
pub uninterp spec fn argon2d_key(password: Seq<u8>, salt: Seq<u8>, m_cost: u32, t_cost: u32, p_cost: u32) -> Seq<u8>;

/// How `PasswordHash::new` reads `phc`: `None` when it is no PHC string, else
/// the salt field it holds, if any.
pub uninterp spec fn phc_salt(phc: Seq<char>) -> Option<Option<Seq<char>>>;

/// Whether Argon2 verification of `password` against the PHC string `phc`
/// succeeds (false when `phc` is no PHC string).
pub uninterp spec fn phc_verifies(phc: Seq<char>, password: Seq<u8>) -> bool;

/// `SaltString::generate` with the operating system's random source: the
/// unpadded B64 text (`SaltString::encode_b64`) of 16 random bytes, which is
/// 22 characters of the B64 alphabet (the crate documents 16 bytes as 22
/// characters). Which bytes is not claimed.
#[verifier::external_body]
pub(crate) fn random_salt() -> (res: String)
    ensures
        is_generated_salt(res@),
        res@.len() == 22,
        forall|i: int| 0 <= i < res@.len() ==> is_b64_char(#[trigger] res@[i]),
{
    SaltString::generate(&mut OsRng).as_str().to_string()
}

/// `PasswordHasher::hash_password` of Argon2d v0x13 with `params`, written out
/// with `to_string`; the salt text is read with `SaltString::from_b64`.
/// Claims, when it succeeds: the result is the named PHC string; reading it
/// back gives `salt` as its salt field and it verifies `password` (the same
/// salt, algorithm and parameters give the same output); its characters are
/// visible ASCII, as the PHC format has no white space. It succeeds only for
/// a password of at most `u32::MAX` bytes (the check of `verify_inputs`), and
/// does for such a password with the B64 text of 16 bytes as salt (which
/// `SaltString::from_b64` and `Salt::decode_b64` accept; the 16 bytes pass the
/// salt-length checks). For other salts when it fails is not stated.
#[verifier::external_body]
pub(crate) fn hash_phc(password: &[u8], salt: &str, params: &KdfParams) -> (res: Option<String>)
    requires
        params.valid(),
    ensures
        res is Some ==> password@.len() <= 0xffff_ffff,
        (is_generated_salt(salt@) && password@.len() <= 0xffff_ffff) ==> res is Some,
        res matches Some(h) ==> h@ == argon2d_phc(password@, salt@, params.m_cost, params.t_cost, params.p_cost),
        res matches Some(h) ==> phc_salt(h@) == Some(Some(salt@)),
        res matches Some(h) ==> phc_verifies(h@, password@),
        res matches Some(h) ==> all_visible_ascii(h@),
{
    let salt = SaltString::from_b64(salt).ok()?;
    let params = Params::new(params.m_cost, params.t_cost, params.p_cost, None).ok()?;
    let argon2 = Argon2::new(Algorithm::Argon2d, Version::V0x13, params);
    match argon2.hash_password(password, &salt) {
        Ok(hash) => Some(hash.to_string()),
        Err(_) => None,
    }
}

/// `Argon2::hash_password_into` of Argon2d v0x13 with `params` into 32 bytes.
/// Claims: it succeeds exactly when the password is at most `u32::MAX` bytes
/// and the salt between 8 and `u32::MAX` bytes (the checks of
/// `verify_inputs`; the output length and valid parameters pass the others),
/// and then gives the named key.
#[verifier::external_body]
pub(crate) fn derive_key(password: &[u8], salt: &[u8], params: &KdfParams) -> (res: Option<[u8; 32]>)
    requires
        params.valid(),
    ensures
        res is Some <==> (password@.len() <= 0xffff_ffff && 8 <= salt@.len() <= 0xffff_ffff),
        res matches Some(k) ==> k@ == argon2d_key(password@, salt@, params.m_cost, params.t_cost, params.p_cost),
{
    let params = Params::new(params.m_cost, params.t_cost, params.p_cost, None).ok()?;
    let argon2 = Argon2::new(Algorithm::Argon2d, Version::V0x13, params);
    let mut key = [0u8; 32];
    match argon2.hash_password_into(password, salt, &mut key) {
        Ok(()) => Some(key),
        Err(_) => None,
    }
}

/// `PasswordHash::new`, keeping the salt field. Claims: the result is the
/// named reading of `phc`.
#[verifier::external_body]
pub(crate) fn read_phc_salt(phc: &str) -> (res: Option<Option<String>>)
    ensures
        match res {
            None => phc_salt(phc@) is None,
            Some(None) => phc_salt(phc@) == Some(None::<Seq<char>>),
            Some(Some(s)) => phc_salt(phc@) == Some(Some(s@)),
        },
{
    match PasswordHash::new(phc) {
        Ok(hash) => Some(hash.salt.map(|salt| salt.as_str().to_string())),
        Err(_) => None,
    }
}

/// `PasswordVerifier::verify_password` of Argon2 on `phc` as read by
/// `PasswordHash::new`. Verification recomputes the hash with the algorithm,
/// version, parameters and salt written in `phc`, so the hasher's own
/// parameters play no part. Claims: the result is the named verdict; and a
/// password that verifies passed the input checks of that recomputation: it
/// is at most `u32::MAX` bytes, and `phc` holds a salt field (of at most 64
/// characters, as `Salt::from_b64` takes it) whose B64 decoding, no longer
/// than the text, is at least 8 bytes.
#[verifier::external_body]
pub(crate) fn verify_phc(password: &[u8], phc: &str) -> (res: bool)
    ensures
        res == phc_verifies(phc@, password@),
        res ==> password@.len() <= 0xffff_ffff,
        res ==> (phc_salt(phc@) matches Some(Some(s)) && 8 <= encode_utf8(s).len() <= 64),
{
    match PasswordHash::new(phc) {
        Ok(hash) => Argon2::default().verify_password(password, &hash).is_ok(),
        Err(_) => false,
    }
}

} // verus!
