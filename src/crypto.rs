//! Passphrase hashing, per-record encryption, and password generation.
use magic_crypt::{MagicCrypt256, MagicCryptError, MagicCryptTrait};
use rand::Rng;
use vstd::prelude::*;

verus! {

#[verifier::external_type_specification]
#[verifier::external_body]
pub struct ExMagicCryptError(MagicCryptError);

/// The base64 text that AES-256-CBC gives for `data`, keyed by `key`.
pub uninterp spec fn aes256_encrypted(key: Seq<char>, data: Seq<char>) -> Seq<char>;

/// The plaintext that AES-256-CBC recovers from the base64 text `data` keyed by
/// `key`, or `None` where the text is not base64, its padding is wrong, or the
/// bytes are not UTF-8.
pub uninterp spec fn aes256_decrypted(key: Seq<char>, data: Seq<char>) -> Option<Seq<char>>;

/// The lower-case hexadecimal SHA-512 digest of the UTF-8 bytes of `s`.
pub uninterp spec fn sha512_hex(s: Seq<char>) -> Seq<char>;

/// Relies on magic_crypt's `MagicCrypt256::new` (key = SHA-256 of the passphrase,
/// zero IV) and `encrypt_str_to_base64`: a deterministic function of both inputs.
#[verifier::external_body]
fn aes256_encrypt(key: &str, data: &str) -> (r: String)
    ensures
        r@ == aes256_encrypted(key@, data@),
{
    MagicCrypt256::new(key, None::<&str>).encrypt_str_to_base64(data)
}

/// Relies on magic_crypt's `MagicCrypt256::new` and `decrypt_base64_to_string`:
/// the result depends on both inputs alone, and under the same key it inverts
/// `encrypt_str_to_base64` (CBC with PKCS#7 padding over the UTF-8 bytes).
#[verifier::external_body]
fn aes256_decrypt(key: &str, data: &str) -> (r: Result<String, MagicCryptError>)
    ensures
        match r {
            Ok(s) => aes256_decrypted(key@, data@) == Some(s@),
            Err(_) => aes256_decrypted(key@, data@) is None,
        },
        forall|x: Seq<char>|
            #[trigger] aes256_encrypted(key@, x) == data@ ==> (r is Ok && r->Ok_0@ == x),
{
    MagicCrypt256::new(key, None::<&str>).decrypt_base64_to_string(data)
}

/// Relies on hashy's `sha512`: the lower-case hex SHA-512 digest of the string.
#[verifier::external_body]
fn sha512(s: &str) -> (r: String)
    ensures
        r@ == sha512_hex(s@),
{
    hashy::sha512(s.to_string())
}

/// Relies on rand's `thread_rng` and `Rng::gen_range`: a value drawn from a
/// cryptographically secure generator, uniformly in `0..n` (which panics when
/// the range is empty).
#[verifier::external_body]
fn random_below(n: usize) -> (r: usize)
    requires
        n > 0,
    ensures
        r < n,
{
    rand::thread_rng().gen_range(0..n)
}

/// Why a stored secret could not be recovered.
#[derive(Debug)]
pub struct DecryptionError {
    pub cause: MagicCryptError,
}

/// Encrypts `data` under a key derived from `password`; the result is base64.
pub fn encrypt(password: String, data: String) -> (r: String)
    ensures
        r@ == aes256_encrypted(password@, data@),
{
    aes256_encrypt(password.as_str(), data.as_str())
}

/// Recovers the plaintext of `encrypted_data` under `password`.
///
/// Whatever `encrypt(password, x)` returned decrypts to `x`. The cipher is not
/// authenticated: a wrong passphrase is usually caught by the padding check, but
/// may also yield a different string.
pub fn decrypt(password: String, encrypted_data: String) -> (r: Result<String, DecryptionError>)
    ensures
        match r {
            Ok(s) => aes256_decrypted(password@, encrypted_data@) == Some(s@),
            Err(_) => aes256_decrypted(password@, encrypted_data@) is None,
        },
        forall|x: Seq<char>|
            #[trigger] aes256_encrypted(password@, x) == encrypted_data@ ==> (r is Ok
                && r->Ok_0@ == x),
{
    match aes256_decrypt(password.as_str(), encrypted_data.as_str()) {
        Ok(s) => Ok(s),
        Err(e) => Err(DecryptionError { cause: e }),
    }
}

/// The characters a generated password is drawn from: lower- and upper-case
/// letters, digits, and 28 symbols.
pub const PASSWORD_CHARSET: &'static str =
    "abcdefghijklmnopqrstuvwxyzABCDEFGHIJKLMNOPQRSTUVWXYZ0123456789!@#$%^&*()_+~|}{[]:;?><,./-=";

/// The number of characters in a generated password.
pub const PASSWORD_LENGTH: usize = 16;

/// The alphabet of generated passwords, as a sequence.
pub open spec fn password_alphabet() -> Seq<char> {
    PASSWORD_CHARSET@
}

/// A password of the generator's shape: of its length and over its alphabet.
pub open spec fn is_generated_password(p: Seq<char>) -> bool {
    &&& p.len() == PASSWORD_LENGTH
    &&& forall|i: int| 0 <= i < p.len() ==> password_alphabet().contains(#[trigger] p[i])
}

/// The alphabet holds 90 characters, no two alike.
pub proof fn lemma_password_alphabet_size()
    ensures
        password_alphabet().len() == 90,
        password_alphabet().no_duplicates(),
{
    reveal_strlit(
        "abcdefghijklmnopqrstuvwxyzABCDEFGHIJKLMNOPQRSTUVWXYZ0123456789!@#$%^&*()_+~|}{[]:;?><,./-=",
    );
}

/// The password whose character at each position is the alphabet character at
/// the index drawn for that position.
pub fn password_from_draws(draws: &Vec<usize>) -> (r: String)
    requires
        forall|i: int| 0 <= i < draws@.len() ==> #[trigger] draws@[i] < password_alphabet().len(),
    ensures
        r@.len() == draws@.len(),
        forall|i: int| 0 <= i < r@.len() ==> r@[i] == password_alphabet()[#[trigger] draws@[i] as int],
{
    let n: usize = PASSWORD_CHARSET.unicode_len();
    let mut pass = String::new();
    let mut k: usize = 0;
    while k < draws.len()
        invariant
            n == password_alphabet().len(),
            forall|i: int| 0 <= i < draws@.len() ==> #[trigger] draws@[i] < password_alphabet().len(),
            k <= draws@.len(),
            pass@.len() == k,
            forall|i: int| 0 <= i < k ==> pass@[i] == password_alphabet()[#[trigger] draws@[i] as int],
        decreases draws@.len() - k,
    {
        let j = draws[k];
        let piece = PASSWORD_CHARSET.substring_char(j, j + 1);
        let ghost before = pass@;
        pass.append(piece);
        proof {
            assert(pass@ =~= before.push(password_alphabet()[j as int]));
            assert forall|i: int| 0 <= i < k + 1 implies pass@[i] == password_alphabet()[
                #[trigger] draws@[i] as int
            ] by {
                if i < k {
                    assert(pass@[i] == before[i]);
                }
            }
        }
        k = k + 1;
    }
    pass
}

/// Draws a random password of `PASSWORD_LENGTH` characters, each uniformly from
/// `PASSWORD_CHARSET`.
pub fn genpass() -> (r: String)
    ensures
        is_generated_password(r@),
{
    proof {
        lemma_password_alphabet_size();
    }
    let n: usize = PASSWORD_CHARSET.unicode_len();
    let mut draws: Vec<usize> = Vec::new();
    while draws.len() < PASSWORD_LENGTH
        invariant
            n == password_alphabet().len(),
            n > 0,
            draws@.len() <= PASSWORD_LENGTH,
            forall|i: int| 0 <= i < draws@.len() ==> #[trigger] draws@[i] < password_alphabet().len(),
        decreases PASSWORD_LENGTH - draws@.len(),
    {
        draws.push(random_below(n));
    }
    let pass = password_from_draws(&draws);
    proof {
        assert forall|i: int| 0 <= i < pass@.len() implies password_alphabet().contains(
            #[trigger] pass@[i],
        ) by {
            assert(pass@[i] == password_alphabet()[draws@[i] as int]);
        }
    }
    pass
}

/// The verification hash of a passphrase: the only passphrase material stored.
pub fn hash_passphrase(passphrase: &str) -> (r: String)
    ensures
        r@ == sha512_hex(passphrase@),
{
    sha512(passphrase)
}

/// Whether `candidate` hashes to the stored verification hash.
pub open spec fn passphrase_matches(candidate: Seq<char>, stored_hash: Seq<char>) -> bool {
    sha512_hex(candidate) == stored_hash
}

/// Checks `candidate` against the stored verification hash.
pub fn verify_passphrase(candidate: &str, stored_hash: &str) -> (r: bool)
    ensures
        r == passphrase_matches(candidate@, stored_hash@),
{
    let h = sha512(candidate);
    let stored = stored_hash.to_owned();
    h == stored
}

} // verus!
