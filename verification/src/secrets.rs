//! Password hashes, wallet key encryption and one-time codes.
use vstd::prelude::*;
use vstd::string::*;
use vstd::utf8::{decode_utf8, encode_utf8, valid_utf8};
use rand::Rng;

verus! {

/// The salt that account passwords are hashed with.
pub const PASSWORD_SALT: &'static str = "secretsalt";

/// The pass phrase that wallet keys are encrypted with.
pub const WALLET_PASS: &'static str = "walletsecretsalt";

/// What `argon2::hash_encoded` returns for a password and a salt under the default
/// configuration: the encoded hash.
pub uninterp spec fn argon2_encoded_hash(password: Seq<char>, salt: Seq<char>) -> Seq<char>;

/// What `argon2::verify_encoded` returns for an encoded hash and a password: `None` where
/// the hash text cannot be decoded, else whether the password matches.
pub uninterp spec fn argon2_verification(encoded: Seq<char>, password: Seq<char>) -> Option<bool>;

/// The start of every hash that `argon2::hash_encoded` writes under the default
/// configuration (Argon2id, version 19, 19456 KiB, two passes, one lane).
pub const ARGON2_DEFAULT_PREFIX: &'static str = "$argon2id$v=19$m=19456,t=2,p=1$";

/// The number of characters that unpadded base64 writes for `n` bytes.
pub open spec fn b64_len(n: nat) -> nat {
    (4 * n + 2) / 3
}

/// A text in the shape of a default-configuration argon2 hash: it starts with
/// [`ARGON2_DEFAULT_PREFIX`].
pub open spec fn argon2_shaped(s: Seq<char>) -> bool {
    &&& s.len() >= ARGON2_DEFAULT_PREFIX@.len()
    &&& s.subrange(0, ARGON2_DEFAULT_PREFIX@.len() as int) == ARGON2_DEFAULT_PREFIX@
}

/// Calls `argon2::hash_encoded` with the default configuration, on the UTF-8 bytes of the
/// password and the salt. The crate refuses only salts under 8 bytes and passwords over
/// `u32::MAX` bytes, which `requires` leaves out; the hash is named by [`argon2_encoded_hash`].
/// The contract also states the encoding's form: the configuration prefix, the salt in
/// unpadded base64, `$`, and the 32-byte hash in unpadded base64 (43 characters).
#[verifier::external_body]
fn argon2_hash(password: &str, salt: &str) -> (r: String)
    requires
        salt@.len() >= 8,
        encode_utf8(password@).len() <= 0xffff_ffff,
    ensures
        r@ == argon2_encoded_hash(password@, salt@),
        argon2_shaped(r@),
        r@.len() == ARGON2_DEFAULT_PREFIX@.len() + b64_len(encode_utf8(salt@).len()) + 44,
{
    argon2::hash_encoded(password.as_bytes(), salt.as_bytes(), &argon2::Config::default()).unwrap()
}

/// Calls `argon2::verify_encoded` on the UTF-8 bytes of the password; an error of the crate
/// becomes `None`. The result is named by [`argon2_verification`]; the contract also states
/// that a hash made by `argon2::hash_encoded` from a password verifies that password.
#[verifier::external_body]
fn argon2_verify(encoded: &str, password: &str) -> (r: Option<bool>)
    ensures
        r == argon2_verification(encoded@, password@),
        forall|salt: Seq<char>|
            salt.len() >= 8 && encode_utf8(password@).len() <= 0xffff_ffff && encoded@
                == #[trigger] argon2_encoded_hash(password@, salt) ==> r == Some(true),
{
    argon2::verify_encoded(encoded, password.as_bytes()).ok()
}

/// The stored hash of an account password.
pub fn hash_password(password: &String) -> (r: String)
    requires
        encode_utf8(password@).len() <= 0xffff_ffff,
    ensures
        r@ == argon2_encoded_hash(password@, PASSWORD_SALT@),
        argon2_shaped(r@),
        r@.len() == ARGON2_DEFAULT_PREFIX@.len() + b64_len(encode_utf8(PASSWORD_SALT@).len()) + 44,
        !argon2_shaped(password@) ==> r@ != password@,
{
    proof {
        reveal_strlit("secretsalt");
    }
    argon2_hash(password.as_str(), PASSWORD_SALT)
}

/// Whether `entered_password` matches the stored hash; `None` where the stored text is not a
/// hash that can be decoded.
pub fn verify_password(hashed_password: &String, entered_password: &String) -> (r: Option<bool>)
    ensures
        r == argon2_verification(hashed_password@, entered_password@),
        encode_utf8(entered_password@).len() <= 0xffff_ffff && hashed_password@ == argon2_encoded_hash(
            entered_password@,
            PASSWORD_SALT@,
        ) ==> r == Some(true),
{
    proof {
        reveal_strlit("secretsalt");
    }
    argon2_verify(hashed_password.as_str(), entered_password.as_str())
}


/// What `crypter::decrypt` returns for a pass phrase and an encrypted payload, both as bytes.
pub uninterp spec fn crypter_decryption(pass: Seq<u8>, payload: Seq<u8>) -> Option<Seq<u8>>;

/// Calls `crypter::encrypt` on the UTF-8 bytes of the pass phrase and the payload. The nonce is
/// random, so the bytes are not named; the contract states what the crate's source shows of
/// every outcome: AES-GCM-SIV refuses only payloads over 2^36 bytes, the cipher text carries
/// a 16-byte tag and the 12-byte nonce, and `crypter::decrypt` with the same pass phrase gives
/// the payload back.
#[verifier::external_body]
fn crypter_encrypt(pass: &str, payload: &str) -> (r: Option<Vec<u8>>)
    ensures
        encode_utf8(payload@).len() <= 0x10_0000_0000 ==> r is Some,
        r matches Some(v) ==> v@.len() == encode_utf8(payload@).len() + 28 && crypter_decryption(
            encode_utf8(pass@),
            v@,
        ) == Some(encode_utf8(payload@)),
{
    crypter::encrypt(pass.as_bytes(), payload.as_bytes())
}

/// Calls `crypter::decrypt` on the UTF-8 bytes of the pass phrase and the payload. The crate
/// panics on a payload shorter than its 12-byte nonce, which `requires` leaves out; the
/// result is named by [`crypter_decryption`].
#[verifier::external_body]
fn crypter_decrypt(pass: &str, payload: &str) -> (r: Option<Vec<u8>>)
    requires
        encode_utf8(payload@).len() >= 12,
    ensures
        r matches Some(v) ==> crypter_decryption(encode_utf8(pass@), encode_utf8(payload@)) == Some(v@),
        r is None ==> crypter_decryption(encode_utf8(pass@), encode_utf8(payload@)) is None,
{
    crypter::decrypt(pass.as_bytes(), payload.as_bytes())
}

/// Calls `String::from_utf8`: it succeeds exactly on valid UTF-8, and the string holds the
/// decoded characters.
#[verifier::external_body]
fn string_from_utf8(bytes: Vec<u8>) -> (r: Option<String>)
    ensures
        r is Some <==> valid_utf8(bytes@),
        r matches Some(s) ==> s@ == decode_utf8(bytes@),
{
    String::from_utf8(bytes).ok()
}

/// The wallet key that an encrypted wallet text decrypts to, if it decrypts to UTF-8 text.
pub open spec fn wallet_decryption(encrypted: Seq<char>) -> Option<Seq<char>> {
    match crypter_decryption(encode_utf8(WALLET_PASS@), encode_utf8(encrypted)) {
        Some(d) => if valid_utf8(d) {
            Some(decode_utf8(d))
        } else {
            None
        },
        None => None,
    }
}

/// The bytes are an encryption of the wallet key under the wallet pass phrase: a cipher text
/// of the key's length plus the tag and nonce, that decrypts to the key.
pub open spec fn wallet_cipher(wallet_key: Seq<char>, bytes: Seq<u8>) -> bool {
    &&& bytes.len() == encode_utf8(wallet_key).len() + 28
    &&& crypter_decryption(encode_utf8(WALLET_PASS@), bytes) == Some(encode_utf8(wallet_key))
}

/// Encrypts a wallet key for storage, keeping the cipher text as text. The text that comes
/// back is the cipher text, and decrypts to the key again. `None` comes back only where the
/// key is over 2^36 bytes, or where the cipher text (whose nonce is random) is not valid
/// UTF-8.
pub fn hash_user_wallet_key(wallet_key: &String) -> (r: Option<String>)
    ensures
        r matches Some(s) ==> wallet_cipher(wallet_key@, encode_utf8(s@)) && wallet_decryption(s@)
            == Some(wallet_key@),
        r is None ==> encode_utf8(wallet_key@).len() > 0x10_0000_0000 || exists|b: Seq<u8>|
            wallet_cipher(wallet_key@, b) && !valid_utf8(b),
{
    match crypter_encrypt(WALLET_PASS, wallet_key.as_str()) {
        None => None,
        Some(bytes) => {
            let ghost b = bytes@;
            let r = string_from_utf8(bytes);
            proof {
                if r is Some {
                    vstd::utf8::decode_utf8_encode_utf8(b);
                    vstd::utf8::encode_utf8_valid_utf8(wallet_key@);
                    vstd::utf8::encode_utf8_decode_utf8(wallet_key@);
                } else {
                    assert(wallet_cipher(wallet_key@, b) && !valid_utf8(b));
                }
            }
            r
        },
    }
}

/// Decrypts a stored wallet text back to the wallet key; `None` where it does not decrypt to
/// UTF-8 text.
pub fn decrypt_user_wallet(encrypted_wallet_key: &String) -> (r: Option<String>)
    requires
        encode_utf8(encrypted_wallet_key@).len() >= 12,
    ensures
        match r {
            Some(s) => wallet_decryption(encrypted_wallet_key@) == Some(s@),
            None => wallet_decryption(encrypted_wallet_key@) is None,
        },
{
    match crypter_decrypt(WALLET_PASS, encrypted_wallet_key.as_str()) {
        None => None,
        Some(bytes) => string_from_utf8(bytes),
    }
}

/// Calls `rand::thread_rng().gen_range(lo..=hi)`: a random number in the closed range.
#[verifier::external_body]
fn random_in_range(lo: u8, hi: u8) -> (r: u8)
    requires
        lo <= hi,
    ensures
        lo <= r <= hi,
{
    rand::thread_rng().gen_range(lo..=hi)
}

/// A character of a one-time code: a decimal digit or an uppercase ASCII letter.
pub open spec fn code_char(c: char) -> bool {
    ('0' <= c && c <= '9') || ('A' <= c && c <= 'Z')
}

/// No character occurs twice.
pub open spec fn all_distinct(s: Seq<char>) -> bool {
    forall|i: int, j: int| 0 <= i < j < s.len() ==> s[i] != s[j]
}

/// Whether `c` occurs in `v`.
fn contains_char(v: &Vec<char>, c: char) -> (r: bool)
    ensures
        r == v@.contains(c),
{
    let mut i: usize = 0;
    while i < v.len()
        invariant
            i <= v.len(),
            forall|j: int| 0 <= j < i ==> v@[j] != c,
        decreases v.len() - i,
    {
        if v[i] == c {
            return true;
        }
        i = i + 1;
    }
    false
}

/// The `k`-th code character: the ten digits, then the 26 uppercase letters.
pub open spec fn code_alphabet(k: int) -> char {
    if k < 10 {
        (48 + k) as char
    } else {
        (55 + k) as char
    }
}

/// The 36 code characters, each once.
fn all_code_chars() -> (v: Vec<char>)
    ensures
        v@.len() == 36,
        all_distinct(v@),
        forall|i: int| 0 <= i < v@.len() ==> code_char(#[trigger] v@[i]),
        forall|c: char| code_char(c) ==> v@.contains(c),
{
    let mut v: Vec<char> = Vec::new();
    let mut k: u8 = 0;
    while k < 36
        invariant
            k <= 36,
            v@.len() == k,
            forall|i: int| 0 <= i < k ==> #[trigger] v@[i] == code_alphabet(i),
        decreases 36 - k,
    {
        let c = if k < 10 { (48u8 + k) as char } else { (55u8 + k) as char };
        v.push(c);
        k = k + 1;
    }
    assert forall|i: int| 0 <= i < v@.len() implies code_char(#[trigger] v@[i]) by {
        assert(v@[i] == code_alphabet(i));
    }
    assert forall|i: int, j: int| 0 <= i < j < v@.len() implies v@[i] != v@[j] by {
        assert(v@[i] == code_alphabet(i));
        assert(v@[j] == code_alphabet(j));
    }
    assert forall|c: char| code_char(c) implies v@.contains(c) by {
        let i: int = if c <= '9' { (c as int) - 48 } else { (c as int) - 55 };
        assert(v@[i] == code_alphabet(i));
        assert(v@[i] == c);
    }
    v
}

/// The index of a character in a list that holds it.
fn index_of(v: &Vec<char>, c: char) -> (j: usize)
    requires
        v@.contains(c),
    ensures
        j < v@.len(),
        v@[j as int] == c,
{
    let mut j: usize = 0;
    while j < v.len() && v[j] != c
        invariant
            j <= v@.len(),
            v@.contains(c),
            forall|m: int| 0 <= m < j ==> v@[m] != c,
        decreases v@.len() - j,
    {
        j = j + 1;
    }
    if j == v.len() {
        assert(false) by {
            let m = choose|m: int| 0 <= m < v@.len() && v@[m] == c;
            assert(v@[m] != c);
        }
    }
    j
}

/// A one-time code of `len` distinct characters, each a digit or an uppercase letter, drawn
/// at random: each draw picks digits or letters, then one of them, and is kept when it is
/// new. After `u64::MAX` fruitless draws for one place, the first character not yet used
/// takes it, so a code always comes back.
pub fn generate_random_string(len: usize) -> (r: String)
    requires
        len <= 36,
    ensures
        r@.len() == len,
        all_distinct(r@),
        forall|i: int| 0 <= i < r@.len() ==> code_char(#[trigger] r@[i]),
{
    let mut code: Vec<char> = Vec::new();
    let mut unused = all_code_chars();
    while code.len() < len
        invariant
            len <= 36,
            code@.len() <= len,
            all_distinct(code@),
            forall|i: int| 0 <= i < code@.len() ==> code_char(#[trigger] code@[i]),
            all_distinct(unused@),
            forall|i: int|
                0 <= i < unused@.len() ==> code_char(#[trigger] unused@[i]) && !code@.contains(
                    unused@[i],
                ),
            forall|c: char| code_char(c) && !code@.contains(c) ==> unused@.contains(c),
            unused@.len() + code@.len() == 36,
        decreases len - code@.len(),
    {
        let mut pick: Option<char> = None;
        let mut attempts: u64 = 0;
        while pick.is_none() && attempts < u64::MAX
            invariant
                pick matches Some(c) ==> code_char(c) && !code@.contains(c),
            decreases u64::MAX - attempts,
        {
            attempts = attempts + 1;
            let c = if random_in_range(0, 1) == 0 {
                random_in_range(48, 57) as char
            } else {
                random_in_range(65, 90) as char
            };
            if !contains_char(&code, c) {
                pick = Some(c);
            }
        }
        let c = match pick {
            Some(c) => c,
            None => unused[0],
        };
        let ghost old_code = code@;
        let ghost old_unused = unused@;
        let j = index_of(&unused, c);
        unused.remove(j);
        code.push(c);
        assert forall|a: int, b: int| 0 <= a < b < code@.len() implies code@[a] != code@[b] by {
            if b == code@.len() - 1 {
                assert(old_code[a] == code@[a]);
            }
        }
        assert forall|i: int| 0 <= i < code@.len() implies code_char(#[trigger] code@[i]) by {
            if i < old_code.len() {
                assert(old_code[i] == code@[i]);
            }
        }
        assert forall|i: int| 0 <= i < unused@.len() implies code_char(#[trigger] unused@[i])
            && !code@.contains(unused@[i]) by {
            let k = if i < j { i } else { i + 1 };
            assert(unused@[i] == old_unused[k]);
            assert(old_unused[k] != c);
            if code@.contains(unused@[i]) {
                let m = choose|m: int| 0 <= m < code@.len() && code@[m] == unused@[i];
                if m < old_code.len() {
                    assert(old_code[m] == code@[m]);
                    assert(old_code.contains(old_unused[k]));
                }
            }
        }
        assert forall|a: int, b: int| 0 <= a < b < unused@.len() implies unused@[a] != unused@[b] by {
            let ka = if a < j { a } else { a + 1 };
            let kb = if b < j { b } else { b + 1 };
            assert(unused@[a] == old_unused[ka]);
            assert(unused@[b] == old_unused[kb]);
        }
        assert forall|d: char| code_char(d) && !code@.contains(d) implies unused@.contains(d) by {
            assert(code@[code@.len() - 1] == c);
            assert(d != c);
            assert forall|m: int| 0 <= m < old_code.len() implies old_code[m] != d by {
                assert(code@[m] == old_code[m]);
            }
            assert(old_unused.contains(d));
            let k = choose|k: int| 0 <= k < old_unused.len() && old_unused[k] == d;
            assert(k != j);
            let i = if k < j { k } else { k - 1 };
            assert(unused@[i] == d);
        }
    }
    crate::text::string_from_chars(&code)
}

} // verus!
