//! WireGuard keys and their text form.

use vstd::prelude::*;

verus! {

/// Number of bytes in a key.
pub const KEY_LEN: usize = 32;

/// The text handed to [`Key::from_base64`] does not stand for a key.
#[derive(Eq, PartialEq, Debug, Clone)]
pub struct InvalidKey;

/// A public or private key: 32 bytes.
#[derive(Eq, PartialEq, Clone)]
pub struct Key(pub [u8; KEY_LEN]);

/// The base64 text (standard alphabet, padded) that `base64::encode` gives
/// for `bytes`.
pub uninterp spec fn base64_text(bytes: Seq<u8>) -> Seq<char>;

/// The bytes that `base64::decode` reads out of `text`, or `None` where it
/// rejects the text.
pub uninterp spec fn base64_bytes(text: Seq<char>) -> Option<Seq<u8>>;

/// Calls `base64::encode`: the result is the crate's encoding of `bytes`,
/// whatever it is; nothing is claimed of its length or alphabet.
#[verifier::external_body]
fn encode_base64(bytes: &[u8; KEY_LEN]) -> (text: String)
    ensures
        text@ == base64_text(bytes@),
{
    base64::encode(bytes)
}

/// Calls `base64::decode`: the outcome depends on `text` alone. A rejected
/// text comes back as `None`; the crate's reason is dropped.
#[verifier::external_body]
fn decode_base64(text: &str) -> (bytes: Option<Vec<u8>>)
    ensures
        match bytes {
            Some(b) => base64_bytes(text@) == Some(b@),
            None => base64_bytes(text@) is None,
        },
{
    base64::decode(text).ok()
}

impl InvalidKey {
    /// What to tell the user.
    pub fn message(&self) -> (text: String)
        ensures
            text@ == "Invalid key format"@,
    {
        "Invalid key format".to_owned()
    }
}

impl Key {
    /// The key's bytes.
    pub open spec fn view(&self) -> Seq<u8> {
        self.0@
    }

    /// Does `text` stand for a key: is it base64 for exactly 32 bytes?
    pub open spec fn is_key_text(text: Seq<char>) -> bool {
        base64_bytes(text) matches Some(bytes) && bytes.len() == KEY_LEN
    }

    /// The key in base64.
    pub fn to_base64(&self) -> (text: String)
        ensures
            text@ == base64_text(self@),
    {
        encode_base64(&self.0)
    }

    /// Reads a key from base64. Text that is no base64, or that stands for
    /// more or fewer than 32 bytes, is refused.
    pub fn from_base64(key: &str) -> (r: Result<Key, InvalidKey>)
        ensures
            r is Ok <==> Key::is_key_text(key@),
            r matches Ok(k) ==> base64_bytes(key@) == Some(k@),
    {
        let decoded_bytes = match decode_base64(key) {
            Some(bytes) => bytes,
            None => {
                return Err(InvalidKey);
            },
        };
        if decoded_bytes.len() != KEY_LEN {
            return Err(InvalidKey);
        }
        let mut key_bytes = [0u8; KEY_LEN];
        let mut i: usize = 0;
        while i < KEY_LEN
            invariant
                i <= KEY_LEN,
                decoded_bytes@.len() == KEY_LEN,
                forall|j: int| 0 <= j < i ==> key_bytes@[j] == decoded_bytes@[j],
            decreases KEY_LEN - i,
        {
            key_bytes[i] = decoded_bytes[i];
            i += 1;
        }
        assert(key_bytes@ =~= decoded_bytes@);
        Ok(Key(key_bytes))
    }
}

} // verus!
