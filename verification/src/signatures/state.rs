use crate::encoding::Encoding;
use crate::text::{join_lines, joined, texts};
use vstd::prelude::*;

verus! {

/// What the signature tool holds: the message, the private key, how to read
/// them, and the public keys and signatures in hex.
#[derive(Debug)]
pub struct State {
    /// The lines of the message.
    pub message: Vec<String>,
    /// The lines of the private key.
    pub private_key: Vec<String>,
    /// The encoding that the user chose; `None` to have it detected.
    pub encoding: Option<Encoding>,
    pub warning: Option<String>,
    pub ed25519_pub: String,
    pub ed25519_sig: String,
    pub ecdsa_secp256k1_pub: String,
    pub ecdsa_secp256k1_sig: String,
    pub schnorr_secp256k1: String,
}

impl State {
    /// The message as one text.
    pub open spec fn message_text(self) -> Seq<char> {
        joined(texts(self.message@))
    }

    /// The private key as one text.
    pub open spec fn key_text(self) -> Seq<char> {
        joined(texts(self.private_key@))
    }

    /// Whether the five results are blank.
    pub open spec fn cleared(self) -> bool {
        &&& self.ed25519_pub@.len() == 0
        &&& self.ed25519_sig@.len() == 0
        &&& self.ecdsa_secp256k1_pub@.len() == 0
        &&& self.ecdsa_secp256k1_sig@.len() == 0
        &&& self.schnorr_secp256k1@.len() == 0
    }

    /// The message as one text: its lines with a line feed between each two.
    pub fn text_message(&self) -> (r: String)
        ensures
            r@ == self.message_text(),
    {
        join_lines(&self.message)
    }

    /// The private key as one text: its lines with a line feed between each
    /// two.
    pub fn text_key(&self) -> (r: String)
        ensures
            r@ == self.key_text(),
    {
        join_lines(&self.private_key)
    }
}

impl Default for State {
    /// No message, no key, no encoding chosen, no warning, no result.
    fn default() -> (r: State)
        ensures
            r.message@.len() == 0,
            r.private_key@.len() == 0,
            r.encoding is None,
            r.warning is None,
            r.cleared(),
    {
        State {
            message: Vec::new(),
            private_key: Vec::new(),
            encoding: None,
            warning: None,
            ed25519_pub: String::new(),
            ed25519_sig: String::new(),
            ecdsa_secp256k1_pub: String::new(),
            ecdsa_secp256k1_sig: String::new(),
            schnorr_secp256k1: String::new(),
        }
    }
}

} // verus!
