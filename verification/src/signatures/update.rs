use crate::codec::{hex_encode, hex_text};
use crate::encoding::{detect_encoding, detected, Encoding};
use crate::signatures::state::State;
use crate::text::texts;
use crate::signing::{
    ed25519_keypair, ed25519_public_key, ed25519_signature, ed25519_signing, ed25519_verifies,
    ed25519_verify, generate_secret_key, secp256k1_key_ok, secp256k1_public,
    secp256k1_public_key, secp256k1_sign, secp256k1_signing, secp256k1_valid_key,
    secp256k1_verifies, secp256k1_verify,
};
use vstd::prelude::*;

verus! {

/// What can happen to the signature tool.
#[derive(Debug, Clone)]
pub enum Message {
    /// The message was edited; these are its lines now.
    ContentsChanged(Vec<String>),
    /// The private key was edited; these are its lines now.
    KeyChanged(Vec<String>),
    GenerateKey,
    EncodingSet(Encoding),
    CopyHash(String),
}

/// What the caller is to do after an update.
#[derive(Debug, Clone)]
pub enum Command {
    Nothing,
    /// Put the text on the clipboard.
    WriteClipboard(String),
}

/// What a signing function answers: the public key and the signature, or
/// the warning to show.
pub type Signed = Result<(Seq<u8>, Seq<u8>), Seq<char>>;

/// What `sign_with_edd25519` answers.
pub open spec fn ed25519_signed(private_key: Seq<u8>, message: Seq<u8>) -> Signed {
    if private_key.len() != 32 {
        Err("Invalid private key length.."@)
    } else {
        let public_key = ed25519_public_key(private_key);
        let signature = ed25519_signing(message, private_key + public_key);
        if ed25519_verifies(message, public_key, signature) {
            Ok((public_key, signature))
        } else {
            Err("Something went horribly wrong. Sig did not verify with same message."@)
        }
    }
}

/// What `sign_with_ecdsa_secp256k1` answers.
pub open spec fn ecdsa_signed(private_key: Seq<u8>, message: Seq<u8>) -> Signed {
    if private_key.len() != 32 {
        Err("Invalid private key length.."@)
    } else if !secp256k1_valid_key(private_key) {
        Err("Invalid secp256k1 private key.."@)
    } else if message.len() != 32 {
        Err("Invalid secp256k1 message length.."@)
    } else {
        let public_key = secp256k1_public_key(private_key);
        let signature = secp256k1_signing(private_key, message);
        if secp256k1_verifies(message, signature, public_key) {
            Ok((public_key, signature))
        } else {
            Err("Something went horribly wrong. Sig did not verify with same message."@)
        }
    }
}

/// The bytes that `text` stands for under `chosen`, or under the encoding
/// that the text looks like where none is chosen.
pub open spec fn reading(chosen: Option<Encoding>, text: Seq<char>) -> Result<
    Seq<u8>,
    Seq<char>,
> {
    match chosen {
        Some(e) => e.decoding(text),
        None => detected(text).decoding(text),
    }
}

/// Whether the warning of `state` is set and reads `text`.
pub open spec fn warns(state: State, text: Seq<char>) -> bool {
    state.warning is Some && state.warning->Some_0@ == text
}

/// The 32 bytes as an array; `None` for any other number of bytes.
pub fn array_32(bytes: &Vec<u8>) -> (r: Option<[u8; 32]>)
    ensures
        r is Some <==> bytes@.len() == 32,
        r is Some ==> r->Some_0@ == bytes@,
{
    if bytes.len() != 32 {
        return None;
    }
    let mut out = [0u8; 32];
    let mut i: usize = 0;
    while i < 32
        invariant
            i <= 32,
            bytes@.len() == 32,
            forall|j: int| 0 <= j < i ==> out@[j] == bytes@[j],
        decreases 32 - i,
    {
        out[i] = bytes[i];
        i += 1;
    }
    assert(out@ =~= bytes@);
    Some(out)
}

/// Signs `message` with Ed25519 under the 32-byte `private_key`, and checks
/// the signature before it hands it out with the public key.
pub fn sign_with_edd25519(private_key: Vec<u8>, message: Vec<u8>) -> (r: Result<
    ([u8; 32], [u8; 64]),
    String,
>)
    ensures
        match r {
            Ok((public_key, signature)) => ed25519_signed(private_key@, message@) == Ok::<
                (Seq<u8>, Seq<u8>),
                Seq<char>,
            >((public_key@, signature@)),
            Err(warning) => ed25519_signed(private_key@, message@) == Err::<
                (Seq<u8>, Seq<u8>),
                Seq<char>,
            >(warning@),
        },
{
    let seed = match array_32(&private_key) {
        Some(seed) => seed,
        None => {
            return Err(String::from_str("Invalid private key length.."));
        },
    };
    let (keypair, public_key) = ed25519_keypair(&seed);
    let signature = ed25519_signature(message.as_slice(), &keypair);
    let valid = ed25519_verify(message.as_slice(), &public_key, &signature);
    if valid {
        Ok((public_key, signature))
    } else {
        Err(
            String::from_str(
                "Something went horribly wrong. Sig did not verify with same message.",
            ),
        )
    }
}

/// Signs the 32-byte digest `message` with ECDSA over secp256k1 under the
/// 32-byte `private_key`, and checks the signature before it hands it out
/// with the public key.
pub fn sign_with_ecdsa_secp256k1(private_key: Vec<u8>, message: Vec<u8>) -> (r: Result<
    ([u8; 33], [u8; 64]),
    String,
>)
    ensures
        match r {
            Ok((public_key, signature)) => ecdsa_signed(private_key@, message@) == Ok::<
                (Seq<u8>, Seq<u8>),
                Seq<char>,
            >((public_key@, signature@)),
            Err(warning) => ecdsa_signed(private_key@, message@) == Err::<
                (Seq<u8>, Seq<u8>),
                Seq<char>,
            >(warning@),
        },
{
    let key = match array_32(&private_key) {
        Some(key) => key,
        None => {
            return Err(String::from_str("Invalid private key length.."));
        },
    };
    if !secp256k1_key_ok(&key) {
        return Err(String::from_str("Invalid secp256k1 private key.."));
    }
    let public_key = secp256k1_public(&key);
    let digest = match array_32(&message) {
        Some(digest) => digest,
        None => {
            return Err(String::from_str("Invalid secp256k1 message length.."));
        },
    };
    let signature = secp256k1_sign(&key, &digest);
    if secp256k1_verify(&digest, &signature, &public_key) {
        Ok((public_key, signature))
    } else {
        Err(
            String::from_str(
                "Something went horribly wrong. Sig did not verify with same message.",
            ),
        )
    }
}

impl State {
    /// Whether `after` is what `update_signatures` makes of `self`.
    pub open spec fn signed_to(self, after: State) -> bool {
        &&& after.message == self.message
        &&& after.private_key == self.private_key
        &&& after.encoding == self.encoding
        &&& if self.message_text().len() == 0 || self.key_text().len() == 0 {
            after.cleared() && warns(after, "Empty String"@)
        } else {
            match reading(self.encoding, self.message_text()) {
                Err(warning) => after.cleared() && warns(after, warning),
                Ok(message) => match reading(self.encoding, self.key_text()) {
                    Err(warning) => after.cleared() && warns(after, warning),
                    Ok(key) => self.signed_with(key, message, after),
                },
            }
        }
    }

    /// Whether the results in `after` are what signing `message` with `key`
    /// makes of those in `self`. Where Ed25519 fails, its two results are
    /// blank and those of ECDSA stay; where ECDSA fails, its two results are
    /// blank.
    pub open spec fn signed_with(self, key: Seq<u8>, message: Seq<u8>, after: State) -> bool {
        &&& after.schnorr_secp256k1 == self.schnorr_secp256k1
        &&& match ed25519_signed(key, message) {
            Err(warning) => {
                &&& warns(after, warning)
                &&& after.ed25519_pub@.len() == 0
                &&& after.ed25519_sig@.len() == 0
                &&& after.ecdsa_secp256k1_pub == self.ecdsa_secp256k1_pub
                &&& after.ecdsa_secp256k1_sig == self.ecdsa_secp256k1_sig
            },
            Ok((public_key, signature)) => {
                &&& after.ed25519_pub@ == hex_text(public_key)
                &&& after.ed25519_sig@ == hex_text(signature)
                &&& match ecdsa_signed(key, message) {
                    Err(warning) => {
                        &&& warns(after, warning)
                        &&& after.ecdsa_secp256k1_pub@.len() == 0
                        &&& after.ecdsa_secp256k1_sig@.len() == 0
                    },
                    Ok((public_key, signature)) => {
                        &&& after.warning == self.warning
                        &&& after.ecdsa_secp256k1_pub@ == hex_text(public_key)
                        &&& after.ecdsa_secp256k1_sig@ == hex_text(signature)
                    },
                }
            },
        }
    }

    /// Whether `after` is what taking `key` as the private key makes of
    /// `self`: the key stands in hex on one line, the warning is dropped and
    /// the signatures are computed anew.
    pub open spec fn keyed_to(self, key: Seq<u8>, after: State) -> bool {
        &&& texts(after.private_key@) == seq![hex_text(key)]
        &&& (State { private_key: after.private_key, warning: None, ..self }).signed_to(after)
    }

    /// Takes in what happened and says what the caller is to do.
    ///
    /// An edit, a new key or a choice of encoding drops the warning and
    /// signs anew. A request to copy changes nothing.
    pub fn update(&mut self, message: Message) -> (r: Command)
        ensures
            updated(*old(self), message, *final(self), r),
    {
        match message {
            Message::ContentsChanged(lines) => {
                self.warning = None;
                self.message = lines;
                self.update_signatures();
                Command::Nothing
            },
            Message::KeyChanged(lines) => {
                self.warning = None;
                self.private_key = lines;
                self.update_signatures();
                Command::Nothing
            },
            Message::EncodingSet(encoding) => {
                self.warning = None;
                self.encoding = Some(encoding);
                self.update_signatures();
                Command::Nothing
            },
            Message::CopyHash(text) => Command::WriteClipboard(text),
            Message::GenerateKey => {
                let key = generate_secret_key();
                self.use_key(&key);
                Command::Nothing
            },
        }
    }

    /// Takes `key` as the private key: writes it in hex on one line, drops
    /// the warning and signs anew.
    pub fn use_key(&mut self, key: &[u8; 32])
        ensures
            old(self).keyed_to(key@, *final(self)),
    {
        let line = hex_encode(key.as_slice());
        self.warning = None;
        self.private_key = vec![line];
        assert(texts(self.private_key@) =~= seq![hex_text(key@)]);
        self.update_signatures();
    }

    /// Signs the message with the private key under both schemes.
    ///
    /// An empty message or key, or one that its encoding cannot read, blanks
    /// the results and sets the warning. Else the public keys and the
    /// signatures are written in lower-case hex; a scheme that refuses the
    /// key or the message sets the warning and blanks its own two results.
    pub fn update_signatures(&mut self)
        ensures
            old(self).signed_to(*final(self)),
    {
        let message = self.text_message();
        let private_key = self.text_key();
        if message.as_str().is_empty() || private_key.as_str().is_empty() {
            self.clear_signatures();
            self.warning = Some(String::from_str("Empty String"));
            return ;
        }
        let encoding = match self.encoding {
            Some(e) => e,
            None => detect_encoding(message.as_str()),
        };
        let message = match encoding.decode(message.as_str()) {
            Ok(raw) => raw,
            Err(warning) => {
                self.warning = Some(warning);
                self.clear_signatures();
                return ;
            },
        };
        let encoding = match self.encoding {
            Some(e) => e,
            None => detect_encoding(private_key.as_str()),
        };
        let private_key = match encoding.decode(private_key.as_str()) {
            Ok(raw) => raw,
            Err(warning) => {
                self.warning = Some(warning);
                self.clear_signatures();
                return ;
            },
        };
        match sign_with_edd25519(private_key.clone(), message.clone()) {
            Ok((public_key, signature)) => {
                self.ed25519_pub = hex_encode(public_key.as_slice());
                self.ed25519_sig = hex_encode(signature.as_slice());
            },
            Err(warning) => {
                self.warning = Some(warning);
                self.ed25519_pub = String::new();
                self.ed25519_sig = String::new();
                return ;
            },
        }
        match sign_with_ecdsa_secp256k1(private_key, message) {
            Ok((public_key, signature)) => {
                self.ecdsa_secp256k1_pub = hex_encode(public_key.as_slice());
                self.ecdsa_secp256k1_sig = hex_encode(signature.as_slice());
            },
            Err(warning) => {
                self.warning = Some(warning);
                self.ecdsa_secp256k1_pub = String::new();
                self.ecdsa_secp256k1_sig = String::new();
            },
        }
    }

    /// Blanks the five results.
    pub fn clear_signatures(&mut self)
        ensures
            final(self).cleared(),
            final(self).message == old(self).message,
            final(self).private_key == old(self).private_key,
            final(self).encoding == old(self).encoding,
            final(self).warning == old(self).warning,
    {
        self.ed25519_pub = String::new();
        self.ed25519_sig = String::new();
        self.ecdsa_secp256k1_pub = String::new();
        self.ecdsa_secp256k1_sig = String::new();
        self.schnorr_secp256k1 = String::new();
    }
}

/// Whether `after` and `command` are what `State::update` makes of `before`
/// on `message`. Of a generated key no more is known than that it is a
/// secret key of the curve.
pub open spec fn updated(before: State, message: Message, after: State, command: Command) -> bool {
    match message {
        Message::ContentsChanged(lines) => {
            &&& command is Nothing
            &&& (State { message: lines, warning: None, ..before }).signed_to(after)
        },
        Message::KeyChanged(lines) => {
            &&& command is Nothing
            &&& (State { private_key: lines, warning: None, ..before }).signed_to(after)
        },
        Message::EncodingSet(encoding) => {
            &&& command is Nothing
            &&& (State { encoding: Some(encoding), warning: None, ..before }).signed_to(after)
        },
        Message::GenerateKey => {
            &&& command is Nothing
            &&& exists|key: Seq<u8>|
                key.len() == 32 && secp256k1_valid_key(key) && #[trigger] before.keyed_to(
                    key,
                    after,
                )
        },
        Message::CopyHash(text) => {
            &&& command == Command::WriteClipboard(text)
            &&& after == before
        },
    }
}

} // verus!
