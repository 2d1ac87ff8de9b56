//! The hub's key material: one Ed25519 key pair, made from a seed of
//! thirty-two bytes, and the public key written out once in the two forms in
//! which clients ask for it.

use vstd::prelude::*;
use vstd::string::*;
use crate::error::Error;
use crate::hexadecimal::{hex_encode, lower_hex};

verus! {

/// The Ed25519 public key that belongs to a seed.
pub uninterp spec fn ed25519_public(seed: Seq<u8>) -> Seq<u8>;

/// The PEM text of the PKCS#8 private key made from a seed.
pub uninterp spec fn secret_key_pem(seed: Seq<u8>) -> Seq<char>;

/// The PEM text of the SubjectPublicKeyInfo that holds a public key.
pub uninterp spec fn public_key_pem(public: Seq<u8>) -> Seq<char>;

/// Every byte is zero.
pub open spec fn all_zero(bytes: Seq<u8>) -> bool {
    forall|i: int| 0 <= i < bytes.len() ==> bytes[i] == 0
}

/// Computes the public key of a seed.
///
/// Trusted: `ed25519_compact::KeyPair::try_from_seed`, which refuses the seed
/// that is all zeros and no other, and whose result depends on the seed alone.
#[verifier::external_body]
fn derive_public(seed: &[u8; 32]) -> (res: Option<[u8; 32]>)
    ensures
        res is Some <==> !all_zero(seed@),
        res matches Some(public) ==> public@ == ed25519_public(seed@),
{
    Some(*ed25519_compact::KeyPair::try_from_seed(ed25519_compact::Seed::new(*seed)).ok()?.pk)
}

/// Writes the private key of a seed as PEM text.
///
/// Trusted: `ed25519_compact::KeyPair::try_from_seed`, then
/// `ed25519_compact::SecretKey::to_pem` on the pair's secret key, which writes
/// a fixed PKCS#8 header and the seed in base64 between the PEM markers.
#[verifier::external_body]
fn write_secret_pem(seed: &[u8; 32]) -> (res: Option<String>)
    ensures
        res is Some <==> !all_zero(seed@),
        res matches Some(pem) ==> pem@ == secret_key_pem(seed@),
{
    Some(ed25519_compact::KeyPair::try_from_seed(ed25519_compact::Seed::new(*seed)).ok()?.sk.to_pem())
}

/// The public key that a PEM text holds, or `None` for a text that holds
/// none. The `ed25519_compact` crate decides.
pub uninterp spec fn public_pem_parsed(pem: Seq<char>) -> Option<Seq<u8>>;

/// Writes a public key as PEM text.
///
/// Trusted: `ed25519_compact::PublicKey::to_pem`, which writes a fixed
/// SubjectPublicKeyInfo header and the key in base64 between the PEM
/// markers; and, by the crate's source, that
/// `ed25519_compact::PublicKey::from_pem` reads the key back from what
/// `to_pem` wrote: it decodes the base64 between the markers and takes the
/// thirty-two bytes behind the same header.
#[verifier::external_body]
fn write_public_pem(public: &[u8; 32]) -> (pem: String)
    ensures
        pem@ == public_key_pem(public@),
        public_pem_parsed(pem@) == Some(public@),
{
    ed25519_compact::PublicKey::new(*public).to_pem()
}

/// Reads a public key from PEM text.
///
/// Trusted: `ed25519_compact::PublicKey::from_pem`, whose answer depends on
/// the text alone.
#[verifier::external_body]
fn read_public_pem(pem: &str) -> (res: Option<[u8; 32]>)
    ensures
        match res {
            Some(public) => public_pem_parsed(pem@) == Some(public@),
            None => public_pem_parsed(pem@) is None,
        },
{
    ed25519_compact::PublicKey::from_pem(pem).ok().map(|public| *public)
}

/// Draws a random seed.
///
/// Trusted: `ed25519_compact::Seed::generate`, which fills thirty-two bytes
/// from the system's random source. Nothing is known of the outcome.
#[verifier::external_body]
fn random_seed() -> [u8; 32] {
    *ed25519_compact::Seed::generate()
}

/// Tells whether every byte of a seed is zero.
pub fn is_all_zero(seed: &[u8; 32]) -> (zero: bool)
    ensures
        zero == all_zero(seed@),
{
    let mut i: usize = 0;
    while i < 32
        invariant
            i <= 32,
            forall|j: int| 0 <= j < i ==> seed@[j] == 0,
        decreases 32 - i,
    {
        if seed[i] != 0 {
            return false;
        }
        i = i + 1;
    }
    true
}

/// The hub's key material.
pub struct Keys {
    seed: [u8; 32],
    public: [u8; 32],
    secret_pem: String,
    public_hex: String,
    public_pem: String,
}

/// Key material as contracts see it.
pub struct KeysView {
    pub seed: Seq<u8>,
    pub public: Seq<u8>,
    pub secret_pem: Seq<char>,
    pub public_hex: Seq<char>,
    pub public_pem: Seq<char>,
}

impl KeysView {
    /// The key material that belongs to a seed.
    pub open spec fn of_seed(seed: Seq<u8>) -> KeysView {
        let public = ed25519_public(seed);
        KeysView {
            seed,
            public,
            secret_pem: secret_key_pem(seed),
            public_hex: lower_hex(public),
            public_pem: public_key_pem(public),
        }
    }

    /// All parts belong to the seed, which is not all zeros, and the PEM
    /// text of the public key reads back as that key.
    pub open spec fn wf(self) -> bool {
        &&& self.seed.len() == 32
        &&& self.public.len() == 32
        &&& !all_zero(self.seed)
        &&& self == Self::of_seed(self.seed)
        &&& public_pem_parsed(self.public_pem) == Some(self.public)
    }
}

impl View for Keys {
    type V = KeysView;

    closed spec fn view(&self) -> KeysView {
        KeysView {
            seed: self.seed@,
            public: self.public@,
            secret_pem: self.secret_pem@,
            public_hex: self.public_hex@,
            public_pem: self.public_pem@,
        }
    }
}

impl Keys {
    /// Seconds by which clocks may differ when a token's times are checked.
    pub const LEEWAY: i64 = 1;

    /// The rule that every value of the key material keeps.
    #[verifier::type_invariant]
    pub open spec fn inv(&self) -> bool {
        self@.wf()
    }

    /// Makes the key material of a seed. The seed that is all zeros is
    /// refused, and no other.
    pub fn new(seed: [u8; 32]) -> (res: Result<Keys, Error>)
        ensures
            res is Ok <==> !all_zero(seed@),
            res matches Ok(keys) ==> keys@ == KeysView::of_seed(seed@) && keys@.wf(),
            res matches Err(e) ==> e is ConfigError,
    {
        let public = match derive_public(&seed) {
            Some(public) => public,
            None => {
                return Err(Error::ConfigError(String::from_str("the private key is all zeros")));
            },
        };
        let secret_pem = match write_secret_pem(&seed) {
            Some(pem) => pem,
            None => {
                return Err(Error::ConfigError(String::from_str("the private key is all zeros")));
            },
        };
        let public_hex = hex_encode(public.as_slice());
        let public_pem = write_public_pem(&public);
        Ok(Keys { seed, public, secret_pem, public_hex, public_pem })
    }

    /// Reads the public key that a PEM text holds, as a client does with the
    /// text that the hub hands out.
    pub fn parse_public_pem(pem: &str) -> (res: Option<[u8; 32]>)
        ensures
            match res {
                Some(public) => public_pem_parsed(pem@) == Some(public@),
                None => public_pem_parsed(pem@) is None,
            },
    {
        read_public_pem(pem)
    }

    /// Makes key material from a fresh random seed. It fails only if the
    /// seed drawn is all zeros.
    pub fn rand() -> (res: Result<Keys, Error>)
        ensures
            res matches Ok(keys) ==> keys@.wf(),
            res matches Err(e) ==> e is ConfigError,
    {
        Keys::new(random_seed())
    }

    /// The seed.
    pub fn seed(&self) -> (seed: &[u8; 32])
        ensures
            seed@ == self@.seed,
            self@.wf(),
    {
        proof {
            use_type_invariant(self);
        }
        &self.seed
    }

    /// The public key.
    pub fn public(&self) -> (public: &[u8; 32])
        ensures
            public@ == self@.public,
            self@.wf(),
    {
        proof {
            use_type_invariant(self);
        }
        &self.public
    }

    /// The private key as PEM text, for signing.
    pub fn secret_pem(&self) -> (pem: &str)
        ensures
            pem@ == self@.secret_pem,
            self@.wf(),
    {
        proof {
            use_type_invariant(self);
        }
        self.secret_pem.as_str()
    }

    /// The public key in lower-case hexadecimal.
    pub fn public_hex(&self) -> (text: &str)
        ensures
            text@ == self@.public_hex,
            self@.wf(),
    {
        proof {
            use_type_invariant(self);
        }
        self.public_hex.as_str()
    }

    /// The public key as PEM text.
    pub fn public_pem(&self) -> (pem: &str)
        ensures
            pem@ == self@.public_pem,
            self@.wf(),
    {
        proof {
            use_type_invariant(self);
        }
        self.public_pem.as_str()
    }
}

/// The public key in hexadecimal is sixty-four lower-case hexadecimal digits
/// that read back as the thirty-two bytes of the key, and the public key as
/// PEM text reads back as the same thirty-two bytes.
pub proof fn lemma_public_hex(keys: KeysView)
    requires
        keys.wf(),
    ensures
        keys.public_hex.len() == 64,
        crate::hexadecimal::is_lower_hex(keys.public_hex),
        crate::hexadecimal::hex_bytes(keys.public_hex) == keys.public,
        public_pem_parsed(keys.public_pem) == Some(keys.public),
        public_pem_parsed(keys.public_pem) == Some(crate::hexadecimal::hex_bytes(keys.public_hex)),
{
    crate::hexadecimal::lemma_lower_hex_reads_back(keys.public);
}

} // verus!
