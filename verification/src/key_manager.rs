//! The signing identity of the process: how it is made, what it signs, and
//! the one place in which it is kept.

use crate::decoder::prefixed;
use crate::dstack_client::DStackError;
use crate::trusted::{
    generate_secret, hex_decode, hex_decoding, hex_encode, hex_encoding, hex_error_text,
    is_hex_text, p256_public_key, p256_signature, pkcs8_pem_secret, public_key_from_sec1,
    public_key_of, sec1_public_key, secret_from_pem, sha512, sha512_digest, sign_with,
};
use crate::tappd_service::{exchange_outcome, exchange_result, Exchange};
use crate::types::{GetKeyResponse, KeyManagerError, KeySource};
use vstd::prelude::*;
use vstd::string::StringExecFns;

verus! {

/// A P-256 signing key with its origin and, where the hardware derived it,
/// the certificates that vouch for it. The secret scalar never leaves this
/// type.
pub struct KeyMaterial {
    secret: Vec<u8>,
    public: Vec<u8>,
    source: KeySource,
    certificate_chain: Option<Vec<String>>,
}

/// The texts of a certificate chain, if there is one.
pub open spec fn chain_view(chain: Option<Vec<String>>) -> Option<Seq<String>> {
    match chain {
        Some(c) => Some(c@),
        None => None,
    }
}

/// The scalar that the quote service derived, where it answered with
/// hexadecimal text that stands for the scalar of a P-256 key.
pub open spec fn derived_scalar(derived: Result<String, DStackError>) -> Option<Seq<u8>> {
    match derived {
        Ok(text) => if is_hex_text(text@) && p256_public_key(hex_decoding(text@)) is Some {
            Some(hex_decoding(text@))
        } else {
            None
        },
        Err(_) => None,
    }
}

/// The report data for a public key: `0x`, then its SHA-512 digest in hexadecimal.
pub open spec fn report_data_of(data: Seq<u8>) -> Seq<char> {
    "0x"@ + hex_encoding(sha512_digest(data))
}

/// A copy of `texts`.
pub fn clone_texts(texts: &Vec<String>) -> (copy: Vec<String>)
    ensures
        copy@ == texts@,
{
    let mut copy: Vec<String> = Vec::new();
    let mut i: usize = 0;
    while i < texts.len()
        invariant
            i <= texts@.len(),
            copy@ == texts@.take(i as int),
        decreases texts@.len() - i,
    {
        copy.push(texts[i].clone());
        assert(texts@.take(i + 1) =~= texts@.take(i as int).push(texts@[i as int]));
        i = i + 1;
    }
    assert(texts@.take(texts@.len() as int) =~= texts@);
    copy
}

/// A copy of `bytes`.
pub fn clone_bytes(bytes: &Vec<u8>) -> (copy: Vec<u8>)
    ensures
        copy@ == bytes@,
{
    let mut copy: Vec<u8> = Vec::new();
    let mut i: usize = 0;
    while i < bytes.len()
        invariant
            i <= bytes@.len(),
            copy@ == bytes@.take(i as int),
        decreases bytes@.len() - i,
    {
        copy.push(bytes[i]);
        assert(bytes@.take(i + 1) =~= bytes@.take(i as int).push(bytes@[i as int]));
        i = i + 1;
    }
    assert(bytes@.take(bytes@.len() as int) =~= bytes@);
    copy
}

impl KeyMaterial {
    /// The secret is a key, and the public key kept beside it is its own.
    #[verifier::type_invariant]
    pub closed spec fn well_formed(self) -> bool {
        &&& p256_public_key(self.secret@) == Some(self.public@)
        &&& self.public@.len() == 65
        &&& self.public@[0] == 4
    }

    /// The secret scalar, for contracts only.
    pub closed spec fn secret_scalar(self) -> Seq<u8> {
        self.secret@
    }

    /// The public key in the uncompressed SEC1 encoding.
    pub closed spec fn public_key(self) -> Seq<u8> {
        self.public@
    }

    /// Where the key came from.
    pub closed spec fn origin(self) -> KeySource {
        self.source
    }

    /// The certificates that vouch for the key.
    pub closed spec fn chain(self) -> Option<Seq<String>> {
        chain_view(self.certificate_chain)
    }

    /// A key for the secret scalar `secret`, which `generate_secret` or
    /// `secret_from_pem` produced.
    fn assemble(secret: Vec<u8>, source: KeySource, certificate_chain: Option<Vec<String>>) -> (km:
        Self)
        requires
            p256_public_key(secret@) is Some,
        ensures
            km.secret_scalar() == secret@,
            p256_public_key(secret@) == Some(km.public_key()),
            km.origin() == source,
            km.chain() == chain_view(certificate_chain),
    {
        match public_key_of(secret.as_slice()) {
            Some(public) => KeyMaterial { secret, public, source, certificate_chain },
            None => vstd::pervasive::unreached(),
        }
    }

    /// A key generated in this process, with no certificates.
    pub fn new_random() -> (km: Self)
        ensures
            km.origin() == KeySource::Random,
            km.chain() is None,
            p256_public_key(km.secret_scalar()) == Some(km.public_key()),
    {
        Self::assemble(generate_secret(), KeySource::Random, None)
    }

    /// The key that the hardware derived, with its certificates, where the
    /// response holds a PKCS#8 private key in PEM; otherwise a key generated in
    /// this process. Never fails.
    pub fn from_get_key_response(response: &GetKeyResponse) -> (res: Result<Self, String>)
        ensures
            res is Ok,
            p256_public_key(res->Ok_0.secret_scalar()) == Some(res->Ok_0.public_key()),
            pkcs8_pem_secret(response.key@) matches Some(secret) ==> {
                &&& res->Ok_0.secret_scalar() == secret
                &&& res->Ok_0.origin() == KeySource::Tappd
                &&& res->Ok_0.chain() == Some(response.certificate_chain@)
            },
            pkcs8_pem_secret(response.key@) is None ==> {
                &&& res->Ok_0.origin() == KeySource::Random
                &&& res->Ok_0.chain() is None
            },
    {
        match secret_from_pem(response.key.as_str()) {
            Some(secret) => Ok(
                Self::assemble(
                    secret,
                    KeySource::Tappd,
                    Some(clone_texts(&response.certificate_chain)),
                ),
            ),
            None => Ok(Self::new_random()),
        }
    }

    /// The key for what the quote service derived: where the service
    /// answered with hexadecimal text that stands for the scalar of a P-256
    /// key, that key, with no certificates; in every other case a key
    /// generated in this process. Never fails.
    pub fn new_instance(derived: &Result<String, DStackError>) -> (km: Self)
        ensures
            p256_public_key(km.secret_scalar()) == Some(km.public_key()),
            km.chain() is None,
            match derived_scalar(*derived) {
                Some(secret) => km.secret_scalar() == secret && km.origin() == KeySource::Tappd,
                None => km.origin() == KeySource::Random,
            },
    {
        if let Ok(text) = derived {
            if let Ok(secret) = hex_decode(text.as_str()) {
                if let Some(public) = public_key_of(secret.as_slice()) {
                    return KeyMaterial {
                        secret,
                        public,
                        source: KeySource::Tappd,
                        certificate_chain: None,
                    };
                }
            }
        }
        Self::new_random()
    }

    /// A second handle on the same key.
    pub fn clone(&self) -> (copy: Self)
        ensures
            copy.secret_scalar() == self.secret_scalar(),
            copy.public_key() == self.public_key(),
            copy.origin() == self.origin(),
            copy.chain() == self.chain(),
    {
        proof {
            use_type_invariant(self);
        }
        KeyMaterial {
            secret: clone_bytes(&self.secret),
            public: clone_bytes(&self.public),
            source: self.source,
            certificate_chain: self.certificate_chain(),
        }
    }

    /// Where the key came from.
    pub fn source(&self) -> (source: KeySource)
        ensures
            source == self.origin(),
    {
        self.source
    }

    /// The certificates that vouch for the key, if any.
    pub fn certificate_chain(&self) -> (chain: Option<Vec<String>>)
        ensures
            chain_view(chain) == self.chain(),
    {
        match &self.certificate_chain {
            Some(c) => Some(clone_texts(c)),
            None => None,
        }
    }

    /// The public key in the uncompressed SEC1 encoding: sixty-five bytes,
    /// the first of them 4.
    pub fn public_key_bytes(&self) -> (bytes: Vec<u8>)
        ensures
            bytes@ == self.public_key(),
            p256_public_key(self.secret_scalar()) == Some(bytes@),
            bytes@.len() == 65,
            bytes@[0] == 4,
    {
        proof {
            use_type_invariant(self);
        }
        clone_bytes(&self.public)
    }

    /// The public key, in hexadecimal.
    pub fn encode_verify_key(&self) -> (text: String)
        ensures
            text@ == hex_encoding(self.public_key()),
    {
        hex_encode(self.public.as_slice())
    }

    /// The key that verifies what this key signs, in the uncompressed SEC1 encoding.
    pub fn verifying_key(&self) -> (bytes: Vec<u8>)
        ensures
            bytes@ == self.public_key(),
    {
        self.public_key_bytes()
    }

    /// The public key that a hexadecimal SEC1 encoding stands for, in the
    /// uncompressed SEC1 encoding, or why there is none.
    pub fn verifying_key_from_hex_encoded(&self, hex_encoded: &str) -> (res: Result<
        Vec<u8>,
        String,
    >)
        ensures
            !is_hex_text(hex_encoded@) ==> (res matches Err(e) && e@ == hex_error_text(
                hex_encoded@,
            )),
            is_hex_text(hex_encoded@) ==> {
                &&& res matches Ok(k) ==> sec1_public_key(hex_decoding(hex_encoded@)) == Ok::<
                    Seq<u8>,
                    Seq<char>,
                >(k@)
                &&& res matches Err(e) ==> sec1_public_key(hex_decoding(hex_encoded@)) == Err::<
                    Seq<u8>,
                    Seq<char>,
                >(e@)
            },
    {
        match hex_decode(hex_encoded) {
            Err(e) => Err(e),
            Ok(bytes) => public_key_from_sec1(bytes.as_slice()),
        }
    }

    /// The report data that binds a quote to this key: `0x`, then the
    /// SHA-512 digest of the public key in hexadecimal.
    pub fn report_data_from_key(&self) -> (text: String)
        ensures
            text@ == report_data_of(self.public_key()),
            text@.len() == 130,
    {
        let digest = sha512(self.public.as_slice());
        let hex = hex_encode(digest.as_slice());
        proof {
            reveal_strlit("0x");
        }
        prefixed("0x", hex.as_str())
    }

    /// The signature of `message` under this key: `r`, then `s`, in
    /// sixty-four bytes.
    pub fn sign_message(&self, message: &[u8]) -> (res: Result<Vec<u8>, KeyManagerError>)
        ensures
            res matches Ok(s) ==> p256_signature(self.secret_scalar(), message@) == Some(s@)
                && s@.len() == 64,
            res matches Err(e) ==> p256_signature(self.secret_scalar(), message@) is None
                && e.message@ == "Signing failed"@,
    {
        match sign_with(self.secret.as_slice(), message) {
            Some(signature) => Ok(signature),
            None => Err(KeyManagerError { message: String::from_str("Signing failed") }),
        }
    }
}

/// The one place in which the signing identity of the process is kept. It
/// is empty at first and is filled at most once; what it holds is never
/// replaced.
pub struct KeyStore {
    key: Option<KeyMaterial>,
    derived_here: bool,
    deriving: bool,
}

/// How far the initialization of a store has come.
#[derive(Debug, Clone, Copy, PartialEq, Eq, Structural)]
pub enum Phase {
    /// No key is kept and none has been asked for.
    Empty,
    /// The hardware has been asked to derive a key; no key is kept yet.
    Deriving,
    /// A key is kept.
    Filled,
}

/// What has happened to the initialization so far.
pub enum InitEvent {
    /// Initialization was asked for.
    Start,
    /// The hardware was asked to derive a key, and this came back.
    Derived(Result<GetKeyResponse, KeyManagerError>),
}

/// What is to be done next to initialize the signing identity.
pub enum InitAction {
    /// Ask the hardware to derive a key and come back with what it says.
    Derive,
    /// Another caller is asking the hardware; come back with `Start` later.
    Wait,
    /// Initialization is over.
    Done(Result<(), KeyManagerError>),
}

impl KeyStore {
    /// The key that is kept, if any.
    pub closed spec fn key(self) -> Option<KeyMaterial> {
        self.key
    }

    /// The key that is kept was put there by initialization, not by `install`.
    pub closed spec fn filled_by_init(self) -> bool {
        self.derived_here
    }

    /// How far the initialization has come.
    pub closed spec fn phase(self) -> Phase {
        if self.key is Some {
            Phase::Filled
        } else if self.deriving {
            Phase::Deriving
        } else {
            Phase::Empty
        }
    }

    /// A store is filled exactly if it keeps a key.
    pub proof fn lemma_phase(self)
        ensures
            self.phase() is Filled <==> self.key() is Some,
    {
    }

    /// An empty store.
    pub fn new() -> (store: Self)
        ensures
            store.key() is None,
            store.phase() is Empty,
    {
        KeyStore { key: None, derived_here: false, deriving: false }
    }

    /// Tells whether a key is kept.
    pub fn is_initialized(&self) -> (b: bool)
        ensures
            b == self.key() is Some,
    {
        self.key.is_some()
    }

    /// Puts `key` into the store without asking the hardware, if the store
    /// keeps no key; a store that keeps one refuses and stays as it is.
    pub fn install(&mut self, key: KeyMaterial) -> (res: Result<(), KeyManagerError>)
        ensures
            old(self).key() is None ==> {
                &&& res is Ok
                &&& final(self).key() == Some(key)
                &&& !final(self).filled_by_init()
            },
            old(self).key() is Some ==> *final(self) == *old(self) && (res matches Err(e)
                && e.message@ == "Key material already initialized"@),
    {
        if self.key.is_some() {
            Err(already_initialized())
        } else {
            self.key = Some(key);
            self.derived_here = false;
            Ok(())
        }
    }

    /// The key that is kept.
    pub fn get_instance(&self) -> (key: &KeyMaterial)
        requires
            self.key() is Some,
        ensures
            Some(*key) == self.key(),
    {
        match &self.key {
            Some(k) => k,
            None => vstd::pervasive::unreached(),
        }
    }
}

/// The error for a store that was filled behind the back of initialization.
fn already_initialized() -> (e: KeyManagerError)
    ensures
        e.message@ == "Key material already initialized"@,
{
    KeyManagerError { message: String::from_str("Key material already initialized") }
}

/// Takes the initialization of the signing identity one step further.
///
/// On `Start`, an empty store asks for a derived key, once: until the answer
/// is in, every further `Start` is told to wait. On `Derived`, a store that
/// keeps no key is filled: with the derived key and its certificates where
/// the response holds a usable key, else with a key generated here. A store
/// that initialization has filled answers `Done(Ok(()))` to every event and
/// keeps its key; a store that `install` has filled answers with an error and
/// keeps its key.
pub fn init_key_material_from_tappd_socket(store: &mut KeyStore, event: InitEvent) -> (action:
    InitAction)
    ensures
        old(store).key() is Some ==> *final(store) == *old(store),
        old(store).key() is Some && old(store).filled_by_init() ==> action == InitAction::Done(
            Ok(()),
        ),
        old(store).key() is Some && !old(store).filled_by_init() ==> (action matches InitAction::Done(
            Err(e),
        ) && e.message@ == "Key material already initialized"@),
        old(store).phase() is Empty && event is Start ==> {
            &&& action is Derive
            &&& final(store).phase() is Deriving
        },
        old(store).phase() is Deriving && event is Start ==> {
            &&& action is Wait
            &&& *final(store) == *old(store)
        },
        old(store).key() is None && event is Derived ==> {
            &&& action == InitAction::Done(Ok(()))
            &&& final(store).filled_by_init()
            &&& final(store).key() matches Some(k) && is_initial_key(k, event->Derived_0)
        },
        action is Derive ==> old(store).phase() is Empty,
{
    if store.key.is_some() {
        if store.derived_here {
            InitAction::Done(Ok(()))
        } else {
            InitAction::Done(Err(already_initialized()))
        }
    } else {
        match event {
            InitEvent::Start => {
                if store.deriving {
                    InitAction::Wait
                } else {
                    store.deriving = true;
                    InitAction::Derive
                }
            },
            InitEvent::Derived(derived) => {
                let key = initial_key(&derived);
                store.key = Some(key);
                store.derived_here = true;
                InitAction::Done(Ok(()))
            },
        }
    }
}

/// `key` is a key that initialization may make of what the hardware said:
/// the derived key with its certificates where the response holds a PKCS#8
/// private key in PEM, and a key generated here with no certificates where it
/// holds none or where the hardware gave no response.
pub open spec fn is_initial_key(key: KeyMaterial, derived: Result<GetKeyResponse, KeyManagerError>) -> bool {
    &&& p256_public_key(key.secret_scalar()) == Some(key.public_key())
    &&& match derived {
        Ok(response) => match pkcs8_pem_secret(response.key@) {
            Some(secret) => {
                &&& key.secret_scalar() == secret
                &&& key.origin() == KeySource::Tappd
                &&& key.chain() == Some(response.certificate_chain@)
            },
            None => key.origin() == KeySource::Random && key.chain() is None,
        },
        Err(_) => key.origin() == KeySource::Random && key.chain() is None,
    }
}

/// The key with which the store is filled, given what the hardware said.
pub fn initial_key(derived: &Result<GetKeyResponse, KeyManagerError>) -> (key: KeyMaterial)
    ensures
        is_initial_key(key, *derived),
{
    match derived {
        Ok(response) => match KeyMaterial::from_get_key_response(response) {
            Ok(key) => key,
            Err(_) => KeyMaterial::new_random(),
        },
        Err(_) => KeyMaterial::new_random(),
    }
}

/// The signing identity, if the store has been filled.
pub fn try_get_key_material(store: &KeyStore) -> (key: Option<&KeyMaterial>)
    ensures
        key is Some <==> store.key() is Some,
        key matches Some(k) ==> store.key() == Some(*k),
{
    store.key.as_ref()
}

/// What an exchange about a derived key amounts to: the key with its
/// certificates, or an error that says which part of the exchange failed.
pub fn derive_key_from_tappd(exchange: Exchange<GetKeyResponse>) -> (res: Result<
    GetKeyResponse,
    KeyManagerError,
>)
    ensures
        res matches Ok(response) ==> exchange_outcome(exchange, "GetKeyResponse"@) == Ok::<
            GetKeyResponse,
            Seq<char>,
        >(response),
        res matches Err(e) ==> exchange_outcome(exchange, "GetKeyResponse"@) == Err::<
            GetKeyResponse,
            Seq<char>,
        >(e.message@),
{
    match exchange_result(exchange, "GetKeyResponse") {
        Ok(response) => Ok(response),
        Err(message) => Err(KeyManagerError { message }),
    }
}

} // verus!
