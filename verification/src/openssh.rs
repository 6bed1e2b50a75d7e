//! Key pairs in the OpenSSH formats: the generator and the encoder that a
//! search is run with, and the texts that are written to storage.

use crate::error::SearchError;
use crate::request::KeyAlgorithm;
use crate::search::{answer_of, Encoder, KeyGenerator};
use ssh_key::{Algorithm, EcdsaCurve, LineEnding, PrivateKey};
use vstd::prelude::*;
use vstd::string::StringExecFns;

verus! {

/// `ssh_key::PrivateKey`: a key pair, private and public half. It is
/// carried through as it is; nothing here looks inside.
#[verifier::external_type_specification]
#[verifier::external_body]
pub struct ExPrivateKey(PrivateKey);

/// `ssh_key::Error`: why making or rendering a key failed. Only its text
/// is taken from it.
#[verifier::external_type_specification]
#[verifier::external_body]
pub struct ExKeyError(ssh_key::Error);

/// The one-line OpenSSH text of a key pair's public key, or the error that
/// rendering it gives.
pub uninterp spec fn public_rendering_of(keypair: PrivateKey) -> Result<Seq<char>, ssh_key::Error>;

/// The OpenSSH private key text of a key pair, with line feeds as line
/// endings, or the error that rendering it gives.
pub uninterp spec fn private_rendering_of(keypair: PrivateKey) -> Result<
    Seq<char>,
    ssh_key::Error,
>;

/// What a rendering is handed on as: the text as it is, an error as the
/// text that the error shows for itself.
pub open spec fn with_error_text(rendering: Result<Seq<char>, ssh_key::Error>) -> Result<
    Seq<char>,
    Seq<char>,
> {
    match rendering {
        Ok(text) => Ok(text),
        Err(error) => Err(error_text_of(error)),
    }
}

/// The key family of a key pair, where it is one that a search can ask for.
pub uninterp spec fn family_of(keypair: PrivateKey) -> Option<KeyAlgorithm>;

/// `PrivateKey::algorithm` tells the algorithm of a key pair. It is read
/// here as one of the three families, or as none of them.
#[verifier::external_body]
fn read_family(keypair: &PrivateKey) -> (family: Option<KeyAlgorithm>)
    ensures
        family == family_of(*keypair),
{
    match keypair.algorithm() {
        Algorithm::Ed25519 => Some(KeyAlgorithm::Ed25519),
        Algorithm::Rsa { hash: None } => Some(KeyAlgorithm::Rsa),
        Algorithm::Ecdsa { curve: EcdsaCurve::NistP256 } => Some(KeyAlgorithm::EcdsaP256),
        _ => None,
    }
}

/// The text that an `ssh_key::Error` shows for itself.
pub uninterp spec fn error_text_of(error: ssh_key::Error) -> Seq<char>;

/// `PrivateKey::random`, drawing from `rand::thread_rng`, makes a key pair
/// of the asked family. Which key pair comes back is a matter of chance;
/// one that comes back is of the family asked for. For Ed25519 and for
/// ECDSA on P-256 one always comes back: with both compiled in, as they are
/// here, these two are made without a step that can give an error. The
/// making of an RSA key pair can fail.
#[verifier::external_body]
fn random_keypair(algorithm: KeyAlgorithm) -> (made: Result<PrivateKey, ssh_key::Error>)
    ensures
        made matches Ok(keypair) ==> family_of(keypair) == Some(algorithm),
        algorithm == KeyAlgorithm::Ed25519 || algorithm == KeyAlgorithm::EcdsaP256 ==> made is Ok,
{
    let family = match algorithm {
        KeyAlgorithm::Ed25519 => Algorithm::Ed25519,
        KeyAlgorithm::Rsa => Algorithm::Rsa { hash: None },
        KeyAlgorithm::EcdsaP256 => Algorithm::Ecdsa { curve: EcdsaCurve::NistP256 },
    };
    PrivateKey::random(&mut rand::thread_rng(), family)
}

/// The identifier under which OpenSSH knows a key family.
pub open spec fn family_name(algorithm: KeyAlgorithm) -> Seq<char> {
    match algorithm {
        KeyAlgorithm::Ed25519 => "ssh-ed25519"@,
        KeyAlgorithm::Rsa => "ssh-rsa"@,
        KeyAlgorithm::EcdsaP256 => "ecdsa-sha2-nistp256"@,
    }
}

/// `Algorithm::as_str` gives the identifier of a key family: `ssh-ed25519`,
/// `ssh-rsa` where no hash is named, and `ecdsa-sha2-nistp256` for the
/// P-256 curve.
#[verifier::external_body]
fn name_family(algorithm: KeyAlgorithm) -> (name: String)
    ensures
        name@ == family_name(algorithm),
{
    let family = match algorithm {
        KeyAlgorithm::Ed25519 => Algorithm::Ed25519,
        KeyAlgorithm::Rsa => Algorithm::Rsa { hash: None },
        KeyAlgorithm::EcdsaP256 => Algorithm::Ecdsa { curve: EcdsaCurve::NistP256 },
    };
    family.as_str().to_owned()
}

impl KeyAlgorithm {
    /// The family of a key pair, if it is one of those searched here.
    pub fn of_keypair(keypair: &PrivateKey) -> (family: Option<KeyAlgorithm>)
        ensures
            family == family_of(*keypair),
    {
        read_family(keypair)
    }

    /// The identifier of this key family in OpenSSH key files.
    pub fn openssh_name(&self) -> (name: String)
        ensures
            name@ == family_name(*self),
    {
        name_family(*self)
    }
}

/// `PublicKey::to_openssh`, on the public key that `PrivateKey::public_key`
/// hands out. The text, or the error in its place, depends on the key pair
/// alone: the same key pair always gives the same.
#[verifier::external_body]
fn render_public_key(keypair: &PrivateKey) -> (text: Result<String, ssh_key::Error>)
    ensures
        match text {
            Ok(rendered) => public_rendering_of(*keypair) == Ok::<Seq<char>, ssh_key::Error>(
                rendered@,
            ),
            Err(error) => public_rendering_of(*keypair) == Err::<Seq<char>, ssh_key::Error>(error),
        },
{
    keypair.public_key().to_openssh()
}

/// `PrivateKey::to_openssh` with `LineEnding::LF`. The text, or the error
/// in its place, depends on the key pair alone.
#[verifier::external_body]
fn render_private_key(keypair: &PrivateKey) -> (text: Result<String, ssh_key::Error>)
    ensures
        match text {
            Ok(rendered) => private_rendering_of(*keypair) == Ok::<Seq<char>, ssh_key::Error>(
                rendered@,
            ),
            Err(error) => private_rendering_of(*keypair) == Err::<Seq<char>, ssh_key::Error>(
                error,
            ),
        },
{
    match keypair.to_openssh(LineEnding::LF) {
        Ok(pem) => Ok(pem.as_str().to_owned()),
        Err(error) => Err(error),
    }
}

/// The `Display` text of an `ssh_key::Error`. It depends on the error
/// alone.
#[verifier::external_body]
fn describe(error: &ssh_key::Error) -> (text: String)
    ensures
        text@ == error_text_of(*error),
{
    error.to_string()
}

/// What the generator hands on of what the making of a key pair gave: a
/// key pair as it is, an error as the text that the error shows.
pub fn generated(made: Result<PrivateKey, ssh_key::Error>) -> (handed: Result<
    PrivateKey,
    String,
>)
    ensures
        match made {
            Ok(keypair) => handed == Ok::<PrivateKey, String>(keypair),
            Err(error) => handed matches Err(detail) && detail@ == error_text_of(error),
        },
{
    match made {
        Ok(keypair) => Ok(keypair),
        Err(error) => Err(describe(&error)),
    }
}

/// Makes random OpenSSH key pairs, and keeps the record of its calls.
pub struct OpenSshGenerator {
    answered: Ghost<Seq<(KeyAlgorithm, Result<PrivateKey, Seq<char>>)>>,
}

impl OpenSshGenerator {
    /// A generator that has answered no call yet.
    pub fn new() -> (generator: OpenSshGenerator)
        ensures
            generator.answered().len() == 0,
    {
        OpenSshGenerator { answered: Ghost(Seq::empty()) }
    }
}

impl KeyGenerator<PrivateKey> for OpenSshGenerator {
    closed spec fn answered(&self) -> Seq<(KeyAlgorithm, Result<PrivateKey, Seq<char>>)> {
        self.answered@
    }

    /// Asks for one random key pair of the family. For Ed25519 and for
    /// ECDSA on P-256 a key pair always comes back; only the making of an
    /// RSA key pair can fail. A key pair that comes back is of the family
    /// asked for.
    fn generate(&mut self, algorithm: KeyAlgorithm) -> (made: Result<PrivateKey, String>)
        ensures
            match made {
                Ok(keypair) => family_of(keypair) == Some(algorithm),
                Err(_) => algorithm == KeyAlgorithm::Rsa,
            },
    {
        let made = generated(random_keypair(algorithm));
        proof {
            self.answered = Ghost(self.answered@.push((algorithm, answer_of(made))));
        }
        made
    }
}

/// Renders public keys in the one-line OpenSSH format.
pub struct OpenSshEncoder;

/// The text of a rendering that gave one, or the text of its error.
pub fn rendered(text: Result<String, ssh_key::Error>) -> (handed: Result<String, String>)
    ensures
        match text {
            Ok(rendered) => handed == Ok::<String, String>(rendered),
            Err(error) => handed matches Err(detail) && detail@ == error_text_of(error),
        },
{
    match text {
        Ok(rendered) => Ok(rendered),
        Err(error) => Err(describe(&error)),
    }
}

impl Encoder<PrivateKey> for OpenSshEncoder {
    /// The one-line OpenSSH text of the key pair's public key. It depends
    /// on the key pair alone: encoding the same key pair again gives the
    /// same text, whatever was encoded in between.
    open spec fn rendering(&self, keypair: PrivateKey) -> Result<Seq<char>, Seq<char>> {
        with_error_text(public_rendering_of(keypair))
    }

    fn encode(&self, keypair: &PrivateKey) -> (text: Result<String, String>) {
        rendered(render_public_key(keypair))
    }
}

/// The name of the file that holds the private key found for `prefix`.
pub open spec fn private_file_name(prefix: Seq<char>) -> Seq<char> {
    prefix + "_id"@
}

/// The name of the file that holds the public key found for `prefix`.
pub open spec fn public_file_name(prefix: Seq<char>) -> Seq<char> {
    prefix + "_id.pub"@
}

/// The permission bits of a private key file: its owner may read and write
/// it, nobody else may do anything with it.
pub const PRIVATE_KEY_MODE: u32 = 0o600;

/// One file to write: its name within the key directory, and its content.
#[derive(Debug)]
pub struct KeyFile {
    pub name: String,
    pub text: String,
}

/// The private key file of a found key pair.
pub fn private_key_file(keypair: &PrivateKey, prefix: &str) -> (file: Result<
    KeyFile,
    SearchError,
>)
    ensures
        match file {
            Ok(file) => file.name@ == private_file_name(prefix@) && private_rendering_of(*keypair)
                == Ok::<Seq<char>, ssh_key::Error>(file.text@),
            Err(SearchError::Encoding { detail }) => with_error_text(
                private_rendering_of(*keypair),
            ) == Err::<Seq<char>, Seq<char>>(detail@),
            Err(_) => false,
        },
{
    match render_private_key(keypair) {
        Ok(text) => Ok(KeyFile { name: String::from_str(prefix).concat("_id"), text }),
        Err(error) => Err(SearchError::Encoding { detail: describe(&error) }),
    }
}

/// The public key file of a found key pair. Its text is the very text that
/// the search compared with the prefix.
pub fn public_key_file(keypair: &PrivateKey, prefix: &str) -> (file: Result<KeyFile, SearchError>)
    ensures
        match file {
            Ok(file) => file.name@ == public_file_name(prefix@) && public_rendering_of(*keypair)
                == Ok::<Seq<char>, ssh_key::Error>(file.text@),
            Err(SearchError::Encoding { detail }) => with_error_text(
                public_rendering_of(*keypair),
            ) == Err::<Seq<char>, Seq<char>>(detail@),
            Err(_) => false,
        },
{
    match render_public_key(keypair) {
        Ok(text) => Ok(KeyFile { name: String::from_str(prefix).concat("_id.pub"), text }),
        Err(error) => Err(SearchError::Encoding { detail: describe(&error) }),
    }
}

} // verus!
