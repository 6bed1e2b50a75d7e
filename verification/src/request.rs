//! What a search is asked to find.

use crate::error::SearchError;
use crate::text::{has_prefix, same_text, starts_with};
use vstd::prelude::*;
use vstd::string::StringExecFns;

verus! {

/// The attempt budget of a search that is given none.
pub const DEFAULT_MAX_ATTEMPTS: u32 = 100000;

/// The key families a search can draw from.
#[derive(Clone, Copy, Debug, PartialEq, Eq, Structural)]
pub enum KeyAlgorithm {
    Ed25519,
    Rsa,
    EcdsaP256,
}

/// The family that an identifier names, if it names one.
pub open spec fn algorithm_named(name: Seq<char>) -> Option<KeyAlgorithm> {
    if name == "ed25519"@ {
        Some(KeyAlgorithm::Ed25519)
    } else if name == "rsa"@ {
        Some(KeyAlgorithm::Rsa)
    } else if name == "ecdsa"@ {
        Some(KeyAlgorithm::EcdsaP256)
    } else {
        None
    }
}

impl KeyAlgorithm {
    /// The identifier of the family that is searched where none is named.
    pub fn default_name() -> (name: &'static str)
        ensures
            algorithm_named(name@) == Some(KeyAlgorithm::Ed25519),
    {
        "ed25519"
    }

    /// Reads an algorithm identifier: `ed25519`, `rsa` or `ecdsa`, in exactly
    /// this spelling. Any other identifier is a configuration error that
    /// carries the identifier.
    pub fn parse(name: &str) -> (parsed: Result<KeyAlgorithm, SearchError>)
        ensures
            match parsed {
                Ok(algorithm) => algorithm_named(name@) == Some(algorithm),
                Err(SearchError::Configuration { algorithm }) => algorithm_named(name@).is_none()
                    && algorithm@ == name@,
                Err(_) => false,
            },
    {
        if same_text(name, "ed25519") {
            Ok(KeyAlgorithm::Ed25519)
        } else if same_text(name, "rsa") {
            Ok(KeyAlgorithm::Rsa)
        } else if same_text(name, "ecdsa") {
            Ok(KeyAlgorithm::EcdsaP256)
        } else {
            Err(SearchError::Configuration { algorithm: String::from_str(name) })
        }
    }
}

/// One search: the prefix wanted, the key family, and the attempt budget.
///
/// Nothing is required of the fields. A prefix that no encoding can start
/// with is found out by searching, not refused beforehand.
#[derive(Clone, Debug)]
pub struct SearchRequest {
    pub desired_prefix: String,
    pub algorithm: KeyAlgorithm,
    pub max_attempts: u32,
}

impl SearchRequest {
    pub fn new(desired_prefix: String, algorithm: KeyAlgorithm, max_attempts: u32) -> (request:
        SearchRequest)
        ensures
            request.desired_prefix == desired_prefix,
            request.algorithm == algorithm,
            request.max_attempts == max_attempts,
    {
        SearchRequest { desired_prefix, algorithm, max_attempts }
    }

    /// Whether the text of a public key is what this request asks for: it
    /// starts with the wanted prefix, byte for byte.
    pub fn accepts(&self, encoded_public_key: &str) -> (accepted: bool)
        ensures
            accepted == has_prefix(encoded_public_key@, self.desired_prefix@),
    {
        starts_with(encoded_public_key, self.desired_prefix.as_str())
    }
}

} // verus!
