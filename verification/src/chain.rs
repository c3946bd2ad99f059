//! Chain-level values: 32-byte hashes with their base58 text, validated
//! account ids, and the chain id.

use vstd::prelude::*;
use fastnear_primitives::near_indexer_primitives::types::AccountId as NearAccountId;
use fastnear_primitives::near_indexer_primitives::CryptoHash as NearCryptoHash;

verus! {

/// The base58 text that near-primitives prints for a 32-byte hash.
pub uninterp spec fn base58_of_hash(bytes: Seq<u8>) -> Seq<char>;

/// The 32 bytes that near-primitives decodes from a base58 text, if any.
pub uninterp spec fn hash_of_base58(text: Seq<char>) -> Option<Seq<u8>>;

/// `Display` of `near_primitives::hash::CryptoHash` (base58 through `bs58`).
/// Claimed: the text is `base58_of_hash` of the bytes, and `CryptoHash::from_str`
/// decodes that text back to the same bytes (base58 is an encoding; the
/// crate's own tests check both directions on the same pairs).
#[verifier::external_body]
fn encode_hash(bytes: [u8; 32]) -> (text: String)
    ensures
        text@ == base58_of_hash(bytes@),
        hash_of_base58(text@) == Some(bytes@),
{
    NearCryptoHash(bytes).to_string()
}

/// `FromStr` of `near_primitives::hash::CryptoHash`: base58 decoding that
/// succeeds only when exactly 32 bytes come out.
/// Claimed: the outcome is `hash_of_base58` of the text, and a text that
/// decodes is the very text that `Display` prints for the decoded bytes
/// (bs58 decoding and encoding are inverse: each leading `1` stands for one
/// leading zero byte, and the rest is the big-endian value in base 58 with
/// no leading zero digit).
#[verifier::external_body]
fn decode_hash(text: &str) -> (r: Option<[u8; 32]>)
    ensures
        match r {
            Some(b) => hash_of_base58(text@) == Some(b@) && base58_of_hash(b@) == text@,
            None => hash_of_base58(text@) is None,
        },
{
    match text.parse::<NearCryptoHash>() {
        Ok(h) => Some(h.0),
        Err(_) => None,
    }
}

/// A 32-byte hash (receipt id, transaction hash).
#[derive(Clone, Copy, Debug, PartialEq, Eq)]
pub struct CryptoHash(pub [u8; 32]);

impl CryptoHash {
    /// The base58 text of the hash.
    pub fn to_string(&self) -> (text: String)
        ensures
            text@ == base58_of_hash(self.0@),
            hash_of_base58(text@) == Some(self.0@),
    {
        encode_hash(self.0)
    }

    /// Decodes a base58 text; `None` unless it decodes to exactly 32 bytes.
    /// Printing a decoded hash gives back the text.
    pub fn from_str(text: &str) -> (r: Option<CryptoHash>)
        ensures
            match r {
                Some(h) => hash_of_base58(text@) == Some(h.0@) && base58_of_hash(h.0@) == text@,
                None => hash_of_base58(text@) is None,
            },
    {
        match decode_hash(text) {
            Some(b) => Some(CryptoHash(b)),
            None => None,
        }
    }
}


/// A separator of account id parts.
pub open spec fn is_account_separator(c: char) -> bool {
    c == '-' || c == '_' || c == '.'
}

/// A character allowed in an account id: lower-case ASCII letter, digit or separator.
pub open spec fn is_account_char(c: char) -> bool {
    ('a' <= c && c <= 'z') || ('0' <= c && c <= '9') || is_account_separator(c)
}

/// What near-account-id accepts as an account id: 2 to 64 characters from
/// `a-z0-9-_.`, neither starting nor ending with a separator, and with no
/// two separators in a row.
pub open spec fn valid_account_id(s: Seq<char>) -> bool {
    &&& 2 <= s.len() <= 64
    &&& forall|i: int| 0 <= i < s.len() ==> is_account_char(#[trigger] s[i])
    &&& !is_account_separator(s[0])
    &&& !is_account_separator(s[s.len() - 1])
    &&& forall|i: int|
        0 <= i < s.len() - 1 ==> !(is_account_separator(#[trigger] s[i]) && is_account_separator(
            s[i + 1],
        ))
}

/// `FromStr` of `near_account_id::AccountId` (reached through fastnear-primitives).
/// Claimed: it succeeds exactly on `valid_account_id`, which restates
/// `near_account_id::validation::validate` (byte length 2..=64, then the
/// character and separator rules; for the allowed characters, all ASCII,
/// bytes and characters coincide, and any other character is refused anyway).
#[verifier::external_body]
fn account_id_accepts(text: &str) -> (ok: bool)
    ensures
        ok == valid_account_id(text@),
{
    text.parse::<NearAccountId>().is_ok()
}

/// A validated NEAR account id.
#[derive(Debug)]
pub struct AccountId {
    id: String,
}

impl View for AccountId {
    type V = Seq<char>;

    closed spec fn view(&self) -> Seq<char> {
        self.id@
    }
}

impl AccountId {
    #[verifier::type_invariant]
    pub(crate) open spec fn wf(self) -> bool {
        valid_account_id(self@)
    }

    /// Parses and validates an account id.
    pub fn parse(text: &str) -> (r: Option<AccountId>)
        ensures
            r is Some <==> valid_account_id(text@),
            r matches Some(a) ==> a@ == text@,
    {
        if account_id_accepts(text) {
            Some(AccountId { id: String::from_str(text) })
        } else {
            None
        }
    }

    /// The account id as text.
    pub fn as_str(&self) -> (s: &str)
        ensures
            s@ == self@,
    {
        self.id.as_str()
    }

    /// The account id as an owned string (what `Display` prints).
    pub fn to_string(&self) -> (s: String)
        ensures
            s@ == self@,
    {
        self.id.clone()
    }
}

impl Clone for AccountId {
    fn clone(&self) -> (r: Self)
        ensures
            r@ == self@,
    {
        proof {
            use_type_invariant(self);
        }
        AccountId { id: self.id.clone() }
    }
}


/// The NEAR network an indexer follows.
#[derive(Debug, Clone, Copy, PartialEq, Eq, Structural)]
pub enum ChainId {
    Mainnet,
    Testnet,
}

impl ChainId {
    /// The chain id's name: `mainnet` or `testnet`.
    pub open spec fn name_of(self) -> Seq<char> {
        match self {
            ChainId::Mainnet => "mainnet"@,
            ChainId::Testnet => "testnet"@,
        }
    }

    /// Distinct chain ids have distinct names, so reading a chain id's name
    /// back gives the same chain id.
    pub proof fn lemma_name_identifies(a: ChainId, b: ChainId)
        ensures
            a.name_of() == b.name_of() ==> a == b,
    {
        reveal_strlit("mainnet");
        reveal_strlit("testnet");
        if a != b {
            assert(a.name_of()[0] != b.name_of()[0]);
        }
    }

    /// The chain id's name, as `Display` prints it.
    pub fn to_string(&self) -> (s: String)
        ensures
            s@ == self.name_of(),
    {
        match self {
            ChainId::Mainnet => String::from_str("mainnet"),
            ChainId::Testnet => String::from_str("testnet"),
        }
    }

    /// Reads a chain id from its name; any other text is refused with
    /// `Invalid chain id: ` followed by the text.
    pub fn try_from(value: String) -> (r: Result<ChainId, String>)
        ensures
            match r {
                Ok(c) => c.name_of() == value@,
                Err(e) => value@ != "mainnet"@ && value@ != "testnet"@ && e@ == "Invalid chain id: "@
                    + value@,
            },
    {
        if value == String::from_str("mainnet") {
            Ok(ChainId::Mainnet)
        } else if value == String::from_str("testnet") {
            Ok(ChainId::Testnet)
        } else {
            Err(String::from_str("Invalid chain id: ").concat(value.as_str()))
        }
    }
}

} // verus!
