//! The network identity: a validated, canonical string-encoded address
//! derived from the blockchain client's account id.

use vstd::prelude::*;
use vstd::string::StrSliceExecFns;
use vstd::string::StringExecFns;

use crate::error::HandlerError;

verus! {

/// Whether `c` belongs to the base-58 alphabet of canonical addresses
/// (digits and letters without `0`, `O`, `I` and `l`).
pub open spec fn is_base58_char(c: char) -> bool {
    ('1' <= c && c <= '9') || ('A' <= c && c <= 'H') || ('J' <= c && c <= 'N') || ('P' <= c && c
        <= 'Z') || ('a' <= c && c <= 'k') || ('m' <= c && c <= 'z')
}

/// A well-formed canonical address: nonempty, at most 64 characters, all of
/// them from the base-58 alphabet.
pub open spec fn valid_address(s: Seq<char>) -> bool {
    1 <= s.len() <= 64 && forall|i: int| 0 <= i < s.len() ==> is_base58_char(#[trigger] s[i])
}

/// Whether `c` belongs to the base-58 alphabet.
pub fn base58_char(c: char) -> (b: bool)
    ensures
        b == is_base58_char(c),
{
    ('1' <= c && c <= '9') || ('A' <= c && c <= 'H') || ('J' <= c && c <= 'N') || ('P' <= c && c
        <= 'Z') || ('a' <= c && c <= 'k') || ('m' <= c && c <= 'z')
}

/// A validated network identity. Immutable once constructed; construction
/// fails on a malformed address.
#[derive(Debug)]
pub struct Hotkey {
    address: String,
}

impl View for Hotkey {
    type V = Seq<char>;

    closed spec fn view(&self) -> Seq<char> {
        self.address@
    }
}

impl Hotkey {
    /// Whether this identity holds a well-formed canonical address. Every
    /// constructed `Hotkey` does.
    pub open spec fn wf(&self) -> bool {
        valid_address(self@)
    }

    /// Validates `address` and wraps it. Succeeds exactly on well-formed
    /// canonical addresses; fails with `InvalidIdentity` otherwise.
    pub fn new(address: String) -> (r: Result<Hotkey, HandlerError>)
        ensures
            match r {
                Ok(h) => h@ == address@ && h.wf(),
                Err(e) => !valid_address(address@) && (e matches HandlerError::InvalidIdentity {
                    cause,
                } && cause@ == "address is not a canonical base-58 string"@),
            },
    {
        let n = address.as_str().unicode_len();
        if n < 1 || n > 64 {
            return Err(Self::invalid());
        }
        let mut i: usize = 0;
        while i < n
            invariant
                0 <= i <= n,
                n == address@.len(),
                forall|j: int| 0 <= j < i ==> is_base58_char(#[trigger] address@[j]),
            decreases n - i,
        {
            if !base58_char(address.as_str().get_char(i)) {
                return Err(Self::invalid());
            }
            i = i + 1;
        }
        Ok(Hotkey { address })
    }

    fn invalid() -> (e: HandlerError)
        ensures
            e matches HandlerError::InvalidIdentity { cause } && cause@
                == "address is not a canonical base-58 string"@,
    {
        HandlerError::InvalidIdentity {
            cause: String::from_str("address is not a canonical base-58 string"),
        }
    }

    /// The canonical string form of this identity.
    pub fn as_str(&self) -> (s: &str)
        ensures
            s@ == self@,
    {
        self.address.as_str()
    }

    /// An owned copy of the canonical string form.
    pub fn canonical(&self) -> (s: String)
        ensures
            s@ == self@,
    {
        self.address.clone()
    }
}

} // verus!
