//! The 32-byte account key.

use vstd::prelude::*;
use vstd::std_specs::convert::FromSpecImpl;
use vstd::std_specs::convert::TryFromSpecImpl;

verus! {

/// Number of bytes in a pubkey
pub const PUBKEY_BYTES: usize = 32;

/// An opaque 32-byte identifier, compared byte by byte.
#[derive(Clone, Copy, Debug, PartialEq)]
pub struct Pubkey(pub(crate) [u8; 32]);

/// The error of std for a slice whose length is not that of the array asked
/// for. It is carried through; nothing is known of what it holds.
#[verifier::external_type_specification]
#[verifier::external_body]
pub struct ExTryFromSliceError(std::array::TryFromSliceError);

impl View for Pubkey {
    type V = Seq<u8>;

    /// The key's 32 bytes, in order.
    closed spec fn view(&self) -> Seq<u8> {
        self.0@
    }
}

/// `<[u8; 32]>::try_from` on a slice: succeeds exactly on a slice of 32
/// elements, and then the array holds a copy of them.
#[verifier::external_body]
fn array_from_slice(bytes: &[u8]) -> (res: Result<[u8; 32], std::array::TryFromSliceError>)
    ensures
        res is Ok <==> bytes@.len() == 32,
        res matches Ok(array) ==> array@ == bytes@,
{
    <[u8; 32]>::try_from(bytes)
}

impl Pubkey {
    /// The key made of the first 32 bytes of a sequence.
    pub closed spec fn spec_from_bytes(bytes: Seq<u8>) -> Pubkey
        recommends
            bytes.len() >= 32,
    {
        Pubkey([
            bytes[0], bytes[1], bytes[2], bytes[3], bytes[4], bytes[5], bytes[6], bytes[7],
            bytes[8], bytes[9], bytes[10], bytes[11], bytes[12], bytes[13], bytes[14], bytes[15],
            bytes[16], bytes[17], bytes[18], bytes[19], bytes[20], bytes[21], bytes[22], bytes[23],
            bytes[24], bytes[25], bytes[26], bytes[27], bytes[28], bytes[29], bytes[30], bytes[31],
        ])
    }

    /// The key made of 32 bytes holds those bytes.
    pub proof fn lemma_spec_from_bytes(bytes: Seq<u8>)
        requires
            bytes.len() == PUBKEY_BYTES,
        ensures
            Self::spec_from_bytes(bytes)@ == bytes,
    {
        assert(Self::spec_from_bytes(bytes).0@ =~= bytes);
    }

    /// A key is the key made of its bytes.
    pub proof fn lemma_from_own_bytes(self)
        ensures
            Self::spec_from_bytes(self@) == self,
    {
        assert(Self::spec_from_bytes(self@).0 =~= self.0);
    }

    /// The key's bytes.
    pub fn to_bytes(self) -> (bytes: [u8; 32])
        ensures
            bytes@ == self@,
    {
        self.0
    }

    /// A key always has exactly 32 bytes.
    pub proof fn lemma_len(self)
        ensures
            self@.len() == PUBKEY_BYTES,
    {
    }

    /// Keys are equal exactly when their bytes are.
    pub proof fn lemma_eq_by_bytes(self, other: Pubkey)
        ensures
            self == other <==> self@ == other@,
    {
        if self@ == other@ {
            assert(self.0 =~= other.0);
        }
    }
}

impl AsRef<[u8]> for Pubkey {
    /// The key's bytes, borrowed.
    fn as_ref(&self) -> (bytes: &[u8])
        ensures
            bytes@ == self@,
    {
        self.0.as_slice()
    }
}

impl From<[u8; 32]> for Pubkey {
    /// The key with the given bytes.
    #[inline]
    fn from(from: [u8; 32]) -> (key: Self)
        ensures
            key@ == from@,
    {
        let key = Self(from);
        proof {
            Pubkey::lemma_spec_from_bytes(from@);
            key.lemma_eq_by_bytes(Pubkey::spec_from_bytes(from@));
        }
        key
    }
}

impl FromSpecImpl<[u8; 32]> for Pubkey {
    open spec fn obeys_from_spec() -> bool {
        true
    }

    open spec fn from_spec(from: [u8; 32]) -> Self {
        Pubkey::spec_from_bytes(from@)
    }
}

impl TryFrom<&[u8]> for Pubkey {
    type Error = std::array::TryFromSliceError;

    /// The key with the bytes of a slice, which has to be 32 bytes long.
    #[inline]
    fn try_from(pubkey: &[u8]) -> (res: Result<Self, Self::Error>)
        ensures
            res is Ok <==> pubkey@.len() == PUBKEY_BYTES,
            res matches Ok(key) ==> key@ == pubkey@,
    {
        match array_from_slice(pubkey) {
            Ok(array) => Ok(Pubkey::from(array)),
            Err(e) => Err(e),
        }
    }
}

/// The error of this conversion is a value of std that no specification can
/// name, so the conversion is not claimed to equal a specification function:
/// what it returns is stated on `try_from` itself.
impl TryFromSpecImpl<&[u8]> for Pubkey {
    open spec fn obeys_try_from_spec() -> bool {
        false
    }

    open spec fn try_from_spec(pubkey: &[u8]) -> Result<Self, std::array::TryFromSliceError> {
        if pubkey@.len() == PUBKEY_BYTES {
            Ok(Pubkey::spec_from_bytes(pubkey@))
        } else {
            Err(arbitrary())
        }
    }
}

impl TryFrom<Vec<u8>> for Pubkey {
    type Error = Vec<u8>;

    /// The key with the bytes of a vector, which has to be 32 bytes long; a
    /// vector of another length comes back as the error.
    #[inline]
    fn try_from(pubkey: Vec<u8>) -> (res: Result<Self, Self::Error>)
        ensures
            res is Ok <==> pubkey@.len() == PUBKEY_BYTES,
            res matches Ok(key) ==> key@ == pubkey@,
            res matches Err(bytes) ==> bytes == pubkey,
    {
        match array_from_slice(pubkey.as_slice()) {
            Ok(array) => {
                let key = Pubkey::from(array);
                proof {
                    Pubkey::lemma_spec_from_bytes(pubkey@);
                    key.lemma_eq_by_bytes(Pubkey::spec_from_bytes(pubkey@));
                }
                Ok(key)
            },
            Err(_) => Err(pubkey),
        }
    }
}

impl TryFromSpecImpl<Vec<u8>> for Pubkey {
    open spec fn obeys_try_from_spec() -> bool {
        true
    }

    open spec fn try_from_spec(pubkey: Vec<u8>) -> Result<Self, Vec<u8>> {
        if pubkey@.len() == PUBKEY_BYTES {
            Ok(Pubkey::spec_from_bytes(pubkey@))
        } else {
            Err(pubkey)
        }
    }
}

} // verus!
