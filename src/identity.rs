use vstd::prelude::*;

verus! {

/// Number of bytes in an account address.
pub const IDENTITY_LEN: usize = 32;

/// An account address: the identity of a player, an owner or a derived record.
#[derive(Clone, Copy, Debug, PartialEq, Eq)]
pub struct Identity {
    pub bytes: [u8; 32],
}

impl Identity {
    /// The null identity: every byte zero.
    pub open spec fn is_null(self) -> bool {
        forall|i: int| 0 <= i < 32 ==> self.bytes[i] == 0
    }

    pub fn from_bytes(bytes: [u8; 32]) -> (r: Identity)
        ensures
            r.bytes == bytes,
    {
        Identity { bytes }
    }

    /// The null identity, which stands for "nobody".
    pub fn null() -> (r: Identity)
        ensures
            r.is_null(),
    {
        let bytes: [u8; 32] = [0u8; 32];
        let r = Identity { bytes };
        assert(forall|i: int| 0 <= i < 32 ==> r.bytes[i] == bytes@[i]);
        r
    }

    pub fn is_null_identity(&self) -> (r: bool)
        ensures
            r == self.is_null(),
    {
        let mut i: usize = 0;
        while i < IDENTITY_LEN
            invariant
                0 <= i <= 32,
                forall|j: int| 0 <= j < i ==> self.bytes[j] == 0,
            decreases 32 - i,
        {
            if self.bytes[i] != 0 {
                return false;
            }
            i = i + 1;
        }
        true
    }

    /// Byte-for-byte equality of two identities.
    pub fn same(&self, other: &Identity) -> (r: bool)
        ensures
            r == (*self == *other),
    {
        let mut i: usize = 0;
        while i < IDENTITY_LEN
            invariant
                0 <= i <= 32,
                forall|j: int| 0 <= j < i ==> self.bytes[j] == other.bytes[j],
            decreases 32 - i,
        {
            if self.bytes[i] != other.bytes[i] {
                return false;
            }
            i = i + 1;
        }
        assert(self.bytes =~= other.bytes);
        true
    }
}

/// Two identities are the same exactly when their byte sequences are.
pub proof fn lemma_same_bytes(a: Identity, b: Identity)
    ensures
        (a == b) <==> (a.bytes@ == b.bytes@),
{
    if a.bytes@ == b.bytes@ {
        assert(a.bytes =~= b.bytes);
    }
}

} // verus!
