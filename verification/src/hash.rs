use vstd::prelude::*;

verus! {

/// A Holochain hash (action, entry, agent key or any linkable address), held as
/// its raw 39 bytes: 3 bytes of type prefix, 32 bytes of digest, 4 bytes of DHT
/// location.
#[derive(Clone, Debug, PartialEq, Eq)]
pub struct Address {
    pub raw: Vec<u8>,
}

impl View for Address {
    type V = Seq<u8>;

    open spec fn view(&self) -> Seq<u8> {
        self.raw@
    }
}

impl Address {
    /// Wraps raw hash bytes.
    pub fn from_raw(raw: Vec<u8>) -> (h: Address)
        ensures
            h@ == raw@,
    {
        Address { raw }
    }

    /// Whether two hashes are the same address (byte for byte).
    pub fn same_as(&self, other: &Address) -> (r: bool)
        ensures
            r == (self@ == other@),
    {
        if self.raw.len() != other.raw.len() {
            return false;
        }
        let n = self.raw.len();
        let mut i: usize = 0;
        while i < n
            invariant
                n == self.raw@.len(),
                n == other.raw@.len(),
                i <= n,
                forall|j: int| 0 <= j < i ==> self.raw@[j] == other.raw@[j],
            decreases n - i,
        {
            if self.raw[i] != other.raw[i] {
                return false;
            }
            i = i + 1;
        }
        assert(self.raw@ =~= other.raw@);
        true
    }

    /// A copy of this hash.
    pub fn copied(&self) -> (h: Address)
        ensures
            h@ == self@,
    {
        let raw = self.raw.clone();
        assert(raw@ =~= self.raw@);
        Address { raw }
    }
}

} // verus!
