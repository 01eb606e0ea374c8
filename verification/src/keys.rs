use vstd::prelude::*;
use vstd::std_specs::cmp::PartialEqSpecImpl;

verus! {

/// A 32-byte account address, as the runtime hands it to the program.
#[derive(Clone, Copy, Debug)]
pub struct Pubkey(pub [u8; 32]);

impl View for Pubkey {
    type V = Seq<u8>;

    open spec fn view(&self) -> Seq<u8> {
        self.0@
    }
}

impl Pubkey {
    /// Two addresses are the same exactly when their bytes are.
    pub broadcast proof fn lemma_view_injective(a: Pubkey, b: Pubkey)
        requires
            #[trigger] a@ == #[trigger] b@,
        ensures
            a == b,
    {
        assert(a.0@ =~= b.0@);
        vstd::array::axiom_array_ext_equal(a.0, b.0);
    }

    /// Byte-wise comparison of two addresses.
    pub fn same_as(&self, other: &Pubkey) -> (res: bool)
        ensures
            res == (self@ == other@),
            res == (*self == *other),
    {
        let mut i: usize = 0;
        while i < 32
            invariant
                i <= 32,
                forall|j: int| 0 <= j < i ==> self@[j] == other@[j],
            decreases 32 - i,
        {
            if self.0[i] != other.0[i] {
                assert(self@[i as int] != other@[i as int]);
                return false;
            }
            i = i + 1;
        }
        assert(self@ =~= other@);
        proof {
            Pubkey::lemma_view_injective(*self, *other);
        }
        true
    }

    /// The address used as a seed: its 32 bytes in order.
    pub fn to_seed(&self) -> (res: Vec<u8>)
        ensures
            res@ == self@,
    {
        vstd::slice::slice_to_vec(self.0.as_slice())
    }
}

impl PartialEq for Pubkey {
    fn eq(&self, other: &Pubkey) -> (res: bool) {
        self.same_as(other)
    }
}

impl Eq for Pubkey {}

impl PartialEqSpecImpl for Pubkey {
    open spec fn obeys_eq_spec() -> bool {
        true
    }

    open spec fn eq_spec(&self, other: &Pubkey) -> bool {
        *self == *other
    }
}

} // verus!
