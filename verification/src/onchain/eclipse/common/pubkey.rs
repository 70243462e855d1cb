//! Addresses of accounts and programs.

use vstd::prelude::*;

verus! {

/// The address of an account or a program: 32 bytes.
#[derive(Clone, Copy, Debug, Eq)]
pub struct Pubkey {
    pub bytes: [u8; 32],
}

impl PartialEq for Pubkey {
    fn eq(&self, other: &Self) -> (same: bool) {
        let mut at: usize = 0;
        while at < 32
            invariant
                at <= 32,
                forall|i: int| 0 <= i < at ==> self.bytes@[i] == other.bytes@[i],
            decreases 32 - at,
        {
            if self.bytes[at] != other.bytes[at] {
                return false;
            }
            at = at + 1;
        }
        assert(self.bytes@ =~= other.bytes@);
        true
    }
}

impl vstd::std_specs::cmp::PartialEqSpecImpl for Pubkey {
    open spec fn obeys_eq_spec() -> bool {
        true
    }

    open spec fn eq_spec(&self, other: &Self) -> bool {
        self.bytes@ == other.bytes@
    }
}

/// The text of an address as `solana_sdk` prints it.
pub uninterp spec fn spec_pubkey_text(bytes: Seq<u8>) -> Seq<char>;

impl Pubkey {
    /// The address as text.
    ///
    /// Calls `Display` of `solana_sdk::pubkey::Pubkey`, which writes the 32
    /// bytes in base58. The contract gives that text a name and says no more
    /// of it.
    #[verifier::external_body]
    pub(crate) fn to_text(&self) -> (text: String)
        ensures
            text@ == spec_pubkey_text(self.bytes@),
    {
        solana_sdk::pubkey::Pubkey::new_from_array(self.bytes).to_string()
    }
}

/// Two addresses are the same exactly when their bytes are.
pub proof fn lemma_pubkey_equal_by_bytes(a: Pubkey, b: Pubkey)
    ensures
        (a.bytes@ == b.bytes@) <==> a == b,
{
    if a.bytes@ == b.bytes@ {
        assert(a.bytes =~= b.bytes);
    }
}

} // verus!
