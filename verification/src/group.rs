//! Account identities and the administrative group that owns banks.

use crate::errors::MarginfiResult;
use vstd::prelude::*;

verus! {

/// The identity of an account: 32 bytes.
#[derive(Clone, Copy, Debug, PartialEq, Eq)]
pub struct Pubkey {
    pub bytes: [u8; 32],
}

impl View for Pubkey {
    type V = Seq<u8>;

    open spec fn view(&self) -> Seq<u8> {
        self.bytes@
    }
}

/// The bytes of the identity that stands for "none": 32 zero bytes.
pub open spec fn zero_key() -> Seq<u8> {
    Seq::new(32, |i: int| 0u8)
}

impl Default for Pubkey {
    fn default() -> (r: Self)
        ensures
            r@ == zero_key(),
    {
        let r = Pubkey { bytes: [0u8; 32] };
        assert(r@ =~= zero_key());
        r
    }
}

impl Pubkey {
    /// Whether two identities are the same, byte for byte.
    pub fn same(&self, other: &Pubkey) -> (r: bool)
        ensures
            r == (self@ == other@),
    {
        let mut i: usize = 0;
        while i < 32
            invariant
                i <= 32,
                forall|j: int| 0 <= j < i ==> self.bytes[j] == other.bytes[j],
            decreases 32 - i,
        {
            if self.bytes[i] != other.bytes[i] {
                return false;
            }
            i += 1;
        }
        assert(self@ =~= other@);
        true
    }
}

/// The administrative container of a set of banks.
#[derive(Clone, Copy, Debug, PartialEq, Eq)]
pub struct MarginfiGroup {
    /// Who may change the group and its banks.
    pub admin: Pubkey,
}

/// A change to a group: each field that is present replaces the group's.
#[derive(Clone, Copy, Debug, PartialEq, Eq)]
pub struct GroupConfig {
    pub admin: Option<Pubkey>,
}

impl Default for MarginfiGroup {
    fn default() -> (r: Self)
        ensures
            r.admin@ == zero_key(),
    {
        MarginfiGroup { admin: Pubkey::default() }
    }
}

impl Default for GroupConfig {
    fn default() -> (r: Self)
        ensures
            r.admin is None,
    {
        GroupConfig { admin: None }
    }
}

impl MarginfiGroup {
    /// Applies a change to the group: the administrator is replaced when the
    /// change names one. Never refused.
    pub fn configure(&mut self, config: GroupConfig) -> (res: MarginfiResult<()>)
        ensures
            res is Ok,
            final(self).admin == match config.admin {
                Some(admin) => admin,
                None => old(self).admin,
            },
    {
        if let Some(admin) = config.admin {
            self.admin = admin;
        }
        Ok(())
    }

    /// Sets the administrator of a group that is being created.
    pub fn set_initial_configuration(&mut self, admin_pk: Pubkey)
        ensures
            final(self).admin == admin_pk,
    {
        self.admin = admin_pk;
    }
}

} // verus!
