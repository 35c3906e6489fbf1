//! The administrator store: the single address allowed to mint, rotate the
//! administrator and freeze accounts.

use vstd::prelude::*;
use crate::contract::Token;
use crate::storage_types::Address;

verus! {

/// Whether an administrator has been stored, i.e. the ledger is initialized.
pub fn has_administrator(t: &Token) -> (r: bool)
    ensures
        r == t.admin is Some,
{
    t.admin.is_some()
}

/// The administrator. It must have been stored.
pub fn read_administrator(t: &Token) -> (r: Address)
    requires
        t.admin is Some,
    ensures
        t.admin == Some(r),
{
    t.admin.unwrap()
}

/// Stores `id` as the administrator, replacing any earlier one.
pub fn write_administrator(t: &mut Token, id: Address)
    ensures
        final(t).admin == Some(id),
        final(t).metadata == old(t).metadata,
        final(t).frozen@ == old(t).frozen@,
        final(t).instance_live_until == old(t).instance_live_until,
        final(t).balances@ == old(t).balances@,
        final(t).allowances@ == old(t).allowances@,
{
    t.admin = Some(id);
}

} // verus!
