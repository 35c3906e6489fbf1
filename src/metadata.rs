//! The token's metadata record: decimal places, name and symbol.

use vstd::prelude::*;
use crate::contract::Token;

verus! {

/// Decimal places, name and symbol, written once when the ledger is initialized.
pub struct TokenMetadata {
    pub decimal: u32,
    pub name: String,
    pub symbol: String,
}

/// Decimal places of the token. The metadata must have been written.
pub fn read_decimal(t: &Token) -> (r: u32)
    requires
        t.metadata is Some,
    ensures
        r == t.metadata->Some_0.decimal,
{
    t.metadata.as_ref().unwrap().decimal
}

/// Name of the token. The metadata must have been written.
pub fn read_name(t: &Token) -> (r: String)
    requires
        t.metadata is Some,
    ensures
        r@ == t.metadata->Some_0.name@,
{
    t.metadata.as_ref().unwrap().name.clone()
}

/// Symbol of the token. The metadata must have been written.
pub fn read_symbol(t: &Token) -> (r: String)
    requires
        t.metadata is Some,
    ensures
        r@ == t.metadata->Some_0.symbol@,
{
    t.metadata.as_ref().unwrap().symbol.clone()
}

/// Stores the metadata record, replacing any earlier one.
pub fn write_metadata(t: &mut Token, metadata: TokenMetadata)
    ensures
        final(t).metadata == Some(metadata),
        final(t).admin == old(t).admin,
        final(t).frozen@ == old(t).frozen@,
        final(t).instance_live_until == old(t).instance_live_until,
        final(t).balances@ == old(t).balances@,
        final(t).allowances@ == old(t).allowances@,
{
    t.metadata = Some(metadata);
}

} // verus!
