//! Tracked assets, their source-ledger addresses, and the observations read for them.

use vstd::prelude::*;

use crate::decimal::Decimal;

verus! {

/// A 20-byte source-ledger contract address.
#[derive(Clone, Copy, Debug, PartialEq, Eq, Hash)]
pub struct Address {
    pub bytes: [u8; 20],
}

impl View for Address {
    type V = Seq<u8>;

    open spec fn view(&self) -> Seq<u8> {
        self.bytes@
    }
}

impl Address {
    /// The address with these bytes.
    pub fn new(bytes: [u8; 20]) -> (r: Address)
        ensures
            r@ == bytes@,
    {
        Address { bytes }
    }

    /// Whether both addresses hold the same bytes.
    pub fn same_as(&self, other: &Address) -> (r: bool)
        ensures
            r == (self@ == other@),
    {
        let mut i: usize = 0;
        while i < 20
            invariant
                i <= 20,
                self@.len() == 20,
                other@.len() == 20,
                forall|j: int| 0 <= j < i ==> self@[j] == other@[j],
            decreases 20 - i,
        {
            if self.bytes[i] != other.bytes[i] {
                return false;
            }
            i = i + 1;
        }
        assert(self@ =~= other@);
        true
    }
}

/// A tracked asset: the source contract whose rate is read, the decimal scale of its
/// raw reading, and the base/quote symbols it is shown with.
#[derive(Clone, Debug, PartialEq, Eq, Hash)]
pub struct Asset {
    pub ethereum_contract: Address,
    pub decimals: u32,
    pub base: String,
    pub quote: String,
}

/// The identity of an asset: all four fields.
pub struct AssetView {
    pub ethereum_contract: Seq<u8>,
    pub decimals: u32,
    pub base: Seq<char>,
    pub quote: Seq<char>,
}

impl View for Asset {
    type V = AssetView;

    open spec fn view(&self) -> AssetView {
        AssetView {
            ethereum_contract: self.ethereum_contract@,
            decimals: self.decimals,
            base: self.base@,
            quote: self.quote@,
        }
    }
}

impl Asset {
    /// An asset with these fields.
    pub fn new(ethereum_contract: Address, decimals: u32, base: String, quote: String) -> (r: Asset)
        ensures
            r.ethereum_contract == ethereum_contract,
            r.decimals == decimals,
            r.base == base,
            r.quote == quote,
    {
        Asset { ethereum_contract, decimals, base, quote }
    }

    /// Whether both assets agree on every field.
    pub fn same_as(&self, other: &Asset) -> (r: bool)
        ensures
            r == (self@ == other@),
    {
        let same = self.ethereum_contract.same_as(&other.ethereum_contract)
            && self.decimals == other.decimals && self.base == other.base
            && self.quote == other.quote;
        same
    }

    /// A copy of this asset.
    pub fn duplicate(&self) -> (r: Asset)
        ensures
            r@ == self@,
            r.ethereum_contract == self.ethereum_contract,
    {
        Asset {
            ethereum_contract: self.ethereum_contract,
            decimals: self.decimals,
            base: self.base.clone(),
            quote: self.quote.clone(),
        }
    }
}

/// One observation: the asset's normalized value at a time, in seconds since the epoch.
#[derive(Clone, Debug)]
pub struct QuotePrice {
    pub asset: Asset,
    pub value: Decimal,
    pub timestamp: u64,
}

impl QuotePrice {
    /// An observation of `asset` with this value and time.
    pub fn new(asset: Asset, value: Decimal, timestamp: u64) -> (r: QuotePrice)
        ensures
            r.asset == asset,
            r.value == value,
            r.timestamp == timestamp,
    {
        QuotePrice { asset, value, timestamp }
    }

    /// The key that observations of this asset are recorded under: its source contract.
    pub open spec fn key(&self) -> Seq<u8> {
        self.asset.ethereum_contract@
    }

    /// A copy of this observation.
    pub fn duplicate(&self) -> (r: QuotePrice)
        ensures
            r.asset@ == self.asset@,
            r.asset.ethereum_contract == self.asset.ethereum_contract,
            r.value == self.value,
            r.timestamp == self.timestamp,
    {
        QuotePrice { asset: self.asset.duplicate(), value: self.value, timestamp: self.timestamp }
    }
}

} // verus!
