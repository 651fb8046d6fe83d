//! The liquidation router, the liquidation pairs and the assets of each
//! supported chain, and the lookups over them.

use crate::primitives::Address;
use vstd::prelude::*;

verus! {

/// Network chain IDs.
pub const MAINNET_CHAIN_ID: u64 = 1;

pub const ARBITRUM_CHAIN_ID: u64 = 42161;

pub const BASE_CHAIN_ID: u64 = 8453;

pub const OPTIMISM_CHAIN_ID: u64 = 10;

/// Underlying asset decimals.
pub const DAI_DECIMALS: u8 = 18;

pub const USDC_DECIMALS: u8 = 6;

pub const USDCE_DECIMALS: u8 = 6;

pub const WETH_DECIMALS: u8 = 18;

pub const POOL_DECIMALS: u8 = 18;

/// A lookup that the tables cannot answer. Each is a fault of the
/// configuration and ends the run.
#[derive(Clone, Copy, Debug, PartialEq, Eq, Structural)]
pub enum LookupError {
    /// The tables hold nothing for the chain.
    UnknownChain,
    /// The chain is known, the liquidation pair is not.
    UnknownPair,
    /// The chain is known, the asset is not.
    UnknownAsset,
}

/// The DAI token on Optimism.
pub open spec fn dai_optimism_bytes() -> Seq<u8> {
    seq![
        0xdau8, 0x10u8, 0x00u8, 0x9cu8, 0xbdu8, 0x5du8, 0x07u8, 0xddu8, 0x0cu8, 0xecu8, 0xc6u8, 0x61u8, 0x61u8, 0xfcu8, 0x93u8, 0xd7u8, 0xc9u8, 0x00u8, 0x0du8, 0xa1u8,
    ]
}

/// The DAI token on Optimism.
pub fn dai_optimism_address() -> (r: Address)
    ensures
        r@ == dai_optimism_bytes(),
{
    let r = Address {
        bytes: [
            0xda, 0x10, 0x00, 0x9c, 0xbd, 0x5d, 0x07, 0xdd, 0x0c, 0xec, 0xc6, 0x61, 0x61, 0xfc, 0x93, 0xd7, 0xc9, 0x00, 0x0d, 0xa1,
        ],
    };
    assert(r@ =~= dai_optimism_bytes());
    r
}

/// The POOL token on Optimism, in which every liquidation is paid.
pub open spec fn pool_optimism_bytes() -> Seq<u8> {
    seq![
        0x39u8, 0x5au8, 0xe5u8, 0x2bu8, 0xb1u8, 0x7au8, 0xefu8, 0x68u8, 0xc2u8, 0x88u8, 0x8du8, 0x94u8, 0x17u8, 0x36u8, 0xa7u8, 0x1du8, 0xc6u8, 0xd4u8, 0xe1u8, 0x25u8,
    ]
}

/// The POOL token on Optimism, in which every liquidation is paid.
pub fn pool_optimism_address() -> (r: Address)
    ensures
        r@ == pool_optimism_bytes(),
{
    let r = Address {
        bytes: [
            0x39, 0x5a, 0xe5, 0x2b, 0xb1, 0x7a, 0xef, 0x68, 0xc2, 0x88, 0x8d, 0x94, 0x17, 0x36, 0xa7, 0x1d, 0xc6, 0xd4, 0xe1, 0x25,
        ],
    };
    assert(r@ =~= pool_optimism_bytes());
    r
}

/// The USDC token on Optimism.
pub open spec fn usdc_optimism_bytes() -> Seq<u8> {
    seq![
        0x0bu8, 0x2cu8, 0x63u8, 0x9cu8, 0x53u8, 0x38u8, 0x13u8, 0xf4u8, 0xaau8, 0x9du8, 0x78u8, 0x37u8, 0xcau8, 0xf6u8, 0x26u8, 0x53u8, 0xd0u8, 0x97u8, 0xffu8, 0x85u8,
    ]
}

/// The USDC token on Optimism.
pub fn usdc_optimism_address() -> (r: Address)
    ensures
        r@ == usdc_optimism_bytes(),
{
    let r = Address {
        bytes: [
            0x0b, 0x2c, 0x63, 0x9c, 0x53, 0x38, 0x13, 0xf4, 0xaa, 0x9d, 0x78, 0x37, 0xca, 0xf6, 0x26, 0x53, 0xd0, 0x97, 0xff, 0x85,
        ],
    };
    assert(r@ =~= usdc_optimism_bytes());
    r
}

/// The bridged USDC.e token on Optimism.
pub open spec fn usdce_optimism_bytes() -> Seq<u8> {
    seq![
        0x7fu8, 0x5cu8, 0x76u8, 0x4cu8, 0xbcu8, 0x14u8, 0xf9u8, 0x66u8, 0x9bu8, 0x88u8, 0x83u8, 0x7cu8, 0xa1u8, 0x49u8, 0x0cu8, 0xcau8, 0x17u8, 0xc3u8, 0x16u8, 0x07u8,
    ]
}

/// The bridged USDC.e token on Optimism.
pub fn usdce_optimism_address() -> (r: Address)
    ensures
        r@ == usdce_optimism_bytes(),
{
    let r = Address {
        bytes: [
            0x7f, 0x5c, 0x76, 0x4c, 0xbc, 0x14, 0xf9, 0x66, 0x9b, 0x88, 0x83, 0x7c, 0xa1, 0x49, 0x0c, 0xca, 0x17, 0xc3, 0x16, 0x07,
        ],
    };
    assert(r@ =~= usdce_optimism_bytes());
    r
}

/// The WETH token on Optimism.
pub open spec fn weth_optimism_bytes() -> Seq<u8> {
    seq![
        0x42u8, 0x00u8, 0x00u8, 0x00u8, 0x00u8, 0x00u8, 0x00u8, 0x00u8, 0x00u8, 0x00u8, 0x00u8, 0x00u8, 0x00u8, 0x00u8, 0x00u8, 0x00u8, 0x00u8, 0x00u8, 0x00u8, 0x06u8,
    ]
}

/// The WETH token on Optimism.
pub fn weth_optimism_address() -> (r: Address)
    ensures
        r@ == weth_optimism_bytes(),
{
    let r = Address {
        bytes: [
            0x42, 0x00, 0x00, 0x00, 0x00, 0x00, 0x00, 0x00, 0x00, 0x00, 0x00, 0x00, 0x00, 0x00, 0x00, 0x00, 0x00, 0x00, 0x00, 0x06,
        ],
    };
    assert(r@ =~= weth_optimism_bytes());
    r
}

/// The liquidation pair of the DAI prize vault.
pub open spec fn pdai_liquidation_pair_bytes() -> Seq<u8> {
    seq![
        0x71u8, 0x69u8, 0x52u8, 0x6du8, 0xabu8, 0xfdu8, 0x1cu8, 0xddu8, 0xe1u8, 0x74u8, 0xa0u8, 0xa7u8, 0xd8u8, 0xc7u8, 0x5du8, 0xebu8, 0x58u8, 0x2du8, 0x09u8, 0x90u8,
    ]
}

/// The liquidation pair of the DAI prize vault.
pub fn pdai_liquidation_pair_address() -> (r: Address)
    ensures
        r@ == pdai_liquidation_pair_bytes(),
{
    let r = Address {
        bytes: [
            0x71, 0x69, 0x52, 0x6d, 0xab, 0xfd, 0x1c, 0xdd, 0xe1, 0x74, 0xa0, 0xa7, 0xd8, 0xc7, 0x5d, 0xeb, 0x58, 0x2d, 0x09, 0x90,
        ],
    };
    assert(r@ =~= pdai_liquidation_pair_bytes());
    r
}

/// The liquidation pair of the USDC prize vault.
pub open spec fn pusdc_liquidation_pair_bytes() -> Seq<u8> {
    seq![
        0x21u8, 0x7eu8, 0xf9u8, 0xc3u8, 0x55u8, 0xf7u8, 0xebu8, 0x59u8, 0xc7u8, 0x89u8, 0xe0u8, 0x47u8, 0x1du8, 0xc1u8, 0xf4u8, 0x39u8, 0x8eu8, 0x00u8, 0x4eu8, 0xdcu8,
    ]
}

/// The liquidation pair of the USDC prize vault.
pub fn pusdc_liquidation_pair_address() -> (r: Address)
    ensures
        r@ == pusdc_liquidation_pair_bytes(),
{
    let r = Address {
        bytes: [
            0x21, 0x7e, 0xf9, 0xc3, 0x55, 0xf7, 0xeb, 0x59, 0xc7, 0x89, 0xe0, 0x47, 0x1d, 0xc1, 0xf4, 0x39, 0x8e, 0x00, 0x4e, 0xdc,
        ],
    };
    assert(r@ =~= pusdc_liquidation_pair_bytes());
    r
}

/// The liquidation pair of the USDC.e prize vault.
pub open spec fn pusdce_liquidation_pair_bytes() -> Seq<u8> {
    seq![
        0xe7u8, 0x68u8, 0x07u8, 0x01u8, 0xa2u8, 0x79u8, 0x4eu8, 0x6eu8, 0x0au8, 0x38u8, 0xacu8, 0x72u8, 0x63u8, 0x0cu8, 0x53u8, 0x5bu8, 0x97u8, 0x20u8, 0xdau8, 0x5bu8,
    ]
}

/// The liquidation pair of the USDC.e prize vault.
pub fn pusdce_liquidation_pair_address() -> (r: Address)
    ensures
        r@ == pusdce_liquidation_pair_bytes(),
{
    let r = Address {
        bytes: [
            0xe7, 0x68, 0x07, 0x01, 0xa2, 0x79, 0x4e, 0x6e, 0x0a, 0x38, 0xac, 0x72, 0x63, 0x0c, 0x53, 0x5b, 0x97, 0x20, 0xda, 0x5b,
        ],
    };
    assert(r@ =~= pusdce_liquidation_pair_bytes());
    r
}

/// The liquidation pair of the WETH prize vault.
pub open spec fn pweth_liquidation_pair_bytes() -> Seq<u8> {
    seq![
        0xdeu8, 0x5du8, 0xefu8, 0xa1u8, 0x24u8, 0xfau8, 0xaau8, 0x6du8, 0x85u8, 0xe9u8, 0x8eu8, 0x56u8, 0xb3u8, 0x66u8, 0x16u8, 0xd2u8, 0x49u8, 0xe5u8, 0x43u8, 0xcau8,
    ]
}

/// The liquidation pair of the WETH prize vault.
pub fn pweth_liquidation_pair_address() -> (r: Address)
    ensures
        r@ == pweth_liquidation_pair_bytes(),
{
    let r = Address {
        bytes: [
            0xde, 0x5d, 0xef, 0xa1, 0x24, 0xfa, 0xaa, 0x6d, 0x85, 0xe9, 0x8e, 0x56, 0xb3, 0x66, 0x16, 0xd2, 0x49, 0xe5, 0x43, 0xca,
        ],
    };
    assert(r@ =~= pweth_liquidation_pair_bytes());
    r
}

/// The liquidation router on Optimism.
pub open spec fn optimism_liquidation_router_bytes() -> Seq<u8> {
    seq![
        0xb9u8, 0xfbu8, 0xa7u8, 0xb2u8, 0x21u8, 0x61u8, 0x67u8, 0xdcu8, 0xddu8, 0x1au8, 0x7au8, 0xe0u8, 0xa5u8, 0x64u8, 0xddu8, 0x43u8, 0xe1u8, 0xb6u8, 0x8bu8, 0x95u8,
    ]
}

/// The liquidation router on Optimism.
pub fn optimism_liquidation_router_address() -> (r: Address)
    ensures
        r@ == optimism_liquidation_router_bytes(),
{
    let r = Address {
        bytes: [
            0xb9, 0xfb, 0xa7, 0xb2, 0x21, 0x61, 0x67, 0xdc, 0xdd, 0x1a, 0x7a, 0xe0, 0xa5, 0x64, 0xdd, 0x43, 0xe1, 0xb6, 0x8b, 0x95,
        ],
    };
    assert(r@ =~= optimism_liquidation_router_bytes());
    r
}

/// The liquidation router of a chain, as the tables hold it.
pub open spec fn router_of(chain_id: u64) -> Result<Seq<u8>, LookupError> {
    if chain_id == OPTIMISM_CHAIN_ID {
        Ok(optimism_liquidation_router_bytes())
    } else {
        Err(LookupError::UnknownChain)
    }
}

/// The asset that a liquidation pair sells, as the tables hold it.
pub open spec fn underlying_asset_of(chain_id: u64, pair: Seq<u8>) -> Result<
    Seq<u8>,
    LookupError,
> {
    if chain_id != OPTIMISM_CHAIN_ID {
        Err(LookupError::UnknownChain)
    } else if pair == pdai_liquidation_pair_bytes() {
        Ok(dai_optimism_bytes())
    } else if pair == pusdc_liquidation_pair_bytes() {
        Ok(usdc_optimism_bytes())
    } else if pair == pusdce_liquidation_pair_bytes() {
        Ok(usdce_optimism_bytes())
    } else if pair == pweth_liquidation_pair_bytes() {
        Ok(weth_optimism_bytes())
    } else {
        Err(LookupError::UnknownPair)
    }
}

/// The decimals of an asset, as the tables hold them.
pub open spec fn decimals_of(chain_id: u64, asset: Seq<u8>) -> Result<u8, LookupError> {
    if chain_id != OPTIMISM_CHAIN_ID {
        Err(LookupError::UnknownChain)
    } else if asset == dai_optimism_bytes() {
        Ok(DAI_DECIMALS)
    } else if asset == usdc_optimism_bytes() {
        Ok(USDC_DECIMALS)
    } else if asset == usdce_optimism_bytes() {
        Ok(USDCE_DECIMALS)
    } else if asset == weth_optimism_bytes() {
        Ok(WETH_DECIMALS)
    } else if asset == pool_optimism_bytes() {
        Ok(POOL_DECIMALS)
    } else {
        Err(LookupError::UnknownAsset)
    }
}

/// The symbol of an asset, as the tables hold it.
pub open spec fn symbol_of(chain_id: u64, asset: Seq<u8>) -> Result<Seq<char>, LookupError> {
    if chain_id != OPTIMISM_CHAIN_ID {
        Err(LookupError::UnknownChain)
    } else if asset == dai_optimism_bytes() {
        Ok("DAI"@)
    } else if asset == usdc_optimism_bytes() {
        Ok("USDC"@)
    } else if asset == usdce_optimism_bytes() {
        Ok("USDC.E"@)
    } else if asset == weth_optimism_bytes() {
        Ok("WETH"@)
    } else if asset == pool_optimism_bytes() {
        Ok("POOL"@)
    } else {
        Err(LookupError::UnknownAsset)
    }
}

/// What a lookup of an address gave, with the address taken as its bytes.
pub open spec fn address_result(r: Result<Address, LookupError>) -> Result<Seq<u8>, LookupError> {
    match r {
        Ok(a) => Ok(a@),
        Err(e) => Err(e),
    }
}

/// What a lookup of a symbol gave, with the symbol taken as its characters.
pub open spec fn symbol_result(r: Result<&'static str, LookupError>) -> Result<
    Seq<char>,
    LookupError,
> {
    match r {
        Ok(s) => Ok(s@),
        Err(e) => Err(e),
    }
}

/// Get liquidation router address for a given chain id.
pub fn get_liquidation_router_address(chain_id: u64) -> (r: Result<Address, LookupError>)
    ensures
        address_result(r) == router_of(chain_id),
{
    if chain_id == OPTIMISM_CHAIN_ID {
        Ok(optimism_liquidation_router_address())
    } else {
        Err(LookupError::UnknownChain)
    }
}

/// Get the underlying asset address for a given liquidation pair on a
/// specific network.
pub fn get_underlying_asset_address(chain_id: u64, liquidation_pair: &Address) -> (r: Result<
    Address,
    LookupError,
>)
    ensures
        address_result(r) == underlying_asset_of(chain_id, liquidation_pair@),
{
    if chain_id != OPTIMISM_CHAIN_ID {
        Err(LookupError::UnknownChain)
    } else if liquidation_pair.same(&pdai_liquidation_pair_address()) {
        Ok(dai_optimism_address())
    } else if liquidation_pair.same(&pusdc_liquidation_pair_address()) {
        Ok(usdc_optimism_address())
    } else if liquidation_pair.same(&pusdce_liquidation_pair_address()) {
        Ok(usdce_optimism_address())
    } else if liquidation_pair.same(&pweth_liquidation_pair_address()) {
        Ok(weth_optimism_address())
    } else {
        Err(LookupError::UnknownPair)
    }
}

/// Get the asset decimals for a given asset on a specific network.
pub fn get_asset_decimals(chain_id: u64, asset: &Address) -> (r: Result<u8, LookupError>)
    ensures
        r == decimals_of(chain_id, asset@),
{
    if chain_id != OPTIMISM_CHAIN_ID {
        Err(LookupError::UnknownChain)
    } else if asset.same(&dai_optimism_address()) {
        Ok(DAI_DECIMALS)
    } else if asset.same(&usdc_optimism_address()) {
        Ok(USDC_DECIMALS)
    } else if asset.same(&usdce_optimism_address()) {
        Ok(USDCE_DECIMALS)
    } else if asset.same(&weth_optimism_address()) {
        Ok(WETH_DECIMALS)
    } else if asset.same(&pool_optimism_address()) {
        Ok(POOL_DECIMALS)
    } else {
        Err(LookupError::UnknownAsset)
    }
}

/// Get the asset symbol for a given asset on a specific network.
pub fn get_asset_symbol(chain_id: u64, asset: &Address) -> (r: Result<&'static str, LookupError>)
    ensures
        symbol_result(r) == symbol_of(chain_id, asset@),
{
    if chain_id != OPTIMISM_CHAIN_ID {
        Err(LookupError::UnknownChain)
    } else if asset.same(&dai_optimism_address()) {
        Ok("DAI")
    } else if asset.same(&usdc_optimism_address()) {
        Ok("USDC")
    } else if asset.same(&usdce_optimism_address()) {
        Ok("USDC.E")
    } else if asset.same(&weth_optimism_address()) {
        Ok("WETH")
    } else if asset.same(&pool_optimism_address()) {
        Ok("POOL")
    } else {
        Err(LookupError::UnknownAsset)
    }
}

/// An asset of a chain: its address, the decimals of its amounts and its
/// symbol.
#[derive(Clone, Copy, Debug)]
pub struct ChainAsset {
    pub address: Address,
    pub decimals: u8,
    pub symbol: &'static str,
}

/// Whether an asset is what the tables hold, on a chain, for its address.
pub open spec fn is_asset_of(chain_id: u64, asset: ChainAsset) -> bool {
    &&& decimals_of(chain_id, asset.address@) == Ok::<u8, LookupError>(asset.decimals)
    &&& symbol_of(chain_id, asset.address@) == Ok::<Seq<char>, LookupError>(asset.symbol@)
}

/// Get an asset of a specific network by its address.
pub fn get_asset(chain_id: u64, address: &Address) -> (r: Result<ChainAsset, LookupError>)
    ensures
        r matches Ok(asset) ==> asset.address@ == address@ && is_asset_of(chain_id, asset),
        r matches Err(e) ==> decimals_of(chain_id, address@) == Err::<u8, LookupError>(e),
{
    let decimals = match get_asset_decimals(chain_id, address) {
        Ok(d) => d,
        Err(e) => {
            return Err(e);
        },
    };
    match get_asset_symbol(chain_id, address) {
        Ok(symbol) => Ok(ChainAsset { address: *address, decimals, symbol }),
        Err(e) => Err(e),
    }
}

/// Get the underlying asset of a liquidation pair on a specific network.
/// A pair that the tables hold always has one.
pub fn get_underlying_asset(chain_id: u64, liquidation_pair: &Address) -> (r: Result<
    ChainAsset,
    LookupError,
>)
    ensures
        r matches Ok(asset) ==> underlying_asset_of(chain_id, liquidation_pair@) == Ok::<
            Seq<u8>,
            LookupError,
        >(asset.address@) && is_asset_of(chain_id, asset),
        r matches Err(e) ==> underlying_asset_of(chain_id, liquidation_pair@) == Err::<
            Seq<u8>,
            LookupError,
        >(e),
{
    let address = match get_underlying_asset_address(chain_id, liquidation_pair) {
        Ok(address) => address,
        Err(e) => {
            return Err(e);
        },
    };
    proof {
        lemma_registry_is_closed(chain_id, liquidation_pair@);
    }
    get_asset(chain_id, &address)
}

/// No lookup dangles: whatever asset a liquidation pair resolves to on a
/// chain has both decimals and a symbol on that chain, and so has the asset
/// in which liquidations are paid on every chain that has a router.
pub proof fn lemma_registry_is_closed(chain_id: u64, pair: Seq<u8>)
    ensures
        underlying_asset_of(chain_id, pair) matches Ok(asset) ==> decimals_of(chain_id, asset).is_ok()
            && symbol_of(chain_id, asset).is_ok(),
        router_of(chain_id).is_ok() ==> decimals_of(chain_id, pool_optimism_bytes()).is_ok()
            && symbol_of(chain_id, pool_optimism_bytes()).is_ok(),
{
}

/// An asset has decimals on a chain exactly if it has a symbol there, and
/// where it has neither, both lookups fail alike.
pub proof fn lemma_decimals_and_symbol_together(chain_id: u64, asset: Seq<u8>)
    ensures
        decimals_of(chain_id, asset).is_ok() <==> symbol_of(chain_id, asset).is_ok(),
        decimals_of(chain_id, asset) matches Err(e) ==> symbol_of(chain_id, asset) == Err::<
            Seq<char>,
            LookupError,
        >(e),
{
}

/// The five assets are five different addresses, so each has the decimals
/// and the symbol of its own line in the tables.
pub proof fn lemma_registry_assets()
    ensures
        decimals_of(OPTIMISM_CHAIN_ID, dai_optimism_bytes()) == Ok::<u8, LookupError>(18),
        decimals_of(OPTIMISM_CHAIN_ID, usdc_optimism_bytes()) == Ok::<u8, LookupError>(6),
        decimals_of(OPTIMISM_CHAIN_ID, usdce_optimism_bytes()) == Ok::<u8, LookupError>(6),
        decimals_of(OPTIMISM_CHAIN_ID, weth_optimism_bytes()) == Ok::<u8, LookupError>(18),
        decimals_of(OPTIMISM_CHAIN_ID, pool_optimism_bytes()) == Ok::<u8, LookupError>(18),
        symbol_of(OPTIMISM_CHAIN_ID, dai_optimism_bytes()) == Ok::<Seq<char>, LookupError>("DAI"@),
        symbol_of(OPTIMISM_CHAIN_ID, usdc_optimism_bytes()) == Ok::<Seq<char>, LookupError>("USDC"@),
        symbol_of(OPTIMISM_CHAIN_ID, usdce_optimism_bytes()) == Ok::<Seq<char>, LookupError>(
            "USDC.E"@,
        ),
        symbol_of(OPTIMISM_CHAIN_ID, weth_optimism_bytes()) == Ok::<Seq<char>, LookupError>("WETH"@),
        symbol_of(OPTIMISM_CHAIN_ID, pool_optimism_bytes()) == Ok::<Seq<char>, LookupError>("POOL"@),
{
    assert(dai_optimism_bytes()[0] != usdc_optimism_bytes()[0]);
    assert(dai_optimism_bytes()[0] != usdce_optimism_bytes()[0]);
    assert(dai_optimism_bytes()[0] != weth_optimism_bytes()[0]);
    assert(dai_optimism_bytes()[0] != pool_optimism_bytes()[0]);
    assert(usdc_optimism_bytes()[0] != usdce_optimism_bytes()[0]);
    assert(usdc_optimism_bytes()[0] != weth_optimism_bytes()[0]);
    assert(usdc_optimism_bytes()[0] != pool_optimism_bytes()[0]);
    assert(usdce_optimism_bytes()[0] != weth_optimism_bytes()[0]);
    assert(usdce_optimism_bytes()[0] != pool_optimism_bytes()[0]);
    assert(weth_optimism_bytes()[0] != pool_optimism_bytes()[0]);
}

/// The four liquidation pairs are four different addresses, so each
/// resolves to the asset of its own line in the tables.
pub proof fn lemma_registry_pairs()
    ensures
        underlying_asset_of(OPTIMISM_CHAIN_ID, pdai_liquidation_pair_bytes()) == Ok::<
            Seq<u8>,
            LookupError,
        >(dai_optimism_bytes()),
        underlying_asset_of(OPTIMISM_CHAIN_ID, pusdc_liquidation_pair_bytes()) == Ok::<
            Seq<u8>,
            LookupError,
        >(usdc_optimism_bytes()),
        underlying_asset_of(OPTIMISM_CHAIN_ID, pusdce_liquidation_pair_bytes()) == Ok::<
            Seq<u8>,
            LookupError,
        >(usdce_optimism_bytes()),
        underlying_asset_of(OPTIMISM_CHAIN_ID, pweth_liquidation_pair_bytes()) == Ok::<
            Seq<u8>,
            LookupError,
        >(weth_optimism_bytes()),
{
    assert(pdai_liquidation_pair_bytes()[0] != pusdc_liquidation_pair_bytes()[0]);
    assert(pdai_liquidation_pair_bytes()[0] != pusdce_liquidation_pair_bytes()[0]);
    assert(pdai_liquidation_pair_bytes()[0] != pweth_liquidation_pair_bytes()[0]);
    assert(pusdc_liquidation_pair_bytes()[0] != pusdce_liquidation_pair_bytes()[0]);
    assert(pusdc_liquidation_pair_bytes()[0] != pweth_liquidation_pair_bytes()[0]);
    assert(pusdce_liquidation_pair_bytes()[0] != pweth_liquidation_pair_bytes()[0]);
}

} // verus!
