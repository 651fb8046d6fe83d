use pooltogether_koinly_accounting::constants::{
    dai_optimism_address, get_asset, get_asset_decimals, get_asset_symbol, get_liquidation_router_address,
    get_underlying_asset, get_underlying_asset_address, optimism_liquidation_router_address,
    pdai_liquidation_pair_address, pool_optimism_address, pusdc_liquidation_pair_address,
    pusdce_liquidation_pair_address, pweth_liquidation_pair_address, usdc_optimism_address,
    usdce_optimism_address, weth_optimism_address, LookupError, ARBITRUM_CHAIN_ID, BASE_CHAIN_ID,
    MAINNET_CHAIN_ID, OPTIMISM_CHAIN_ID,
};
use pooltogether_koinly_accounting::primitives::Address;

fn hex_of(address: &Address) -> String {
    let mut out = String::from("0x");
    for b in address.bytes.iter() {
        out.push_str(&format!("{:02x}", b));
    }
    out
}

#[test]
fn addresses_are_those_of_the_contracts() {
    assert_eq!(hex_of(&dai_optimism_address()), "0xda10009cbd5d07dd0cecc66161fc93d7c9000da1");
    assert_eq!(hex_of(&pool_optimism_address()), "0x395ae52bb17aef68c2888d941736a71dc6d4e125");
    assert_eq!(hex_of(&usdc_optimism_address()), "0x0b2c639c533813f4aa9d7837caf62653d097ff85");
    assert_eq!(hex_of(&usdce_optimism_address()), "0x7f5c764cbc14f9669b88837ca1490cca17c31607");
    assert_eq!(hex_of(&weth_optimism_address()), "0x4200000000000000000000000000000000000006");
    assert_eq!(
        hex_of(&pdai_liquidation_pair_address()),
        "0x7169526dabfd1cdde174a0a7d8c75deb582d0990"
    );
    assert_eq!(
        hex_of(&pusdc_liquidation_pair_address()),
        "0x217ef9c355f7eb59c789e0471dc1f4398e004edc"
    );
    assert_eq!(
        hex_of(&pusdce_liquidation_pair_address()),
        "0xe7680701a2794e6e0a38ac72630c535b9720da5b"
    );
    assert_eq!(
        hex_of(&pweth_liquidation_pair_address()),
        "0xde5defa124faaa6d85e98e56b36616d249e543ca"
    );
    assert_eq!(
        hex_of(&optimism_liquidation_router_address()),
        "0xb9fba7b2216167dcdd1a7ae0a564dd43e1b68b95"
    );
}

#[test]
fn addresses_agree_with_their_checksummed_form() {
    let parsed: alloy::primitives::Address =
        "0xDA10009cBd5D07dd0CeCc66161FC93D7c9000da1".parse().unwrap();
    assert_eq!(parsed.0 .0, dai_optimism_address().bytes);
    let parsed: alloy::primitives::Address =
        "0xB9Fba7B2216167DCdd1A7AE0a564dD43E1b68b95".parse().unwrap();
    assert_eq!(parsed.0 .0, optimism_liquidation_router_address().bytes);
}

#[test]
fn router_of_optimism() {
    let router = get_liquidation_router_address(OPTIMISM_CHAIN_ID).unwrap();
    assert_eq!(router.bytes, optimism_liquidation_router_address().bytes);
}

#[test]
fn router_of_an_unknown_chain() {
    assert_eq!(
        get_liquidation_router_address(MAINNET_CHAIN_ID).map(|a| a.bytes),
        Err(LookupError::UnknownChain)
    );
    assert_eq!(
        get_liquidation_router_address(ARBITRUM_CHAIN_ID).map(|a| a.bytes),
        Err(LookupError::UnknownChain)
    );
    assert_eq!(
        get_liquidation_router_address(BASE_CHAIN_ID).map(|a| a.bytes),
        Err(LookupError::UnknownChain)
    );
}

#[test]
fn every_pair_resolves_to_its_asset() {
    let cases = [
        (pdai_liquidation_pair_address(), dai_optimism_address()),
        (pusdc_liquidation_pair_address(), usdc_optimism_address()),
        (pusdce_liquidation_pair_address(), usdce_optimism_address()),
        (pweth_liquidation_pair_address(), weth_optimism_address()),
    ];
    for (pair, asset) in cases.iter() {
        let found = get_underlying_asset_address(OPTIMISM_CHAIN_ID, pair).unwrap();
        assert_eq!(found.bytes, asset.bytes);
        assert!(get_asset_decimals(OPTIMISM_CHAIN_ID, &found).is_ok());
        assert!(get_asset_symbol(OPTIMISM_CHAIN_ID, &found).is_ok());
    }
}

#[test]
fn decimals_and_symbols_of_the_assets() {
    let cases = [
        (dai_optimism_address(), 18u8, "DAI"),
        (usdc_optimism_address(), 6u8, "USDC"),
        (usdce_optimism_address(), 6u8, "USDC.E"),
        (weth_optimism_address(), 18u8, "WETH"),
        (pool_optimism_address(), 18u8, "POOL"),
    ];
    for (asset, decimals, symbol) in cases.iter() {
        assert_eq!(get_asset_decimals(OPTIMISM_CHAIN_ID, asset), Ok(*decimals));
        assert_eq!(get_asset_symbol(OPTIMISM_CHAIN_ID, asset), Ok(*symbol));
    }
}

#[test]
fn unknown_pair_and_unknown_asset() {
    let stranger = Address { bytes: [0x11; 20] };
    assert_eq!(
        get_underlying_asset_address(OPTIMISM_CHAIN_ID, &stranger).map(|a| a.bytes),
        Err(LookupError::UnknownPair)
    );
    assert_eq!(get_asset_decimals(OPTIMISM_CHAIN_ID, &stranger), Err(LookupError::UnknownAsset));
    assert_eq!(get_asset_symbol(OPTIMISM_CHAIN_ID, &stranger), Err(LookupError::UnknownAsset));
    // An asset is no liquidation pair.
    assert_eq!(
        get_underlying_asset_address(OPTIMISM_CHAIN_ID, &dai_optimism_address()).map(|a| a.bytes),
        Err(LookupError::UnknownPair)
    );
}

#[test]
fn lookups_on_an_unknown_chain() {
    assert_eq!(
        get_underlying_asset_address(MAINNET_CHAIN_ID, &pdai_liquidation_pair_address())
            .map(|a| a.bytes),
        Err(LookupError::UnknownChain)
    );
    assert_eq!(
        get_asset_decimals(MAINNET_CHAIN_ID, &dai_optimism_address()),
        Err(LookupError::UnknownChain)
    );
    assert_eq!(
        get_asset_symbol(MAINNET_CHAIN_ID, &dai_optimism_address()),
        Err(LookupError::UnknownChain)
    );
}

#[test]
fn underlying_asset_of_each_pair() {
    let asset = get_underlying_asset(OPTIMISM_CHAIN_ID, &pusdce_liquidation_pair_address()).unwrap();
    assert_eq!(asset.address.bytes, usdce_optimism_address().bytes);
    assert_eq!(asset.decimals, 6);
    assert_eq!(asset.symbol, "USDC.E");
    let asset = get_underlying_asset(OPTIMISM_CHAIN_ID, &pweth_liquidation_pair_address()).unwrap();
    assert_eq!(asset.address.bytes, weth_optimism_address().bytes);
    assert_eq!(asset.decimals, 18);
    assert_eq!(asset.symbol, "WETH");
    assert_eq!(
        get_underlying_asset(OPTIMISM_CHAIN_ID, &weth_optimism_address()).err(),
        Some(LookupError::UnknownPair)
    );
    assert_eq!(
        get_underlying_asset(BASE_CHAIN_ID, &pweth_liquidation_pair_address()).err(),
        Some(LookupError::UnknownChain)
    );
}

#[test]
fn asset_by_its_address() {
    let pool = get_asset(OPTIMISM_CHAIN_ID, &pool_optimism_address()).unwrap();
    assert_eq!(pool.address.bytes, pool_optimism_address().bytes);
    assert_eq!(pool.decimals, 18);
    assert_eq!(pool.symbol, "POOL");
    assert_eq!(
        get_asset(OPTIMISM_CHAIN_ID, &pdai_liquidation_pair_address()).err(),
        Some(LookupError::UnknownAsset)
    );
    assert_eq!(
        get_asset(ARBITRUM_CHAIN_ID, &pool_optimism_address()).err(),
        Some(LookupError::UnknownChain)
    );
}
