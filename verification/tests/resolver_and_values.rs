use simulation::{chain_id_to_fork_url, normalize_value, SimulationError, Uint256};

fn key() -> String {
    "KEY".to_string()
}

fn text(s: &str) -> Option<String> {
    Some(s.to_string())
}

#[test]
fn credentialed_chains_append_the_key() {
    assert_eq!(
        chain_id_to_fork_url(1, key()),
        Ok("https://eth-mainnet.g.alchemy.com/v2/KEY".to_string())
    );
    assert_eq!(
        chain_id_to_fork_url(5, key()),
        Ok("https://eth-goerli.g.alchemy.com/v2/KEY".to_string())
    );
    assert_eq!(
        chain_id_to_fork_url(137, key()),
        Ok("https://polygon-mainnet.g.alchemy.com/v2/KEY".to_string())
    );
    assert_eq!(
        chain_id_to_fork_url(80001, key()),
        Ok("https://polygon-mumbai.g.alchemy.com/v2/KEY".to_string())
    );
}

#[test]
fn public_chains_ignore_the_key() {
    let table: Vec<(u64, &str)> = vec![
        (43114, "https://api.avax.network/ext/bc/C/rpc"),
        (43113, "https://api.avax-test.network/ext/bc/C/rpc"),
        (250, "https://rpcapi.fantom.network/"),
        (4002, "https://rpc.testnet.fantom.network/"),
        (100, "https://rpc.xdaichain.com/"),
        (56, "https://bsc-dataseed.binance.org/"),
        (97, "https://data-seed-prebsc-1-s1.binance.org:8545/"),
        (42161, "https://arb1.arbitrum.io/rpc"),
        (421613, "https://goerli-rollup.arbitrum.io/rpc"),
        (10, "https://mainnet.optimism.io/"),
        (420, "https://goerli.optimism.io/"),
    ];
    for (chain_id, url) in table {
        assert_eq!(chain_id_to_fork_url(chain_id, key()), Ok(url.to_string()));
        assert_eq!(chain_id_to_fork_url(chain_id, String::new()), Ok(url.to_string()));
    }
}

#[test]
fn every_known_chain_has_a_nonempty_url() {
    let known: Vec<u64> =
        vec![1, 5, 137, 80001, 43114, 43113, 250, 4002, 100, 56, 97, 42161, 421613, 10, 420];
    for chain_id in known {
        let url = chain_id_to_fork_url(chain_id, String::new());
        assert!(matches!(url, Ok(ref u) if !u.is_empty()));
    }
}

#[test]
fn unknown_chains_are_rejected() {
    let unknown: Vec<u64> = vec![0, 2, 3, 4, 11, 138, 421614, 11155111, u64::MAX];
    for chain_id in unknown {
        assert_eq!(chain_id_to_fork_url(chain_id, key()), Err(SimulationError::UnsupportedChain));
    }
}

#[test]
fn hex_value_is_read_in_base_sixteen() {
    assert_eq!(normalize_value(&text("0x10")), Ok(Some(Uint256::from_u64(16))));
}

#[test]
fn decimal_value_is_read_in_base_ten() {
    assert_eq!(normalize_value(&text("16")), Ok(Some(Uint256::from_u64(16))));
}

#[test]
fn malformed_hex_value_is_rejected() {
    assert_eq!(normalize_value(&text("0xg")), Err(SimulationError::InvalidHexValue));
}

#[test]
fn malformed_decimal_value_is_rejected() {
    assert_eq!(normalize_value(&text("1.5")), Err(SimulationError::InvalidDecimalValue));
}

#[test]
fn absent_value_stays_absent() {
    assert_eq!(normalize_value(&None), Ok(None));
}

#[test]
fn signs_are_not_accepted() {
    assert_eq!(normalize_value(&text("-1")), Err(SimulationError::InvalidDecimalValue));
    assert_eq!(normalize_value(&text("+1")), Err(SimulationError::InvalidDecimalValue));
    assert_eq!(normalize_value(&text("0x-1")), Err(SimulationError::InvalidHexValue));
}

#[test]
fn upper_case_prefix_is_not_a_hex_prefix() {
    assert_eq!(normalize_value(&text("0X10")), Err(SimulationError::InvalidDecimalValue));
    assert_eq!(normalize_value(&text("x10")), Err(SimulationError::InvalidDecimalValue));
    assert_eq!(normalize_value(&text("0")), Ok(Some(Uint256::from_u64(0))));
}

#[test]
fn hex_digits_of_either_case_and_odd_count() {
    assert_eq!(normalize_value(&text("0xaBc")), Ok(Some(Uint256::from_u64(0xabc))));
    assert_eq!(normalize_value(&text("0xFF")), Ok(Some(Uint256::from_u64(255))));
    assert_eq!(normalize_value(&text("0x0x10")), Err(SimulationError::InvalidHexValue));
}

#[test]
fn empty_digit_strings_stand_for_zero() {
    assert_eq!(normalize_value(&text("")), Ok(Some(Uint256::from_u64(0))));
    assert_eq!(normalize_value(&text("0x")), Ok(Some(Uint256::from_u64(0))));
}

#[test]
fn leading_zeros_do_not_change_the_value() {
    assert_eq!(normalize_value(&text("00042")), Ok(Some(Uint256::from_u64(42))));
    assert_eq!(normalize_value(&text("0x0000002a")), Ok(Some(Uint256::from_u64(42))));
}

#[test]
fn limbs_are_least_significant_first() {
    assert_eq!(
        normalize_value(&text("0x10000000000000000")),
        Ok(Some(Uint256 { limbs: [0, 1, 0, 0] }))
    );
    assert_eq!(
        normalize_value(&text("18446744073709551616")),
        Ok(Some(Uint256 { limbs: [0, 1, 0, 0] }))
    );
    assert_eq!(
        normalize_value(&text("0x0000000000000003000000000000000200000000000000010000000000000000")),
        Ok(Some(Uint256 { limbs: [0, 1, 2, 3] }))
    );
}

#[test]
fn the_largest_value_is_accepted_and_the_next_rejected() {
    let max = Uint256 { limbs: [u64::MAX; 4] };
    assert_eq!(
        normalize_value(&text(
            "115792089237316195423570985008687907853269984665640564039457584007913129639935"
        )),
        Ok(Some(max))
    );
    assert_eq!(
        normalize_value(&text(
            "115792089237316195423570985008687907853269984665640564039457584007913129639936"
        )),
        Err(SimulationError::InvalidDecimalValue)
    );
    assert_eq!(
        normalize_value(&text("0xffffffffffffffffffffffffffffffffffffffffffffffffffffffffffffffff")),
        Ok(Some(max))
    );
    assert_eq!(
        normalize_value(&text("0x10000000000000000000000000000000000000000000000000000000000000000")),
        Err(SimulationError::InvalidHexValue)
    );
}

#[test]
fn characters_outside_ascii_are_rejected() {
    assert_eq!(normalize_value(&text("1\u{663}")), Err(SimulationError::InvalidDecimalValue));
    assert_eq!(normalize_value(&text("0x\u{ff11}")), Err(SimulationError::InvalidHexValue));
}

#[test]
fn one_ether_in_wei() {
    assert_eq!(
        normalize_value(&text("1000000000000000000")),
        Ok(Some(Uint256::from_u64(1_000_000_000_000_000_000)))
    );
    assert_eq!(
        normalize_value(&text("0xde0b6b3a7640000")),
        Ok(Some(Uint256::from_u64(1_000_000_000_000_000_000)))
    );
}

#[test]
fn from_u64_fills_the_lowest_limb() {
    assert_eq!(Uint256::from_u64(7), Uint256 { limbs: [7, 0, 0, 0] });
    assert_eq!(Uint256::from_u64(u64::MAX), Uint256 { limbs: [u64::MAX, 0, 0, 0] });
}
