use rust_box::coins;
use rust_box::coins::get_coin_flag_by_coin_name;
use rust_box::CoinFlag;

#[test]
fn test_simple_used_with_coin_flags() {
    let coin = "BTC";

    if coins::is_coin_supported(coin) {
        let flag = coins::get_coin_flag_by_coin_name(coin);
        println!(
            "Coin: {}\nFull Name: {}\nblock chain node Binary Name: {}\nSystemd Service Name: {}\n",
            coin,
            flag.coin_full_name(),
            flag.get_block_node_binary_name(),
            flag.get_block_node_binary_systemd_service_name()
        );
    } else {
        println!("Coin {} is not supported.", coin);
    }
}

#[test]
fn coin_names_and_services_are_exact() {
    assert_eq!(CoinFlag::CoinFlagBTC.coin_full_name(), "Bitcoin");
    assert_eq!(CoinFlag::CoinFlagETC.coin_full_name(), "EthereumClassic");
    assert_eq!(CoinFlag::CoinFlagBTC.get_block_node_binary_name(), "btcd");
    assert_eq!(CoinFlag::CoinFlagETC.get_block_node_binary_name(), "geth");
    assert_eq!(
        CoinFlag::CoinFlagBTC.get_block_node_binary_systemd_service_name(),
        "btc-btcd"
    );
    assert_eq!(
        CoinFlag::CoinFlagETC.get_block_node_binary_systemd_service_name(),
        "core-geth"
    );
    assert_eq!(
        CoinFlag::CoinFlagDOGE.get_block_node_binary_systemd_service_name(),
        "doge-dogecoind"
    );
}

#[test]
fn coin_lookup_accepts_spellings_and_rejects_others() {
    assert_eq!(get_coin_flag_by_coin_name("Bitcoin"), CoinFlag::CoinFlagBTC);
    assert_eq!(get_coin_flag_by_coin_name("BitCoin"), CoinFlag::CoinFlagBTC);
    assert_eq!(
        get_coin_flag_by_coin_name("Ethereum Classic"),
        CoinFlag::CoinFlagETC
    );
    assert_eq!(get_coin_flag_by_coin_name("bitcoin"), CoinFlag::CoinFlagNone);
    assert_eq!(get_coin_flag_by_coin_name(""), CoinFlag::CoinFlagNone);
    assert!(rust_box::is_coin_supported("CAU"));
    assert!(!rust_box::is_coin_supported("Bitcoin"));
    assert!(!rust_box::is_coin_supported(""));
}
