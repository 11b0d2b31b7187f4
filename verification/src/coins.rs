use vstd::prelude::*;

use crate::strutil::str_eq;

verus! {

/// The coins this toolbox knows, plus a sentinel for everything else.
#[derive(Debug, Clone, Copy, PartialEq, Eq, Hash, Structural)]
pub enum CoinFlag {
    CoinFlagNone,
    CoinFlagBTC,
    CoinFlagLTC,
    CoinFlagDOGE,
    CoinFlagETC,
    CoinFlagETHW,
    CoinFlagZIL,
    CoinFlagOCTA,
    CoinFlagMETA,
    CoinFlagCAU,
}

/// The ticker of a coin.
pub open spec fn coin_name_spec(c: CoinFlag) -> Seq<char> {
    match c {
        CoinFlag::CoinFlagBTC => "BTC"@,
        CoinFlag::CoinFlagLTC => "LTC"@,
        CoinFlag::CoinFlagDOGE => "DOGE"@,
        CoinFlag::CoinFlagETC => "ETC"@,
        CoinFlag::CoinFlagETHW => "ETHW"@,
        CoinFlag::CoinFlagZIL => "ZIL"@,
        CoinFlag::CoinFlagOCTA => "OCTA"@,
        CoinFlag::CoinFlagMETA => "META"@,
        CoinFlag::CoinFlagCAU => "CAU"@,
        CoinFlag::CoinFlagNone => "none"@,
    }
}

/// The ticker of a coin, in lower case.
pub open spec fn coin_name_lower_spec(c: CoinFlag) -> Seq<char> {
    match c {
        CoinFlag::CoinFlagBTC => "btc"@,
        CoinFlag::CoinFlagLTC => "ltc"@,
        CoinFlag::CoinFlagDOGE => "doge"@,
        CoinFlag::CoinFlagETC => "etc"@,
        CoinFlag::CoinFlagETHW => "ethw"@,
        CoinFlag::CoinFlagZIL => "zil"@,
        CoinFlag::CoinFlagOCTA => "octa"@,
        CoinFlag::CoinFlagMETA => "meta"@,
        CoinFlag::CoinFlagCAU => "cau"@,
        CoinFlag::CoinFlagNone => "none"@,
    }
}

/// The long name of a coin.
pub open spec fn coin_full_name_spec(c: CoinFlag) -> Seq<char> {
    match c {
        CoinFlag::CoinFlagBTC => "Bitcoin"@,
        CoinFlag::CoinFlagLTC => "Litecoin"@,
        CoinFlag::CoinFlagDOGE => "Dogecoin"@,
        CoinFlag::CoinFlagETC => "EthereumClassic"@,
        CoinFlag::CoinFlagETHW => "EthereumPoW"@,
        CoinFlag::CoinFlagZIL => "Zilliqa"@,
        CoinFlag::CoinFlagOCTA => "OctaSpace"@,
        CoinFlag::CoinFlagMETA => "MetaChain"@,
        CoinFlag::CoinFlagCAU => "Canxium"@,
        CoinFlag::CoinFlagNone => "none"@,
    }
}

/// The name of the block-node binary that serves a coin.
pub open spec fn binary_name_spec(c: CoinFlag) -> Seq<char> {
    match c {
        CoinFlag::CoinFlagBTC => "btcd"@,
        CoinFlag::CoinFlagLTC => "litecoind"@,
        CoinFlag::CoinFlagDOGE => "dogecoind"@,
        CoinFlag::CoinFlagETC => "geth"@,
        CoinFlag::CoinFlagETHW => "geth"@,
        CoinFlag::CoinFlagZIL => "zilliqa"@,
        CoinFlag::CoinFlagOCTA => "geth"@,
        CoinFlag::CoinFlagMETA => "geth"@,
        CoinFlag::CoinFlagCAU => "canxium"@,
        CoinFlag::CoinFlagNone => "none"@,
    }
}

/// The systemd service name of a coin's block node: the lower-case ticker
/// and the binary name, except the classic-Ethereum node, which runs under
/// the `core-` prefix.
pub open spec fn service_name_spec(c: CoinFlag) -> Seq<char> {
    if c is CoinFlagETC {
        "core-"@ + binary_name_spec(c)
    } else {
        coin_name_lower_spec(c) + "-"@ + binary_name_spec(c)
    }
}

/// The coin a spelled-out name denotes, the sentinel when none does.
pub open spec fn coin_flag_of_name(name: Seq<char>) -> CoinFlag {
    if name == "BTC"@ || name == "BitCoin"@ || name == "Bitcoin"@ {
        CoinFlag::CoinFlagBTC
    } else if name == "LTC"@ || name == "LiteCoin"@ || name == "Litecoin"@ {
        CoinFlag::CoinFlagLTC
    } else if name == "DOGE"@ || name == "DogeCoin"@ || name == "Dogecoin"@ {
        CoinFlag::CoinFlagDOGE
    } else if name == "ETC"@ || name == "Ethereum Classic"@ || name == "EthereumClassic"@ {
        CoinFlag::CoinFlagETC
    } else if name == "ETHW"@ || name == "EthereumPoW"@ {
        CoinFlag::CoinFlagETHW
    } else if name == "ZIL"@ || name == "Zilliqa"@ {
        CoinFlag::CoinFlagZIL
    } else if name == "OCTA"@ || name == "OctaSpace"@ {
        CoinFlag::CoinFlagOCTA
    } else if name == "META"@ || name == "MetaChain"@ {
        CoinFlag::CoinFlagMETA
    } else if name == "CAU"@ || name == "Canxium"@ {
        CoinFlag::CoinFlagCAU
    } else {
        CoinFlag::CoinFlagNone
    }
}

/// A ticker the toolbox supports; only exact ticker spellings count.
pub open spec fn coin_supported_spec(name: Seq<char>) -> bool {
    name == "BTC"@ || name == "ETC"@ || name == "ETHW"@ || name == "ZIL"@ || name == "OCTA"@
        || name == "LTC"@ || name == "DOGE"@ || name == "META"@ || name == "CAU"@
}

impl CoinFlag {
    /// The ticker of this coin.
    fn coin_name(&self) -> (r: &'static str)
        ensures
            r@ == coin_name_spec(*self),
    {
        match self {
            CoinFlag::CoinFlagBTC => "BTC",
            CoinFlag::CoinFlagLTC => "LTC",
            CoinFlag::CoinFlagDOGE => "DOGE",
            CoinFlag::CoinFlagETC => "ETC",
            CoinFlag::CoinFlagETHW => "ETHW",
            CoinFlag::CoinFlagZIL => "ZIL",
            CoinFlag::CoinFlagOCTA => "OCTA",
            CoinFlag::CoinFlagMETA => "META",
            CoinFlag::CoinFlagCAU => "CAU",
            CoinFlag::CoinFlagNone => "none",
        }
    }

    /// The lower-case ticker of this coin.
    fn coin_name_lower(&self) -> (r: &'static str)
        ensures
            r@ == coin_name_lower_spec(*self),
    {
        match self {
            CoinFlag::CoinFlagBTC => "btc",
            CoinFlag::CoinFlagLTC => "ltc",
            CoinFlag::CoinFlagDOGE => "doge",
            CoinFlag::CoinFlagETC => "etc",
            CoinFlag::CoinFlagETHW => "ethw",
            CoinFlag::CoinFlagZIL => "zil",
            CoinFlag::CoinFlagOCTA => "octa",
            CoinFlag::CoinFlagMETA => "meta",
            CoinFlag::CoinFlagCAU => "cau",
            CoinFlag::CoinFlagNone => "none",
        }
    }

    /// The long name of this coin.
    pub fn coin_full_name(&self) -> (r: &'static str)
        ensures
            r@ == coin_full_name_spec(*self),
    {
        match self {
            CoinFlag::CoinFlagBTC => "Bitcoin",
            CoinFlag::CoinFlagLTC => "Litecoin",
            CoinFlag::CoinFlagDOGE => "Dogecoin",
            CoinFlag::CoinFlagETC => "EthereumClassic",
            CoinFlag::CoinFlagETHW => "EthereumPoW",
            CoinFlag::CoinFlagZIL => "Zilliqa",
            CoinFlag::CoinFlagOCTA => "OctaSpace",
            CoinFlag::CoinFlagMETA => "MetaChain",
            CoinFlag::CoinFlagCAU => "Canxium",
            CoinFlag::CoinFlagNone => "none",
        }
    }

    /// The name of the block-node binary that serves this coin.
    pub fn get_block_node_binary_name(&self) -> (r: &'static str)
        ensures
            r@ == binary_name_spec(*self),
    {
        match self {
            CoinFlag::CoinFlagBTC => "btcd",
            CoinFlag::CoinFlagLTC => "litecoind",
            CoinFlag::CoinFlagDOGE => "dogecoind",
            CoinFlag::CoinFlagETC => "geth",
            CoinFlag::CoinFlagETHW => "geth",
            CoinFlag::CoinFlagZIL => "zilliqa",
            CoinFlag::CoinFlagOCTA => "geth",
            CoinFlag::CoinFlagMETA => "geth",
            CoinFlag::CoinFlagCAU => "canxium",
            CoinFlag::CoinFlagNone => "none",
        }
    }

    /// The systemd service name of this coin's block node.
    pub fn get_block_node_binary_systemd_service_name(&self) -> (r: String)
        ensures
            r@ == service_name_spec(*self),
    {
        let is_etc = match self {
            CoinFlag::CoinFlagETC => true,
            _ => false,
        };
        let mut s: String;
        if is_etc {
            s = String::from_str("core-");
        } else {
            s = String::from_str(self.coin_name_lower());
            s.append("-");
        }
        s.append(self.get_block_node_binary_name());
        proof {
            assert(s@ =~= service_name_spec(*self));
        }
        s
    }
}

/// The coin a spelled-out name denotes; tickers and a few capitalizations
/// are accepted.
pub fn get_coin_flag_by_coin_name(name: &str) -> (r: CoinFlag)
    ensures
        r == coin_flag_of_name(name@),
{
    if str_eq(name, "BTC") || str_eq(name, "BitCoin") || str_eq(name, "Bitcoin") {
        CoinFlag::CoinFlagBTC
    } else if str_eq(name, "LTC") || str_eq(name, "LiteCoin") || str_eq(name, "Litecoin") {
        CoinFlag::CoinFlagLTC
    } else if str_eq(name, "DOGE") || str_eq(name, "DogeCoin") || str_eq(name, "Dogecoin") {
        CoinFlag::CoinFlagDOGE
    } else if str_eq(name, "ETC") || str_eq(name, "Ethereum Classic") || str_eq(
        name,
        "EthereumClassic",
    ) {
        CoinFlag::CoinFlagETC
    } else if str_eq(name, "ETHW") || str_eq(name, "EthereumPoW") {
        CoinFlag::CoinFlagETHW
    } else if str_eq(name, "ZIL") || str_eq(name, "Zilliqa") {
        CoinFlag::CoinFlagZIL
    } else if str_eq(name, "OCTA") || str_eq(name, "OctaSpace") {
        CoinFlag::CoinFlagOCTA
    } else if str_eq(name, "META") || str_eq(name, "MetaChain") {
        CoinFlag::CoinFlagMETA
    } else if str_eq(name, "CAU") || str_eq(name, "Canxium") {
        CoinFlag::CoinFlagCAU
    } else {
        CoinFlag::CoinFlagNone
    }
}

/// Whether a ticker names a supported coin.
pub fn is_coin_supported(coin_name: &str) -> (r: bool)
    ensures
        r == coin_supported_spec(coin_name@),
{
    str_eq(coin_name, "BTC") || str_eq(coin_name, "ETC") || str_eq(coin_name, "ETHW") || str_eq(
        coin_name,
        "ZIL",
    ) || str_eq(coin_name, "OCTA") || str_eq(coin_name, "LTC") || str_eq(coin_name, "DOGE")
        || str_eq(coin_name, "META") || str_eq(coin_name, "CAU")
}

} // verus!
