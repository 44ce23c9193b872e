//! Data model: request and response records, the transaction status set,
//! network metadata and provider configuration.

use vstd::prelude::*;

use crate::encoding;
use crate::errors::FireblocksError;

verus! {

/// One page of vault accounts together with its paging cursors.
#[derive(Debug, Clone)]
pub struct VaultAccountPaginatedResponse {
    pub accounts: Vec<VaultAccountResponse>,
    pub paging: Paging,
    pub previous_url: Option<String>,
    pub next_url: Option<String>,
}

/// A single vault account as reported by the remote service.
#[derive(Debug, Clone)]
pub struct VaultAccountResponse {
    pub id: String,
    pub name: String,
    pub hidden_on_ui: bool,
    pub assets: Vec<AssetResponse>,
    pub customer_ref_id: Option<String>,
    pub auto_fuel: bool,
}

impl VaultAccountResponse {
    /// Reads the account's `id` field as a decimal vault id.
    pub fn parse_id(&self) -> (r: Result<u64, FireblocksError>)
        ensures
            match r {
                Ok(n) => encoding::parse_u64_spec(self.id@) == Some(n),
                Err(e) => encoding::parse_u64_spec(self.id@) is None && e is ParseError,
            },
    {
        match encoding::parse_u64(&self.id) {
            Some(n) => Ok(n),
            None => Err(FireblocksError::ParseError(self.id.clone())),
        }
    }
}

/// The paged form of the vault account listing.
#[derive(Debug, Clone)]
pub struct PagedVaultAccountsResponse {
    pub accounts: Vec<VaultAccountResponse>,
    pub paging: Option<Paging>,
    pub previous_url: Option<String>,
    pub next_url: Option<String>,
}

/// Paging cursors of a listing response.
#[derive(Debug, Clone)]
pub struct Paging {
    pub before: Option<String>,
    pub after: Option<String>,
}

/// Arguments for creating a new vault account.
#[derive(Debug, Clone)]
pub struct CreateVaultRequest {
    pub name: String,
    pub hidden_on_ui: bool,
    pub customer_ref_id: Option<String>,
    pub auto_fuel: bool,
}

/// Response to a vault creation request.
#[derive(Debug, Clone)]
pub struct CreateVaultResponse {
    pub id: String,
}

/// One supported asset type.
#[derive(Debug, Clone)]
pub struct AssetTypeResponse {
    pub id: String,
    pub name: String,
    pub kind: String,
    pub contract_address: String,
    pub native_asset: String,
    pub decimals: Option<i64>,
}

/// Balances of one asset inside a vault account.
#[derive(Debug, Clone)]
pub struct AssetResponse {
    pub id: String,
    pub total: String,
    pub balance: Option<String>,
    pub locked_amount: Option<String>,
    pub available: Option<String>,
    pub pending: Option<String>,
    pub self_staked_cpu: Option<String>,
    pub self_staked_network: Option<String>,
    pub pending_refund_cpu: Option<String>,
    pub pending_refund_network: Option<String>,
    pub total_staked_cpu: Option<String>,
    pub total_staked_network: Option<String>,
}

/// One asset wallet row of the vault-wide wallet listing.
#[derive(Debug, Clone)]
pub struct AssetWalletsResponse {
    pub vault_id: String,
    pub asset_id: String,
    pub total: String,
    pub available: String,
    pub pending: String,
    pub staked: String,
    pub frozen: String,
    pub locked_amount: String,
    pub block_height: String,
    pub block_hash: String,
    pub creation_time: String,
}

/// An unspent input attached to an address.
#[derive(Debug, Clone)]
pub struct UnspentInputsResponse {
    pub address: String,
    pub input: Input,
    pub amount: String,
    pub confirmations: String,
    pub status: String,
}

/// A transaction input reference.
#[derive(Debug, Clone)]
pub struct Input {
    pub tx_hash: String,
    pub number: i64,
}

/// The asset wallet listing together with its paging cursors.
#[derive(Debug, Clone)]
pub struct GetAssetWalletsResponse {
    pub asset_wallets: Vec<AssetWalletsResponse>,
    pub paging: Paging,
}

/// A deposit address of an asset inside a vault account.
#[derive(Debug, Clone)]
pub struct DepositAddressResponse {
    pub asset_id: String,
    pub address: String,
    pub tag: Option<String>,
    pub description: Option<String>,
    pub kind: String,
    pub legacy_address: Option<String>,
    pub customer_ref_id: Option<String>,
    pub address_format: Option<String>,
}

/// Arguments for creating a transaction.
#[derive(Debug, Clone)]
pub struct TransactionArguments {
    pub asset_id: String,
    pub operation: TransactionOperation,
    pub source: TransferPeerPath,
    pub destination: Option<DestinationTransferPeerPath>,
    pub amount: String,
    pub note: String,
}

/// Extra payload attached to a raw or contract-call transaction.
#[derive(Debug, Clone)]
pub enum ExtraParameters {
    ContractCallData(String),
    RawMessageData(RawMessageData),
}

/// The source side of a transfer.
#[derive(Debug, Clone)]
pub struct TransferPeerPath {
    pub peer_type: PeerType,
    pub id: String,
}

/// The destination side of a transfer.
#[derive(Debug, Clone)]
pub struct DestinationTransferPeerPath {
    pub peer_type: PeerType,
    pub id: String,
}

/// A destination address used once, outside any vault.
#[derive(Debug, Clone)]
pub struct OneTimeAddress {
    pub address: String,
    pub tag: Option<String>,
}

/// The kind of operation a transaction performs.
#[allow(non_camel_case_types)]
#[derive(Debug, Clone, Copy, PartialEq, Eq, Structural)]
pub enum TransactionOperation {
    TRANSFER,
    RAW,
    CONTRACT_CALL,
    MINT,
    BURN,
    SUPPLY_TO_COMPOUND,
    REDEEM_FROM_COMPOUND,
}

/// The kind of peer a transfer side refers to.
#[allow(non_camel_case_types)]
#[derive(Debug, Clone, Copy, PartialEq, Eq, Structural)]
pub enum PeerType {
    VAULT_ACCOUNT,
    EXCHANGE_ACCOUNT,
    INTERNAL_WALLET,
    EXTERNAL_WALLET,
    ONE_TIME_ADDRESS,
    NETWORK_CONNECTION,
    FIAT_ACCOUNT,
    COMPOUND,
}

/// Response to a transaction creation request.
#[derive(Debug, Clone)]
pub struct CreateTransactionResponse {
    pub id: String,
    pub status: TransactionStatus,
}

/// The fixed, exhaustive set of remote transaction statuses.
#[allow(non_camel_case_types)]
#[derive(Debug, Clone, Copy, PartialEq, Eq, Structural)]
pub enum TransactionStatus {
    SUBMITTED,
    QUEUED,
    PENDING_SIGNATURE,
    PENDING_AUTHORIZATION,
    PENDING_3RD_PARTY_MANUAL_APPROVAL,
    PENDING_3RD_PARTY,
    PENDING,
    BROADCASTING,
    CONFIRMING,
    CONFIRMED,
    COMPLETED,
    PENDING_AML_SCREENING,
    PARTIALLY_COMPLETED,
    CANCELLING,
    CANCELLED,
    REJECTED,
    FAILED,
    TIMEOUT,
    BLOCKED,
}

/// Details of a transaction as returned by a status query.
#[derive(Debug, Clone)]
pub struct TransactionDetails {
    pub id: String,
    pub asset_id: String,
    pub tx_hash: String,
    pub status: TransactionStatus,
    pub sub_status: String,
    pub signed_messages: Vec<SignedMessageResponse>,
}

/// A message signed as part of a transaction.
#[derive(Debug, Clone)]
pub struct SignedMessageResponse {
    pub content: String,
    pub algorithm: String,
    pub derivation_path: Vec<usize>,
    pub signature: SignatureResponse,
    pub public_key: String,
}

/// One signature over a message.
#[derive(Debug, Clone)]
pub struct SignatureResponse {
    pub full_sig: String,
    pub r: String,
    pub s: String,
    pub v: u64,
}

/// Raw messages to sign directly.
#[derive(Debug, Clone)]
pub struct RawMessageData {
    pub messages: Vec<UnsignedMessage>,
}

/// One raw message to sign.
#[derive(Debug, Clone)]
pub struct UnsignedMessage {
    pub content: String,
}

/// Per-request options of a balance refresh.
#[derive(Debug, Clone)]
pub struct RequestOptions {
    pub idempotency_key: Option<String>,
    pub ncw: Option<NCW>,
}

/// Non-custodial wallet selector.
#[derive(Debug, Clone)]
pub struct NCW {
    pub wallet_id: Option<String>,
}

/// Chains with built-in network metadata.
#[allow(non_camel_case_types)]
#[derive(Debug, Clone, Copy, PartialEq, Eq, Structural)]
pub enum ChainId {
    MAINNET,
    ROPSTEN,
    KOVAN,
    GOERLI,
    RINKEBY,
    SEPOLIA,
    HOLESKY,
    BSC,
    BSC_TEST,
    POLYGON,
    POLYGON_TEST,
    POLYGON_AMOY,
    AVALANCHE,
    AVALANCHE_TEST,
    MOONRIVER,
    MOONBEAM,
    SONGBIRD,
    ARBITRUM,
    ARBITRUM_SEPOLIA,
    ARBITRUM_RIN,
    FANTOM,
    RSK,
    RSK_TEST,
    CELO,
    CELO_BAK,
    CELO_ALF,
    OPTIMISM,
    OPTIMISM_SEPOLIA,
    OPTIMISM_KOVAN,
    RONIN,
    CANTO,
    CANTO_TEST,
    POLYGON_ZKEVM_TEST,
    POLYGON_ZKEVM,
    KAVA,
    SMARTBCH,
    SMARTBCH_TEST,
    HECO,
    AURORA,
    RISEOFTHEWARBOTSTESTNET,
    EVMOS,
    ASTAR,
    VELAS,
    ARB_GOERLI,
    XDC,
    BASE,
    BASE_SEPOLIA,
    IVAR,
    JOC,
    OASYS,
    SHIMMEREVM,
    LINEA,
    LINEA_TEST,
    FLARE,
    MANTLE,
    MANTLE_TEST,
    BLAST,
    SONEIUM_MINATO,
    LACHAIN,
}

impl ChainId {
    /// The numeric chain id of each network.
    pub open spec fn spec_number(self) -> u64 {
        match self {
            ChainId::MAINNET => 1,
            ChainId::ROPSTEN => 3,
            ChainId::KOVAN => 42,
            ChainId::GOERLI => 5,
            ChainId::RINKEBY => 4,
            ChainId::SEPOLIA => 11155111,
            ChainId::HOLESKY => 17000,
            ChainId::BSC => 56,
            ChainId::BSC_TEST => 97,
            ChainId::POLYGON => 137,
            ChainId::POLYGON_TEST => 80001,
            ChainId::POLYGON_AMOY => 80002,
            ChainId::AVALANCHE => 43114,
            ChainId::AVALANCHE_TEST => 43113,
            ChainId::MOONRIVER => 1285,
            ChainId::MOONBEAM => 1284,
            ChainId::SONGBIRD => 19,
            ChainId::ARBITRUM => 42161,
            ChainId::ARBITRUM_SEPOLIA => 421614,
            ChainId::ARBITRUM_RIN => 421611,
            ChainId::FANTOM => 250,
            ChainId::RSK => 30,
            ChainId::RSK_TEST => 31,
            ChainId::CELO => 42220,
            ChainId::CELO_BAK => 62320,
            ChainId::CELO_ALF => 44787,
            ChainId::OPTIMISM => 10,
            ChainId::OPTIMISM_SEPOLIA => 11155420,
            ChainId::OPTIMISM_KOVAN => 69,
            ChainId::RONIN => 2020,
            ChainId::CANTO => 7700,
            ChainId::CANTO_TEST => 7701,
            ChainId::POLYGON_ZKEVM_TEST => 1442,
            ChainId::POLYGON_ZKEVM => 1101,
            ChainId::KAVA => 2222,
            ChainId::SMARTBCH => 10000,
            ChainId::SMARTBCH_TEST => 10001,
            ChainId::HECO => 128,
            ChainId::AURORA => 1313161554,
            ChainId::RISEOFTHEWARBOTSTESTNET => 7777,
            ChainId::EVMOS => 9001,
            ChainId::ASTAR => 592,
            ChainId::VELAS => 106,
            ChainId::ARB_GOERLI => 421613,
            ChainId::XDC => 50,
            ChainId::BASE => 8453,
            ChainId::BASE_SEPOLIA => 84532,
            ChainId::IVAR => 88888,
            ChainId::JOC => 81,
            ChainId::OASYS => 248,
            ChainId::SHIMMEREVM => 148,
            ChainId::LINEA => 59144,
            ChainId::LINEA_TEST => 59140,
            ChainId::FLARE => 14,
            ChainId::MANTLE => 5000,
            ChainId::MANTLE_TEST => 5001,
            ChainId::BLAST => 81457,
            ChainId::SONEIUM_MINATO => 1946,
            ChainId::LACHAIN => 274,
        }
    }

    /// Returns the numeric chain id of this network.
    pub fn number(&self) -> (r: u64)
        ensures
            r == self.spec_number(),
    {
        match self {
            ChainId::MAINNET => 1,
            ChainId::ROPSTEN => 3,
            ChainId::KOVAN => 42,
            ChainId::GOERLI => 5,
            ChainId::RINKEBY => 4,
            ChainId::SEPOLIA => 11155111,
            ChainId::HOLESKY => 17000,
            ChainId::BSC => 56,
            ChainId::BSC_TEST => 97,
            ChainId::POLYGON => 137,
            ChainId::POLYGON_TEST => 80001,
            ChainId::POLYGON_AMOY => 80002,
            ChainId::AVALANCHE => 43114,
            ChainId::AVALANCHE_TEST => 43113,
            ChainId::MOONRIVER => 1285,
            ChainId::MOONBEAM => 1284,
            ChainId::SONGBIRD => 19,
            ChainId::ARBITRUM => 42161,
            ChainId::ARBITRUM_SEPOLIA => 421614,
            ChainId::ARBITRUM_RIN => 421611,
            ChainId::FANTOM => 250,
            ChainId::RSK => 30,
            ChainId::RSK_TEST => 31,
            ChainId::CELO => 42220,
            ChainId::CELO_BAK => 62320,
            ChainId::CELO_ALF => 44787,
            ChainId::OPTIMISM => 10,
            ChainId::OPTIMISM_SEPOLIA => 11155420,
            ChainId::OPTIMISM_KOVAN => 69,
            ChainId::RONIN => 2020,
            ChainId::CANTO => 7700,
            ChainId::CANTO_TEST => 7701,
            ChainId::POLYGON_ZKEVM_TEST => 1442,
            ChainId::POLYGON_ZKEVM => 1101,
            ChainId::KAVA => 2222,
            ChainId::SMARTBCH => 10000,
            ChainId::SMARTBCH_TEST => 10001,
            ChainId::HECO => 128,
            ChainId::AURORA => 1313161554,
            ChainId::RISEOFTHEWARBOTSTESTNET => 7777,
            ChainId::EVMOS => 9001,
            ChainId::ASTAR => 592,
            ChainId::VELAS => 106,
            ChainId::ARB_GOERLI => 421613,
            ChainId::XDC => 50,
            ChainId::BASE => 8453,
            ChainId::BASE_SEPOLIA => 84532,
            ChainId::IVAR => 88888,
            ChainId::JOC => 81,
            ChainId::OASYS => 248,
            ChainId::SHIMMEREVM => 148,
            ChainId::LINEA => 59144,
            ChainId::LINEA_TEST => 59140,
            ChainId::FLARE => 14,
            ChainId::MANTLE => 5000,
            ChainId::MANTLE_TEST => 5001,
            ChainId::BLAST => 81457,
            ChainId::SONEIUM_MINATO => 1946,
            ChainId::LACHAIN => 274,
        }
    }
}

/// Base URLs of the remote service's environments.
#[derive(Debug, Clone, Copy, PartialEq, Eq, Structural)]
pub enum ApiBaseUrl {
    Production,
    Sandbox,
    EU,
    EU2,
}

impl ApiBaseUrl {
    /// The base URL selected by this environment.
    pub open spec fn spec_value(self) -> Seq<char> {
        match self {
            ApiBaseUrl::Production => "https://api.fireblocks.io"@,
            ApiBaseUrl::Sandbox => "https://sandbox-api.fireblocks.io"@,
            ApiBaseUrl::EU => "https://eu-api.fireblocks.io/v1"@,
            ApiBaseUrl::EU2 => "https://eu2-api.fireblocks.io/v1"@,
        }
    }

    /// Returns the base URL of this environment.
    pub fn value(&self) -> (r: &str)
        ensures
            r@ == self.spec_value(),
    {
        match self {
            ApiBaseUrl::Production => "https://api.fireblocks.io",
            ApiBaseUrl::Sandbox => "https://sandbox-api.fireblocks.io",
            ApiBaseUrl::EU => "https://eu-api.fireblocks.io/v1",
            ApiBaseUrl::EU2 => "https://eu2-api.fireblocks.io/v1",
        }
    }
}

/// Network metadata of one chain: its asset id and a public RPC endpoint.
#[derive(Debug, Clone)]
pub struct Asset {
    pub asset_id: String,
    pub rpc_url: String,
}

impl Asset {
    /// The asset id that the metadata table assigns to `chain_id`.
    pub open spec fn spec_asset_id(chain_id: ChainId) -> Seq<char> {
        match chain_id {
            ChainId::MAINNET => "ETH"@,
            ChainId::ROPSTEN => "ETH_TEST"@,
            ChainId::KOVAN => "ETH_TEST2"@,
            ChainId::GOERLI => "ETH_TEST3"@,
            ChainId::RINKEBY => "ETH_TEST4"@,
            ChainId::SEPOLIA => "ETH_TEST5"@,
            ChainId::HOLESKY => "ETH_TEST6"@,
            ChainId::BSC => "BNB_BSC"@,
            ChainId::BSC_TEST => "BNB_TEST"@,
            ChainId::POLYGON => "MATIC_POLYGON"@,
            ChainId::POLYGON_TEST => "MATIC_POLYGON_MUMBAI"@,
            ChainId::POLYGON_AMOY => "AMOY_POLYGON_TEST"@,
            ChainId::AVALANCHE => "AVAX"@,
            ChainId::AVALANCHE_TEST => "AVAXTEST"@,
            ChainId::MOONRIVER => "MOVR_MOVR"@,
            ChainId::MOONBEAM => "GLMR_GLMR"@,
            ChainId::SONGBIRD => "SGB"@,
            ChainId::ARBITRUM => "ETH-AETH"@,
            ChainId::ARBITRUM_SEPOLIA => "ETH-AETH_SEPOLIA"@,
            ChainId::ARBITRUM_RIN => "ETH-AETH-RIN"@,
            ChainId::FANTOM => "FTM_FANTOM"@,
            ChainId::RSK => "RBTC"@,
            ChainId::RSK_TEST => "RBTC_TEST"@,
            ChainId::CELO => "CELO"@,
            ChainId::CELO_BAK => "CELO_BAK"@,
            ChainId::CELO_ALF => "CELO_ALF"@,
            ChainId::OPTIMISM => "ETH-OPT"@,
            ChainId::OPTIMISM_SEPOLIA => "ETH-OPT_SEPOLIA"@,
            ChainId::OPTIMISM_KOVAN => "ETH-OPT_KOV"@,
            ChainId::RONIN => "RON"@,
            ChainId::CANTO => "CANTO"@,
            ChainId::CANTO_TEST => "CANTO_TEST"@,
            ChainId::POLYGON_ZKEVM_TEST => "ETH_ZKEVM_TEST"@,
            ChainId::POLYGON_ZKEVM => "ETH_ZKEVM"@,
            ChainId::KAVA => "KAVA_KAVA"@,
            ChainId::SMARTBCH => "SMARTBCH"@,
            ChainId::SMARTBCH_TEST => "ETHW"@,
            ChainId::HECO => "HT_CHAIN"@,
            ChainId::AURORA => "AURORA_DEV"@,
            ChainId::RISEOFTHEWARBOTSTESTNET => "TKX"@,
            ChainId::EVMOS => "EVMOS"@,
            ChainId::ASTAR => "ASTR_ASTR"@,
            ChainId::VELAS => "VLX_VLX"@,
            ChainId::ARB_GOERLI => "ETH-AETH_GOERLI"@,
            ChainId::XDC => "XDC"@,
            ChainId::BASE => "BASECHAIN_ETH"@,
            ChainId::BASE_SEPOLIA => "BASECHAIN_ETH_TEST5"@,
            ChainId::IVAR => "CHZ_CHZ2"@,
            ChainId::JOC => "ASTR_TEST"@,
            ChainId::OASYS => "OAS"@,
            ChainId::SHIMMEREVM => "SMR_SMR"@,
            ChainId::LINEA => "LINEA"@,
            ChainId::LINEA_TEST => "LINEA_TEST"@,
            ChainId::FLARE => "FLR"@,
            ChainId::MANTLE => "MANTLE"@,
            ChainId::MANTLE_TEST => "MANTLE_TEST"@,
            ChainId::BLAST => "BLAST"@,
            ChainId::SONEIUM_MINATO => "SONEIUM_MINATO_TEST"@,
            ChainId::LACHAIN => "LAC"@,
        }
    }

    /// The default RPC endpoint that the metadata table assigns to `chain_id`.
    pub open spec fn spec_rpc_url(chain_id: ChainId) -> Seq<char> {
        match chain_id {
            ChainId::MAINNET => "https://cloudflare-eth.com"@,
            ChainId::ROPSTEN => "https://rpc.ankr.com/eth_ropsten"@,
            ChainId::KOVAN => "https://kovan.poa.network"@,
            ChainId::GOERLI => "https://rpc.ankr.com/eth_goerli"@,
            ChainId::RINKEBY => "https://rpc.ankr.com/eth_rinkeby"@,
            ChainId::SEPOLIA => "https://rpc.sepolia.org"@,
            ChainId::HOLESKY => "https://ethereum-holesky-rpc.publicnode.com"@,
            ChainId::BSC => "https://bsc-dataseed.binance.org"@,
            ChainId::BSC_TEST => "https://data-seed-prebsc-1-s1.binance.org:8545"@,
            ChainId::POLYGON => "https://polygon-rpc.com"@,
            ChainId::POLYGON_TEST => "https://rpc-mumbai.maticvigil.com"@,
            ChainId::POLYGON_AMOY => "https://rpc-amoy.polygon.technology"@,
            ChainId::AVALANCHE => "https://api.avax.network/ext/bc/C/rpc"@,
            ChainId::AVALANCHE_TEST => "https://api.avax-test.network/ext/bc/C/rpc"@,
            ChainId::MOONRIVER => "https://rpc.moonriver.moonbeam.network"@,
            ChainId::MOONBEAM => "https://rpc.api.moonbeam.network"@,
            ChainId::SONGBIRD => "https://songbird.towolabs.com/rpc"@,
            ChainId::ARBITRUM => "https://rpc.ankr.com/arbitrum"@,
            ChainId::ARBITRUM_SEPOLIA => "https://sepolia-rollup.arbitrum.io/rpc"@,
            ChainId::ARBITRUM_RIN => "https://rinkeby.arbitrum.io/rpc"@,
            ChainId::FANTOM => "https://rpc.ftm.tools/"@,
            ChainId::RSK => "https://public-node.rsk.co"@,
            ChainId::RSK_TEST => "https://public-node.testnet.rsk.co"@,
            ChainId::CELO => "https://rpc.ankr.com/celo"@,
            ChainId::CELO_BAK => "https://baklava-blockscout.celo-testnet.org/api/eth-rpc"@,
            ChainId::CELO_ALF => "https://alfajores-forno.celo-testnet.org/api/eth-rpc"@,
            ChainId::OPTIMISM => "https://rpc.ankr.com/optimism"@,
            ChainId::OPTIMISM_SEPOLIA => "https://sepolia.optimism.io/"@,
            ChainId::OPTIMISM_KOVAN => "https://kovan.optimism.io/"@,
            ChainId::RONIN => "https://api.roninchain.com/rpc"@,
            ChainId::CANTO => "https://canto.gravitychain.io"@,
            ChainId::CANTO_TEST => "https://testnet-archive.plexnode.wtf"@,
            ChainId::POLYGON_ZKEVM_TEST => "https://rpc.public.zkevm-test.net"@,
            ChainId::POLYGON_ZKEVM => "https://zkevm-rpc.com"@,
            ChainId::KAVA => "https://evm.kava.io"@,
            ChainId::SMARTBCH => "https://smartbch.greyh.at"@,
            ChainId::SMARTBCH_TEST => "https://rpc-testnet.smartbch.org"@,
            ChainId::HECO => "https://http-mainnet.hecochain.com"@,
            ChainId::AURORA => "https://mainnet.aurora.dev"@,
            ChainId::RISEOFTHEWARBOTSTESTNET => "https://testnet1.rotw.games"@,
            ChainId::EVMOS => "https://eth.bd.evmos.org"@,
            ChainId::ASTAR => "https://evm.astar.network"@,
            ChainId::VELAS => "https://evmexplorer.velas.com/rpc"@,
            ChainId::ARB_GOERLI => "https://endpoints.omniatech.io/v1/arbitrum/goerli/public"@,
            ChainId::XDC => "https://rpc.xdcrpc.com"@,
            ChainId::BASE => "https://mainnet.base.org"@,
            ChainId::BASE_SEPOLIA => "https://sepolia.base.org"@,
            ChainId::IVAR => "https://mainnet-rpc.ivarex.com"@,
            ChainId::JOC => "https://rpc-1.japanopenchain.org:8545"@,
            ChainId::OASYS => "https://oasys.blockpi.network/v1/rpc/public"@,
            ChainId::SHIMMEREVM => "https://json-rpc.evm.shimmer.network"@,
            ChainId::LINEA => "https://rpc.linea.build"@,
            ChainId::LINEA_TEST => "https://rpc.goerli.linea.build"@,
            ChainId::FLARE => "https://flare-api.flare.network/ext/C/rpc"@,
            ChainId::MANTLE => "https://rpc.mantle.xyz"@,
            ChainId::MANTLE_TEST => "https://rpc.testnet.mantle.xyz"@,
            ChainId::BLAST => "https://rpc.ankr.com/blast"@,
            ChainId::SONEIUM_MINATO => "https://rpc.minato.soneium.org/"@,
            ChainId::LACHAIN => "https://rpc1.mainnet.lachain.network"@,
        }
    }

    /// Looks up the network metadata of a chain.
    pub fn get_by_chain_id(chain_id: ChainId) -> (r: Asset)
        ensures
            r.asset_id@ == Self::spec_asset_id(chain_id),
            r.rpc_url@ == Self::spec_rpc_url(chain_id),
    {
        match chain_id {
            ChainId::MAINNET => Asset {
                asset_id: String::from_str("ETH"),
                rpc_url: String::from_str("https://cloudflare-eth.com"),
            },
            ChainId::ROPSTEN => Asset {
                asset_id: String::from_str("ETH_TEST"),
                rpc_url: String::from_str("https://rpc.ankr.com/eth_ropsten"),
            },
            ChainId::KOVAN => Asset {
                asset_id: String::from_str("ETH_TEST2"),
                rpc_url: String::from_str("https://kovan.poa.network"),
            },
            ChainId::GOERLI => Asset {
                asset_id: String::from_str("ETH_TEST3"),
                rpc_url: String::from_str("https://rpc.ankr.com/eth_goerli"),
            },
            ChainId::RINKEBY => Asset {
                asset_id: String::from_str("ETH_TEST4"),
                rpc_url: String::from_str("https://rpc.ankr.com/eth_rinkeby"),
            },
            ChainId::SEPOLIA => Asset {
                asset_id: String::from_str("ETH_TEST5"),
                rpc_url: String::from_str("https://rpc.sepolia.org"),
            },
            ChainId::HOLESKY => Asset {
                asset_id: String::from_str("ETH_TEST6"),
                rpc_url: String::from_str("https://ethereum-holesky-rpc.publicnode.com"),
            },
            ChainId::BSC => Asset {
                asset_id: String::from_str("BNB_BSC"),
                rpc_url: String::from_str("https://bsc-dataseed.binance.org"),
            },
            ChainId::BSC_TEST => Asset {
                asset_id: String::from_str("BNB_TEST"),
                rpc_url: String::from_str("https://data-seed-prebsc-1-s1.binance.org:8545"),
            },
            ChainId::POLYGON => Asset {
                asset_id: String::from_str("MATIC_POLYGON"),
                rpc_url: String::from_str("https://polygon-rpc.com"),
            },
            ChainId::POLYGON_TEST => Asset {
                asset_id: String::from_str("MATIC_POLYGON_MUMBAI"),
                rpc_url: String::from_str("https://rpc-mumbai.maticvigil.com"),
            },
            ChainId::POLYGON_AMOY => Asset {
                asset_id: String::from_str("AMOY_POLYGON_TEST"),
                rpc_url: String::from_str("https://rpc-amoy.polygon.technology"),
            },
            ChainId::AVALANCHE => Asset {
                asset_id: String::from_str("AVAX"),
                rpc_url: String::from_str("https://api.avax.network/ext/bc/C/rpc"),
            },
            ChainId::AVALANCHE_TEST => Asset {
                asset_id: String::from_str("AVAXTEST"),
                rpc_url: String::from_str("https://api.avax-test.network/ext/bc/C/rpc"),
            },
            ChainId::MOONRIVER => Asset {
                asset_id: String::from_str("MOVR_MOVR"),
                rpc_url: String::from_str("https://rpc.moonriver.moonbeam.network"),
            },
            ChainId::MOONBEAM => Asset {
                asset_id: String::from_str("GLMR_GLMR"),
                rpc_url: String::from_str("https://rpc.api.moonbeam.network"),
            },
            ChainId::SONGBIRD => Asset {
                asset_id: String::from_str("SGB"),
                rpc_url: String::from_str("https://songbird.towolabs.com/rpc"),
            },
            ChainId::ARBITRUM => Asset {
                asset_id: String::from_str("ETH-AETH"),
                rpc_url: String::from_str("https://rpc.ankr.com/arbitrum"),
            },
            ChainId::ARBITRUM_SEPOLIA => Asset {
                asset_id: String::from_str("ETH-AETH_SEPOLIA"),
                rpc_url: String::from_str("https://sepolia-rollup.arbitrum.io/rpc"),
            },
            ChainId::ARBITRUM_RIN => Asset {
                asset_id: String::from_str("ETH-AETH-RIN"),
                rpc_url: String::from_str("https://rinkeby.arbitrum.io/rpc"),
            },
            ChainId::FANTOM => Asset {
                asset_id: String::from_str("FTM_FANTOM"),
                rpc_url: String::from_str("https://rpc.ftm.tools/"),
            },
            ChainId::RSK => Asset {
                asset_id: String::from_str("RBTC"),
                rpc_url: String::from_str("https://public-node.rsk.co"),
            },
            ChainId::RSK_TEST => Asset {
                asset_id: String::from_str("RBTC_TEST"),
                rpc_url: String::from_str("https://public-node.testnet.rsk.co"),
            },
            ChainId::CELO => Asset {
                asset_id: String::from_str("CELO"),
                rpc_url: String::from_str("https://rpc.ankr.com/celo"),
            },
            ChainId::CELO_BAK => Asset {
                asset_id: String::from_str("CELO_BAK"),
                rpc_url: String::from_str("https://baklava-blockscout.celo-testnet.org/api/eth-rpc"),
            },
            ChainId::CELO_ALF => Asset {
                asset_id: String::from_str("CELO_ALF"),
                rpc_url: String::from_str("https://alfajores-forno.celo-testnet.org/api/eth-rpc"),
            },
            ChainId::OPTIMISM => Asset {
                asset_id: String::from_str("ETH-OPT"),
                rpc_url: String::from_str("https://rpc.ankr.com/optimism"),
            },
            ChainId::OPTIMISM_SEPOLIA => Asset {
                asset_id: String::from_str("ETH-OPT_SEPOLIA"),
                rpc_url: String::from_str("https://sepolia.optimism.io/"),
            },
            ChainId::OPTIMISM_KOVAN => Asset {
                asset_id: String::from_str("ETH-OPT_KOV"),
                rpc_url: String::from_str("https://kovan.optimism.io/"),
            },
            ChainId::RONIN => Asset {
                asset_id: String::from_str("RON"),
                rpc_url: String::from_str("https://api.roninchain.com/rpc"),
            },
            ChainId::CANTO => Asset {
                asset_id: String::from_str("CANTO"),
                rpc_url: String::from_str("https://canto.gravitychain.io"),
            },
            ChainId::CANTO_TEST => Asset {
                asset_id: String::from_str("CANTO_TEST"),
                rpc_url: String::from_str("https://testnet-archive.plexnode.wtf"),
            },
            ChainId::POLYGON_ZKEVM_TEST => Asset {
                asset_id: String::from_str("ETH_ZKEVM_TEST"),
                rpc_url: String::from_str("https://rpc.public.zkevm-test.net"),
            },
            ChainId::POLYGON_ZKEVM => Asset {
                asset_id: String::from_str("ETH_ZKEVM"),
                rpc_url: String::from_str("https://zkevm-rpc.com"),
            },
            ChainId::KAVA => Asset {
                asset_id: String::from_str("KAVA_KAVA"),
                rpc_url: String::from_str("https://evm.kava.io"),
            },
            ChainId::SMARTBCH => Asset {
                asset_id: String::from_str("SMARTBCH"),
                rpc_url: String::from_str("https://smartbch.greyh.at"),
            },
            ChainId::SMARTBCH_TEST => Asset {
                asset_id: String::from_str("ETHW"),
                rpc_url: String::from_str("https://rpc-testnet.smartbch.org"),
            },
            ChainId::HECO => Asset {
                asset_id: String::from_str("HT_CHAIN"),
                rpc_url: String::from_str("https://http-mainnet.hecochain.com"),
            },
            ChainId::AURORA => Asset {
                asset_id: String::from_str("AURORA_DEV"),
                rpc_url: String::from_str("https://mainnet.aurora.dev"),
            },
            ChainId::RISEOFTHEWARBOTSTESTNET => Asset {
                asset_id: String::from_str("TKX"),
                rpc_url: String::from_str("https://testnet1.rotw.games"),
            },
            ChainId::EVMOS => Asset {
                asset_id: String::from_str("EVMOS"),
                rpc_url: String::from_str("https://eth.bd.evmos.org"),
            },
            ChainId::ASTAR => Asset {
                asset_id: String::from_str("ASTR_ASTR"),
                rpc_url: String::from_str("https://evm.astar.network"),
            },
            ChainId::VELAS => Asset {
                asset_id: String::from_str("VLX_VLX"),
                rpc_url: String::from_str("https://evmexplorer.velas.com/rpc"),
            },
            ChainId::ARB_GOERLI => Asset {
                asset_id: String::from_str("ETH-AETH_GOERLI"),
                rpc_url: String::from_str("https://endpoints.omniatech.io/v1/arbitrum/goerli/public"),
            },
            ChainId::XDC => Asset {
                asset_id: String::from_str("XDC"),
                rpc_url: String::from_str("https://rpc.xdcrpc.com"),
            },
            ChainId::BASE => Asset {
                asset_id: String::from_str("BASECHAIN_ETH"),
                rpc_url: String::from_str("https://mainnet.base.org"),
            },
            ChainId::BASE_SEPOLIA => Asset {
                asset_id: String::from_str("BASECHAIN_ETH_TEST5"),
                rpc_url: String::from_str("https://sepolia.base.org"),
            },
            ChainId::IVAR => Asset {
                asset_id: String::from_str("CHZ_CHZ2"),
                rpc_url: String::from_str("https://mainnet-rpc.ivarex.com"),
            },
            ChainId::JOC => Asset {
                asset_id: String::from_str("ASTR_TEST"),
                rpc_url: String::from_str("https://rpc-1.japanopenchain.org:8545"),
            },
            ChainId::OASYS => Asset {
                asset_id: String::from_str("OAS"),
                rpc_url: String::from_str("https://oasys.blockpi.network/v1/rpc/public"),
            },
            ChainId::SHIMMEREVM => Asset {
                asset_id: String::from_str("SMR_SMR"),
                rpc_url: String::from_str("https://json-rpc.evm.shimmer.network"),
            },
            ChainId::LINEA => Asset {
                asset_id: String::from_str("LINEA"),
                rpc_url: String::from_str("https://rpc.linea.build"),
            },
            ChainId::LINEA_TEST => Asset {
                asset_id: String::from_str("LINEA_TEST"),
                rpc_url: String::from_str("https://rpc.goerli.linea.build"),
            },
            ChainId::FLARE => Asset {
                asset_id: String::from_str("FLR"),
                rpc_url: String::from_str("https://flare-api.flare.network/ext/C/rpc"),
            },
            ChainId::MANTLE => Asset {
                asset_id: String::from_str("MANTLE"),
                rpc_url: String::from_str("https://rpc.mantle.xyz"),
            },
            ChainId::MANTLE_TEST => Asset {
                asset_id: String::from_str("MANTLE_TEST"),
                rpc_url: String::from_str("https://rpc.testnet.mantle.xyz"),
            },
            ChainId::BLAST => Asset {
                asset_id: String::from_str("BLAST"),
                rpc_url: String::from_str("https://rpc.ankr.com/blast"),
            },
            ChainId::SONEIUM_MINATO => Asset {
                asset_id: String::from_str("SONEIUM_MINATO_TEST"),
                rpc_url: String::from_str("https://rpc.minato.soneium.org/"),
            },
            ChainId::LACHAIN => Asset {
                asset_id: String::from_str("LAC"),
                rpc_url: String::from_str("https://rpc1.mainnet.lachain.network"),
            },
        }
    }

    /// Replaces the RPC endpoint, for callers that bring their own node.
    pub fn set_rpc_url(&mut self, new_url: String)
        ensures
            final(self).rpc_url == new_url,
            final(self).asset_id == old(self).asset_id,
    {
        self.rpc_url = new_url;
    }
}

/// Raw message envelope kinds.
#[allow(non_camel_case_types)]
#[derive(Debug, Clone, Copy, PartialEq, Eq, Structural)]
pub enum RawMessageType {
    EIP712,
    ETH_MESSAGE,
}

impl RawMessageType {
    /// The wire name of this message kind.
    pub open spec fn spec_value(self) -> Seq<char> {
        match self {
            RawMessageType::EIP712 => "EIP712"@,
            RawMessageType::ETH_MESSAGE => "ETH_MESSAGE"@,
        }
    }

    /// Returns the wire name of this message kind.
    pub fn value(&self) -> (r: &str)
        ensures
            r@ == self.spec_value(),
    {
        match self {
            RawMessageType::EIP712 => "EIP712",
            RawMessageType::ETH_MESSAGE => "ETH_MESSAGE",
        }
    }
}

/// Fee priority levels.
#[derive(Debug, Clone, Copy, PartialEq, Eq, Structural)]
pub enum FeeLevel {
    HIGH,
    MEDIUM,
    LOW,
}

impl FeeLevel {
    /// The wire name of this fee level.
    pub open spec fn spec_value(self) -> Seq<char> {
        match self {
            FeeLevel::HIGH => "HIGH"@,
            FeeLevel::MEDIUM => "MEDIUM"@,
            FeeLevel::LOW => "LOW"@,
        }
    }

    /// Returns the wire name of this fee level.
    pub fn value(&self) -> (r: &str)
        ensures
            r@ == self.spec_value(),
    {
        match self {
            FeeLevel::HIGH => "HIGH",
            FeeLevel::MEDIUM => "MEDIUM",
            FeeLevel::LOW => "LOW",
        }
    }
}

/// Configuration of a provider session: credentials, network selection and
/// the knobs of the polling loop.
#[derive(Debug, Clone)]
pub struct FireblocksProviderConfig {
    pub api_key: String,
    pub private_key: String,
    pub api_base_url: ApiBaseUrl,
    pub chain_id: ChainId,
    pub rpc_url: Option<String>,
    pub vault_account_ids: Option<Vec<String>>,
    pub fallback_fee_level: Option<FeeLevel>,
    pub note: Option<String>,
    pub polling_interval: Option<u64>,
    pub one_time_addresses_enabled: Option<bool>,
    pub external_tx_id: Option<String>,
    pub user_agent: Option<String>,
    pub asset_id: Option<String>,
    pub log_transaction_status_changes: Option<bool>,
    pub log_requests_and_responses: Option<bool>,
    pub enhanced_error_handling: Option<bool>,
    pub gasless_gas_tank_vault_id: Option<u64>,
    pub proxy_path: Option<String>,
}

impl FireblocksProviderConfig {
    /// Builds a configuration with the defaults inferred from the chain id.
    pub fn new(
        api_key: String,
        private_key: String,
        api_base_url: ApiBaseUrl,
        chain_id: ChainId,
    ) -> (r: Self)
        ensures
            r.api_key == api_key,
            r.private_key == private_key,
            r.api_base_url == api_base_url,
            r.chain_id == chain_id,
            (r.rpc_url matches Some(u) && u@ == Asset::spec_rpc_url(chain_id)),
            r.vault_account_ids is None,
            r.fallback_fee_level == Some(FeeLevel::MEDIUM),
            (r.note matches Some(n) && n@ == "alloy-fireblocks Provider"@),
            r.polling_interval == Some(1000u64),
            r.one_time_addresses_enabled == Some(true),
            r.external_tx_id is None,
            r.user_agent is None,
            (r.asset_id matches Some(a) && a@ == Asset::spec_asset_id(chain_id)),
            r.log_transaction_status_changes == Some(false),
            r.log_requests_and_responses == Some(false),
            r.enhanced_error_handling == Some(true),
            r.gasless_gas_tank_vault_id is None,
            r.proxy_path is None,
    {
        let asset = Asset::get_by_chain_id(chain_id);
        FireblocksProviderConfig {
            api_key,
            private_key,
            api_base_url,
            chain_id,
            rpc_url: Some(asset.rpc_url),
            vault_account_ids: None,
            fallback_fee_level: Some(FeeLevel::MEDIUM),
            note: Some(String::from_str("alloy-fireblocks Provider")),
            polling_interval: Some(1000),
            one_time_addresses_enabled: Some(true),
            external_tx_id: None,
            user_agent: None,
            asset_id: Some(asset.asset_id),
            log_transaction_status_changes: Some(false),
            log_requests_and_responses: Some(false),
            enhanced_error_handling: Some(true),
            gasless_gas_tank_vault_id: None,
            proxy_path: None,
        }
    }

    /// Overrides the RPC endpoint.
    pub fn with_rpc_url(self, rpc_url: String) -> (r: Self)
        ensures
            r == (FireblocksProviderConfig { rpc_url: Some(rpc_url), ..self }),
    {
        FireblocksProviderConfig { rpc_url: Some(rpc_url), ..self }
    }

    /// Restricts the session to the given vault account ids.
    pub fn with_vault_account_ids(self, ids: Vec<String>) -> (r: Self)
        ensures
            r == (FireblocksProviderConfig { vault_account_ids: Some(ids), ..self }),
    {
        FireblocksProviderConfig { vault_account_ids: Some(ids), ..self }
    }

    /// Sets the fee level used when a request names none.
    pub fn with_fallback_fee_level(self, level: FeeLevel) -> (r: Self)
        ensures
            r == (FireblocksProviderConfig { fallback_fee_level: Some(level), ..self }),
    {
        FireblocksProviderConfig { fallback_fee_level: Some(level), ..self }
    }

    /// Sets the note attached to created transactions.
    pub fn with_note(self, note: String) -> (r: Self)
        ensures
            r == (FireblocksProviderConfig { note: Some(note), ..self }),
    {
        FireblocksProviderConfig { note: Some(note), ..self }
    }

    /// Sets the pause between status polls, in milliseconds.
    pub fn with_polling_interval(self, polling_interval: u64) -> (r: Self)
        ensures
            r == (FireblocksProviderConfig {
                polling_interval: Some(polling_interval),
                ..self
            }),
    {
        FireblocksProviderConfig { polling_interval: Some(polling_interval), ..self }
    }

    /// Enables or disables one-time destination addresses.
    pub fn with_one_time_addresses_enabled(self, one_time_addresses_enabled: bool) -> (r: Self)
        ensures
            r == (FireblocksProviderConfig {
                one_time_addresses_enabled: Some(one_time_addresses_enabled),
                ..self
            }),
    {
        FireblocksProviderConfig {
            one_time_addresses_enabled: Some(one_time_addresses_enabled),
            ..self
        }
    }

    /// Sets a caller-chosen external transaction id.
    pub fn with_external_tx_id(self, external_tx_id: String) -> (r: Self)
        ensures
            r == (FireblocksProviderConfig {
                external_tx_id: Some(external_tx_id),
                ..self
            }),
    {
        FireblocksProviderConfig { external_tx_id: Some(external_tx_id), ..self }
    }

    /// Appends a custom fragment to the user agent.
    pub fn with_user_agent(self, user_agent: String) -> (r: Self)
        ensures
            r == (FireblocksProviderConfig { user_agent: Some(user_agent), ..self }),
    {
        FireblocksProviderConfig { user_agent: Some(user_agent), ..self }
    }

    /// Sets the asset id and RPC endpoint together, overriding the defaults
    /// inferred from the chain id.
    pub fn with_asset_id(self, asset_id: String, rpc_url: String) -> (r: Self)
        ensures
            r == (FireblocksProviderConfig {
                asset_id: Some(asset_id),
                rpc_url: Some(rpc_url),
                ..self
            }),
    {
        FireblocksProviderConfig { asset_id: Some(asset_id), rpc_url: Some(rpc_url), ..self }
    }

    /// Enables or disables logging of status changes.
    pub fn with_log_transaction_status_changes(
        self,
        log_transaction_status_changes: bool,
    ) -> (r: Self)
        ensures
            r == (FireblocksProviderConfig {
                log_transaction_status_changes: Some(log_transaction_status_changes),
                ..self
            }),
    {
        FireblocksProviderConfig {
            log_transaction_status_changes: Some(log_transaction_status_changes),
            ..self
        }
    }

    /// Enables or disables logging of requests and responses.
    pub fn with_log_requests_and_responses(self, log_requests_and_responses: bool) -> (r: Self)
        ensures
            r == (FireblocksProviderConfig {
                log_requests_and_responses: Some(log_requests_and_responses),
                ..self
            }),
    {
        FireblocksProviderConfig {
            log_requests_and_responses: Some(log_requests_and_responses),
            ..self
        }
    }

    /// Enables or disables enhanced error handling.
    pub fn with_enhanced_error_handling(self, enhanced_error_handling: bool) -> (r: Self)
        ensures
            r == (FireblocksProviderConfig {
                enhanced_error_handling: Some(enhanced_error_handling),
                ..self
            }),
    {
        FireblocksProviderConfig {
            enhanced_error_handling: Some(enhanced_error_handling),
            ..self
        }
    }

    /// Selects the vault that pays gas for gasless transactions.
    pub fn with_gasless_gas_tank_vault_id(self, gasless_gas_tank_vault_id: u64) -> (r: Self)
        ensures
            r == (FireblocksProviderConfig {
                gasless_gas_tank_vault_id: Some(gasless_gas_tank_vault_id),
                ..self
            }),
    {
        FireblocksProviderConfig {
            gasless_gas_tank_vault_id: Some(gasless_gas_tank_vault_id),
            ..self
        }
    }

    /// Routes requests through a proxy path.
    pub fn with_proxy_path(self, proxy_path: String) -> (r: Self)
        ensures
            r == (FireblocksProviderConfig { proxy_path: Some(proxy_path), ..self }),
    {
        FireblocksProviderConfig { proxy_path: Some(proxy_path), ..self }
    }
}

/// A generic RPC request envelope.
#[derive(Debug, Clone)]
pub struct RequestArguments<T> {
    pub method: String,
    pub params: Option<T>,
}

} // verus!
