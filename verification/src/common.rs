//! Plain data that the toolkit shares: byte shapes of keys and signatures,
//! the clusters and their addresses, and a few small vocabularies.

use crate::errors::common::PoseidonError;
use vstd::prelude::*;

verus! {

pub type Ed25519Keypair = [u8; 64];

pub type Ed25519Signature = [u8; 64];

pub type Ed25519PublicKey = [u8; 32];

pub type Base58PublicKey = String;

pub type Base58Signature = String;

pub type Base58Sha256Hash = String;

pub type Lamports = u64;

pub type PdaData = Vec<u8>;

pub type Base58BlockHash = String;

pub type Base58EncodedData = String;

pub type UnixTimestamp = i64;

pub type EncryptedData = Vec<u8>;

pub type DataID = [u8; 32];

pub type TokenID = [u8; 32];

pub type SubscriptionID = [u8; 32];

pub type DataOwnedBytes = Vec<u8>;

pub type DataBytes<'a> = &'a [u8];

/// A cluster of the network.
#[derive(Debug, Clone, Copy, PartialEq, Eq, PartialOrd, Structural)]
pub enum Cluster {
    MainnetBeta,
    MainnetBetaSerum,
    Testnet,
    Devnet,
}

impl Cluster {
    /// The address of the cluster's public RPC endpoint.
    pub open spec fn url_text(self) -> Seq<char> {
        match self {
            Cluster::MainnetBeta => "https://api.mainnet-beta.solana.com"@,
            Cluster::MainnetBetaSerum => "https://solana-api.projectserum.com"@,
            Cluster::Testnet => "https://api.testnet.solana.com"@,
            Cluster::Devnet => "https://api.devnet.solana.com"@,
        }
    }

    /// The address of the cluster's public RPC endpoint.
    pub fn url(&self) -> (address: &'static str)
        ensures
            address@ == self.url_text(),
    {
        match self {
            Cluster::MainnetBeta => "https://api.mainnet-beta.solana.com",
            Cluster::MainnetBetaSerum => "https://solana-api.projectserum.com",
            Cluster::Testnet => "https://api.testnet.solana.com",
            Cluster::Devnet => "https://api.devnet.solana.com",
        }
    }
}

impl Default for Cluster {
    /// The development cluster.
    fn default() -> (cluster: Self)
        ensures
            cluster == Cluster::Devnet,
    {
        Cluster::Devnet
    }
}

/// How an operation ended.
#[derive(Debug, PartialEq, Eq, PartialOrd, Ord)]
pub enum PoseidonOutcome {
    Success,
    Failure(PoseidonError),
}

/// Data of a user, with the media type that says how to read it.
#[derive(Debug)]
pub struct UserData {
    pub mime: String,
    pub data: Vec<u8>,
}

/// What to do about an account that does not exist.
#[derive(Debug, Clone, Copy, PartialEq, Eq, PartialOrd, Ord, Structural)]
pub enum AccountOptions {
    /// Creates an account if the account doesn't exist
    CreateIfNone,
    /// Error if the account doesn't exist
    ErrIfNone,
}

} // verus!
