use poseidon_common::{
    AccountOptions, Cluster, PSSProtocol, PoseidonError, PoseidonOutcome, PoseidonResult,
    StoreErr, UserData,
};

#[test]
fn every_cluster_has_its_address() {
    assert_eq!(Cluster::MainnetBeta.url(), "https://api.mainnet-beta.solana.com");
    assert_eq!(Cluster::MainnetBetaSerum.url(), "https://solana-api.projectserum.com");
    assert_eq!(Cluster::Testnet.url(), "https://api.testnet.solana.com");
    assert_eq!(Cluster::Devnet.url(), "https://api.devnet.solana.com");
}

#[test]
fn the_default_cluster_is_the_development_one() {
    assert_eq!(Cluster::default(), Cluster::Devnet);
    assert_eq!(Cluster::default().url(), "https://api.devnet.solana.com");
}

#[test]
fn clusters_are_ordered_as_declared() {
    assert!(Cluster::MainnetBeta < Cluster::MainnetBetaSerum);
    assert!(Cluster::MainnetBetaSerum < Cluster::Testnet);
    assert!(Cluster::Testnet < Cluster::Devnet);
}

#[test]
fn an_outcome_wraps_the_unified_error() {
    let failed = PoseidonOutcome::Failure(PoseidonError::MissingKeypair);
    assert_ne!(failed, PoseidonOutcome::Success);
    assert!(PoseidonOutcome::Success < failed);
    assert_eq!(failed, PoseidonOutcome::Failure(PoseidonError::MissingKeypair));
}

#[test]
fn the_result_alias_carries_the_unified_error() {
    let failed: PoseidonResult<u8> = Err(PoseidonError::AccountNotFound);
    assert_eq!(failed, Err(PoseidonError::AccountNotFound));
    let fine: PoseidonResult<u8> = Ok(7);
    assert_eq!(fine, Ok(7));
}

#[test]
fn plain_data_is_made_of_its_fields() {
    let data = UserData { mime: "text/plain".to_string(), data: vec![1, 2, 3] };
    assert_eq!(data.mime, "text/plain");
    assert_eq!(data.data, vec![1, 2, 3]);
    assert!(AccountOptions::CreateIfNone < AccountOptions::ErrIfNone);
    assert!(StoreErr::PermissionDenied < StoreErr::StoreNotFound(String::new()));
    assert_eq!(StoreErr::DeletionErr("k".to_string()), StoreErr::DeletionErr("k".to_string()));
    match PSSProtocol::Account("abc".to_string()) {
        PSSProtocol::Account(key) => assert_eq!(key, "abc"),
        other => panic!("expected an account request, got {:?}", other),
    }
}
