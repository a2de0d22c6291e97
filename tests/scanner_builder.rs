use taiji_wallet::scanner::{UtxoScannerMode, UtxoScannerServiceBuilder};

#[test]
fn builder_defaults() {
    let mut b = UtxoScannerServiceBuilder::default();
    let s = b.build();
    assert_eq!(s.retry_limit, 0);
    assert!(s.peers.is_empty());
    assert_eq!(s.mode, UtxoScannerMode::Recovery);
    assert_eq!(s.one_sided_message, "Detected one-sided payment on blockchain");
    assert_eq!(s.recovery_message, "Output found on blockchain during Wallet Recovery");
    assert_eq!(UtxoScannerMode::default(), UtxoScannerMode::Recovery);
}

#[test]
fn builder_chains_settings_and_drains_peers() {
    let mut b = UtxoScannerServiceBuilder::default();
    b.with_retry_limit(4)
        .with_peers(vec![vec![1, 2], vec![3]])
        .with_mode(UtxoScannerMode::Scanning)
        .with_one_sided_message("one".to_string())
        .with_recovery_message("rec".to_string());
    let s = b.build();
    assert_eq!(s.retry_limit, 4);
    assert_eq!(s.peers, vec![vec![1, 2], vec![3]]);
    assert_eq!(s.mode, UtxoScannerMode::Scanning);
    assert_eq!(s.one_sided_message, "one");
    assert_eq!(s.recovery_message, "rec");
    let again = b.build();
    assert!(again.peers.is_empty());
    assert_eq!(again.retry_limit, 4);
    assert_eq!(again.mode, UtxoScannerMode::Scanning);
}
