use consensus::config::ConsensusConfig;

#[test]
fn ports_default_when_unset() {
    let config = ConsensusConfig {
        grpc_server_port: None,
        utxo_grpc_port: None,
        network_grpc_port: None,
        privkey_path: "0_privkey".to_string(),
    };
    assert_eq!(config.server_port(), 5000);
    assert_eq!(config.utxo_port(), 5000);
    assert_eq!(config.network_port(), 5000);
    assert_eq!(config.privkey_path, "0_privkey");
}

#[test]
fn ports_follow_configuration() {
    let config = ConsensusConfig {
        grpc_server_port: Some(5000),
        utxo_grpc_port: Some(5002),
        network_grpc_port: Some(5003),
        privkey_path: "0_privkey".to_string(),
    };
    assert_eq!(config.server_port(), 5000);
    assert_eq!(config.utxo_port(), 5002);
    assert_eq!(config.network_port(), 5003);
}
