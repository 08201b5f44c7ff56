use tenzro_cli::json::{JsonNumber, JsonValue};
use tenzro_cli::node::{
    listen_addr, uptime_string, NetworkRole, NodeExit, NodePeersCmd, NodeStartCmd, NodeStatusCmd, NodeStopCmd,
    NodeSyncingCmd, StatusInputs, SyncState,
};
use tenzro_cli::quantity::parse_hex_u64;

fn obj(entries: Vec<(&str, JsonValue)>) -> JsonValue {
    JsonValue::Object(entries.into_iter().map(|(k, v)| (k.to_string(), v)).collect())
}

fn s(x: &str) -> JsonValue {
    JsonValue::Str(x.to_string())
}

fn n(x: u64) -> JsonValue {
    JsonValue::Number(JsonNumber::PosInt(x))
}

fn start(role: &str, p2p: &str, config: Option<&str>) -> NodeStartCmd {
    NodeStartCmd {
        role: role.into(),
        config: config.map(|c| c.to_string()),
        data_dir: "~/.tenzro/data".into(),
        metrics: true,
        rpc_addr: "127.0.0.1:9944".into(),
        p2p_addr: p2p.into(),
    }
}

#[test]
fn roles_parse_case_insensitively() {
    assert_eq!(start("validator", "", None).parse_role().ok(), Some(NetworkRole::Validator));
    assert_eq!(start("Validator", "", None).parse_role().ok(), Some(NetworkRole::Validator));
    assert_eq!(start("model-provider", "", None).parse_role().ok(), Some(NetworkRole::ModelProvider));
    assert_eq!(start("TEE", "", None).parse_role().ok(), Some(NetworkRole::TeeProvider));
    assert_eq!(start("tee-provider", "", None).parse_role().ok(), Some(NetworkRole::TeeProvider));
    assert_eq!(start("user", "", None).parse_role().ok(), Some(NetworkRole::LightClient));
    assert_eq!(start("Light-Client", "", None).parse_role().ok(), Some(NetworkRole::LightClient));
    let err = start("miner", "", None).parse_role().err().unwrap();
    assert_eq!(err.role, "miner");
    assert_eq!(
        err.message(),
        "Invalid role: miner. Must be one of: validator, model-provider, tee-provider, user"
    );
}

#[test]
fn listen_address_from_p2p_address() {
    assert_eq!(listen_addr("0.0.0.0:30333"), "/ip4/0.0.0.0/tcp/30333");
    assert_eq!(listen_addr("10.0.0.5"), "/ip4/10.0.0.5/tcp/30333");
    assert_eq!(listen_addr("a:b:c"), "/ip4/a/tcp/b");
    assert_eq!(listen_addr(":9"), "/ip4//tcp/9");
    assert_eq!(listen_addr("h:"), "/ip4/h/tcp/");
}

#[test]
fn node_program_arguments() {
    let args = start("validator", "0.0.0.0:30333", None).node_args();
    assert_eq!(
        args,
        vec![
            "--role", "validator", "--rpc-addr", "127.0.0.1:9944", "--listen-addr", "/ip4/0.0.0.0/tcp/30333",
            "--data-dir", "~/.tenzro/data",
        ]
    );
    let args = start("user", "1.2.3.4:5", Some("node.toml")).node_args();
    assert_eq!(args[5], "/ip4/1.2.3.4/tcp/5");
    assert_eq!(&args[8..], &["--config".to_string(), "node.toml".to_string()]);
    assert_eq!(start("user", "", None).rpc_endpoint(), "http://127.0.0.1:9944");
}

#[test]
fn node_exit_status() {
    assert_eq!(NodeStartCmd::exit(true, Some(0)), NodeExit::Success);
    assert_eq!(NodeStartCmd::exit(false, Some(3)), NodeExit::Code(3));
    assert_eq!(NodeStartCmd::exit(false, None), NodeExit::Code(-1));
}

#[test]
fn hex_quantities() {
    assert_eq!(parse_hex_u64("0x1a"), 26);
    assert_eq!(parse_hex_u64("1A"), 26);
    assert_eq!(parse_hex_u64("0x0"), 0);
    assert_eq!(parse_hex_u64("0x"), 0);
    assert_eq!(parse_hex_u64(""), 0);
    assert_eq!(parse_hex_u64("0xzz"), 0);
    assert_eq!(parse_hex_u64("0xffffffffffffffff"), u64::MAX);
    assert_eq!(parse_hex_u64("0x10000000000000000"), 0);
    assert_eq!(parse_hex_u64("0x0000000000000000001"), 1);
    assert_eq!(NodePeersCmd::count("0x8"), 8);
}

#[test]
fn status_in_json_form() {
    let inputs = StatusInputs {
        node_info: obj(vec![("node_id", s("12D3")), ("role", s("validator")), ("version", s("0.1.0"))]),
        api_status: obj(vec![("node_state", s("Synced"))]),
        block_number: "0x64".into(),
        peer_count: "0x3".into(),
        listening: true,
    };
    assert_eq!(
        NodeStatusCmd::status_json(&inputs),
        obj(vec![
            ("node_id", s("12D3")),
            ("role", s("validator")),
            ("version", s("0.1.0")),
            ("chain", s("unknown")),
            ("status", s("Synced")),
            ("best_block", n(100)),
            ("finalized_block", n(97)),
            ("peers", n(3)),
            ("listening", JsonValue::Bool(true)),
        ])
    );
}

#[test]
fn status_in_text_form() {
    let inputs = StatusInputs {
        node_info: obj(vec![("chain", s("tenzro-testnet"))]),
        api_status: obj(vec![("status", s("Syncing")), ("uptime_secs", n(3661))]),
        block_number: "0x2".into(),
        peer_count: "garbage".into(),
        listening: false,
    };
    let t = NodeStatusCmd::status_text(&inputs);
    assert_eq!(t.node_id, None);
    assert_eq!(t.chain, Some("tenzro-testnet".into()));
    assert_eq!(t.status, "Syncing");
    assert!(!t.synced);
    assert_eq!(t.best_block, 2);
    assert_eq!(t.finalized_block, 0);
    assert_eq!(t.peers, 0);
    assert_eq!(t.uptime, Some("1h 1m 1s".into()));

    let inputs = StatusInputs {
        node_info: obj(vec![]),
        api_status: obj(vec![("node_state", n(1)), ("status", s("Synced")), ("uptime", s("5 days"))]),
        block_number: "0x10".into(),
        peer_count: "0x1".into(),
        listening: true,
    };
    let t = NodeStatusCmd::status_text(&inputs);
    assert_eq!(t.status, "Running");
    assert!(t.synced);
    assert_eq!(t.uptime, Some("5 days".into()));
    assert_eq!(uptime_string(0), "0h 0m 0s");
    assert_eq!(uptime_string(90061), "25h 1m 1s");
}

#[test]
fn stop_request_and_error_reading() {
    let cmd = NodeStopCmd { rpc: "http://127.0.0.1:8545".into(), force: true };
    assert_eq!(cmd.request().method, "tenzro_shutdown");
    assert_eq!(cmd.request().params, JsonValue::Array(vec![obj(vec![("force", JsonValue::Bool(true))])]));
    assert!(NodeStopCmd::not_running("error sending request: connection closed"));
    assert!(NodeStopCmd::not_running("Connection refused (os error 111)"));
    assert!(!NodeStopCmd::not_running("method not found"));
}

#[test]
fn sync_state() {
    let cmd = NodeSyncingCmd { rpc: "x".into() };
    assert_eq!(cmd.request().method, "tenzro_syncing");
    assert_eq!(NodeSyncingCmd::state(&JsonValue::Bool(true)), SyncState::Syncing);
    assert_eq!(NodeSyncingCmd::state(&JsonValue::Bool(false)), SyncState::Synced);
    assert_eq!(
        NodeSyncingCmd::state(&obj(vec![("currentBlock", n(5)), ("highestBlock", n(9))])),
        SyncState::Progress { current: Some(5), highest: Some(9) }
    );
    assert_eq!(NodeSyncingCmd::state(&JsonValue::Null), SyncState::Progress { current: None, highest: None });
}
