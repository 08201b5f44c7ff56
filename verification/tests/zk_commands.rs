use tenzro_cli::json::JsonValue;
use tenzro_cli::report::Field;
use tenzro_cli::zk::{CircuitListing, ProofCreated, ZkCircuitsCmd, ZkKeygenCmd, ZkProveCmd, ZkVerifyCmd};

fn obj(entries: Vec<(&str, JsonValue)>) -> JsonValue {
    JsonValue::Object(entries.into_iter().map(|(k, v)| (k.to_string(), v)).collect())
}

fn s(x: &str) -> JsonValue {
    JsonValue::Str(x.to_string())
}

const RPC: &str = "http://127.0.0.1:8545";

#[test]
fn prove_request_and_defaults() {
    let cmd = ZkProveCmd { circuit: "SettlementProof".into(), inputs: "[1,2]".into(), rpc: RPC.into() };
    assert_eq!(cmd.request().method, "tenzro_createZkProof");
    assert_eq!(cmd.request().params, obj(vec![("circuit", s("SettlementProof")), ("inputs", s("[1,2]"))]));
    assert_eq!(
        ZkProveCmd::outcome(&obj(vec![])),
        ProofCreated { proof_type: "groth16".into(), proof: "".into() }
    );
    assert_eq!(
        ZkProveCmd::outcome(&obj(vec![("proof_type", s("plonk")), ("proof", s("0x01"))])),
        ProofCreated { proof_type: "plonk".into(), proof: "0x01".into() }
    );
}

#[test]
fn verify_reads_valid_flag() {
    let cmd = ZkVerifyCmd { proof: "ab".into(), proof_type: "groth16".into(), inputs: "[]".into(), rpc: RPC.into() };
    assert_eq!(cmd.request().method, "tenzro_verifyZkProof");
    assert_eq!(
        cmd.request().params,
        obj(vec![("proof", s("ab")), ("proof_type", s("groth16")), ("public_inputs", s("[]"))])
    );
    assert!(ZkVerifyCmd::is_valid(&obj(vec![("valid", JsonValue::Bool(true))])));
    assert!(!ZkVerifyCmd::is_valid(&obj(vec![("valid", JsonValue::Bool(false))])));
    assert!(!ZkVerifyCmd::is_valid(&obj(vec![("valid", s("true"))])));
    assert!(!ZkVerifyCmd::is_valid(&JsonValue::Null));
}

#[test]
fn keygen_report() {
    let cmd = ZkKeygenCmd { circuit: "IdentityProof".into(), rpc: RPC.into() };
    assert_eq!(cmd.request().method, "tenzro_generateProvingKey");
    assert_eq!(
        cmd.report(&obj(vec![("key_id", s("k-1"))])),
        vec![
            Field { label: "Circuit".into(), value: "IdentityProof".into() },
            Field { label: "Key ID".into(), value: "k-1".into() },
        ]
    );
    assert_eq!(cmd.report(&JsonValue::Null)[1].value, "");
}

#[test]
fn circuit_listing() {
    let cmd = ZkCircuitsCmd { rpc: RPC.into() };
    assert_eq!(cmd.request().method, "tenzro_listZkCircuits");
    assert_eq!(cmd.request().params, JsonValue::Array(vec![]));
    assert_eq!(ZkCircuitsCmd::listing(&JsonValue::Array(vec![])), CircuitListing::NoCircuits);
    assert_eq!(ZkCircuitsCmd::listing(&obj(vec![])), CircuitListing::Raw);
    let list = JsonValue::Array(vec![
        obj(vec![("name", s("InferenceVerification")), ("description", s("checks inference"))]),
        obj(vec![]),
    ]);
    assert_eq!(
        ZkCircuitsCmd::listing(&list),
        CircuitListing::Circuits(vec![
            Field { label: "InferenceVerification".into(), value: "checks inference".into() },
            Field { label: "?".into(), value: "".into() },
        ])
    );
}
