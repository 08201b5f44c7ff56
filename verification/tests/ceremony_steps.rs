use ark_ec::AffineRepr;
use ark_serialize::CanonicalSerialize;
use tenzro_cli::ceremony::{
    clock_beacon, deserialize_contribution_proof, proof_json, text_beacon, AccumulatorPoints, BeaconSource,
    CeremonyError, ContributionProof, FinalizeCmd, HashChain, InitCmd, ProofError, ProofField, VerifyCmd,
};
use tenzro_cli::curve::PointError;
use tenzro_cli::hex::HexError;
use tenzro_cli::json::JsonValue;

fn g1_bytes() -> Vec<u8> {
    let mut b = Vec::new();
    ark_bn254::G1Affine::generator().serialize_compressed(&mut b).unwrap();
    b
}

fn g2_bytes() -> Vec<u8> {
    let mut b = Vec::new();
    ark_bn254::G2Affine::generator().serialize_compressed(&mut b).unwrap();
    b
}

fn sample_proof() -> ContributionProof {
    ContributionProof {
        tau_g1: g1_bytes(),
        tau_g2: g2_bytes(),
        alpha_g1: g1_bytes(),
        beta_g1: g1_bytes(),
        beta_g2: g2_bytes(),
        prev_accumulator_hash: vec![1; 32],
        new_accumulator_hash: vec![2; 32],
    }
}

fn replace(doc: &JsonValue, key: &str, value: JsonValue) -> JsonValue {
    match doc {
        JsonValue::Object(es) => JsonValue::Object(
            es.iter()
                .map(|(k, v)| {
                    let v2 = if k == key { clone(&value) } else { clone(v) };
                    (k.clone(), v2)
                })
                .collect(),
        ),
        _ => panic!("not an object"),
    }
}

fn remove(doc: &JsonValue, key: &str) -> JsonValue {
    match doc {
        JsonValue::Object(es) => {
            JsonValue::Object(es.iter().filter(|(k, _)| k != key).map(|(k, v)| (k.clone(), clone(v))).collect())
        }
        _ => panic!("not an object"),
    }
}

fn clone(v: &JsonValue) -> JsonValue {
    match v {
        JsonValue::Str(s) => JsonValue::Str(s.clone()),
        JsonValue::Null => JsonValue::Null,
        JsonValue::Bool(b) => JsonValue::Bool(*b),
        _ => panic!("only flat values here"),
    }
}

#[test]
fn init_parameters() {
    let cmd = |g1, g2| InitCmd { output: "ceremony_init.bin".into(), num_g1: g1, num_g2: g2, description: "d".into() };
    assert_eq!(cmd(32, 2).validate(), Ok(()));
    assert_eq!(cmd(1, 2).validate(), Err(CeremonyError::TooFewG1));
    assert_eq!(cmd(1, 1).validate(), Err(CeremonyError::TooFewG1));
    assert_eq!(cmd(2, 0).validate(), Err(CeremonyError::TooFewG2));
    assert_eq!(CeremonyError::TooFewG2.message(), "num_g2 must be at least 2");
}

#[test]
fn verify_decisions() {
    assert_eq!(VerifyCmd::hash_chain(&[1, 2, 3], &[1, 2, 3]), HashChain::Unchanged);
    assert_eq!(VerifyCmd::hash_chain(&[1, 2, 3], &[1, 2, 4]), HashChain::Changed);
    assert_eq!(VerifyCmd::hash_chain(&[1, 2], &[1, 2, 3]), HashChain::Changed);
    assert_eq!(VerifyCmd::pairing_verdict(true), Ok(()));
    assert_eq!(VerifyCmd::pairing_verdict(false), Err(CeremonyError::PairingFailed));
    assert_eq!(VerifyCmd::check_dimensions(32, 2, 32, 2), Ok(()));
    assert_eq!(VerifyCmd::check_dimensions(32, 2, 33, 2), Err(CeremonyError::DimensionsChanged));
    assert_eq!(VerifyCmd::check_dimensions(32, 2, 32, 3), Err(CeremonyError::DimensionsChanged));
    assert_eq!(CeremonyError::DimensionsChanged.message(), "Accumulator dimensions changed (invalid)");
}

#[test]
fn proof_file_round_trip() {
    let p = sample_proof();
    let doc = proof_json(&p);
    assert_eq!(doc.str_at("prev_hash"), Some("01".repeat(32)));
    assert_eq!(doc.str_at("tau_g1"), Some(hex::encode(g1_bytes())));
    assert_eq!(deserialize_contribution_proof(&doc), Ok(p));
}

#[test]
fn proof_file_errors() {
    let doc = proof_json(&sample_proof());
    assert_eq!(
        deserialize_contribution_proof(&remove(&doc, "tau_g1")),
        Err(ProofError::MissingField(ProofField::TauG1))
    );
    assert_eq!(
        deserialize_contribution_proof(&replace(&doc, "tau_g2", JsonValue::Bool(true))),
        Err(ProofError::MissingField(ProofField::TauG2))
    );
    assert_eq!(
        deserialize_contribution_proof(&replace(&doc, "alpha_g1", JsonValue::Str("abc".into()))),
        Err(ProofError::InvalidHex(ProofField::AlphaG1, HexError::OddLength))
    );
    assert!(matches!(
        deserialize_contribution_proof(&replace(&doc, "beta_g1", JsonValue::Str("0011".into()))),
        Err(ProofError::BadPoint(ProofField::BetaG1, _))
    ));
    assert_eq!(
        deserialize_contribution_proof(&replace(&doc, "beta_g1", JsonValue::Str("0011".into()))),
        Err(ProofError::BadPoint(ProofField::BetaG1, PointError::Io))
    );
    let g1_as_g2 = hex::encode(g1_bytes());
    assert!(matches!(
        deserialize_contribution_proof(&replace(&doc, "beta_g2", JsonValue::Str(g1_as_g2))),
        Err(ProofError::BadPoint(ProofField::BetaG2, _))
    ));
    assert!(matches!(
        deserialize_contribution_proof(&replace(&doc, "tau_g1", JsonValue::Str("ff".repeat(32)))),
        Err(ProofError::BadPoint(ProofField::TauG1, _))
    ));
    assert_eq!(
        deserialize_contribution_proof(&replace(&doc, "new_hash", JsonValue::Str("00".repeat(31)))),
        Err(ProofError::BadHashLength(ProofField::NewHash))
    );
    assert_eq!(
        deserialize_contribution_proof(&replace(&doc, "prev_hash", JsonValue::Str("zz".into()))),
        Err(ProofError::InvalidHex(ProofField::PrevHash, HexError::InvalidHexCharacter { c: 'z', index: 0 }))
    );
    assert_eq!(ProofField::BetaG2.name(), "beta_g2");
}

#[test]
fn beacon_sources() {
    let cmd = |b: Option<&str>| FinalizeCmd {
        input: "in".into(),
        output: "out".into(),
        beacon: b.map(|x| x.to_string()),
        iterations: 1024,
    };
    assert_eq!(cmd(None).beacon_source(), BeaconSource::Clock);
    assert_eq!(cmd(Some("00ff")).beacon_source(), BeaconSource::Hex(vec![0, 255]));
    assert_eq!(cmd(Some("beacon.txt")).beacon_source(), BeaconSource::PathOrText("beacon.txt".into()));
    assert_eq!(text_beacon("héllo"), "héllo".as_bytes().to_vec());
    for t in [0u64, 1, 256, 1_700_000_000, u64::MAX] {
        assert_eq!(clock_beacon(t), t.to_le_bytes().to_vec());
    }
}

#[test]
fn initial_accumulator_state() {
    let g1 = g1_bytes();
    let g2 = g2_bytes();
    let acc = AccumulatorPoints {
        tau_powers_g1: vec![g1.clone(), g1.clone()],
        tau_powers_g2: vec![g2.clone(), g2.clone()],
        alpha_tau_powers_g1: vec![g1.clone()],
        beta_tau_powers_g1: vec![g1.clone()],
        beta_g2: g2.clone(),
    };
    assert!(acc.is_initial(&g1, &g2));
    let mut changed = acc;
    changed.tau_powers_g1[1] = vec![0; 32];
    assert!(!changed.is_initial(&g1, &g2));
}
