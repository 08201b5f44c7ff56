//! Zero-knowledge proof commands: create and verify proofs, generate proving
//! keys, list circuits.

use vstd::prelude::*;
use crate::json::{Json, JsonValue, array, lemma_lookup_finds, object, put};
use crate::report::{Field, RpcRequest, fields_view, group_lacks, lemma_shown_at, push_field, request, shown};
use crate::text::{or_else, text_or};

verus! {

/// ZK proof operations.
pub enum ZkCommand {
    /// Create a zero-knowledge proof
    Prove(ZkProveCmd),
    /// Verify a zero-knowledge proof
    Verify(ZkVerifyCmd),
    /// Generate a proving key for a circuit
    Keygen(ZkKeygenCmd),
    /// List available ZK circuits
    Circuits(ZkCircuitsCmd),
}

/// Create a ZK proof.
pub struct ZkProveCmd {
    /// Circuit name (InferenceVerification, SettlementProof, IdentityProof)
    pub circuit: String,
    /// Public inputs (JSON array)
    pub inputs: String,
    /// RPC endpoint
    pub rpc: String,
}

/// What a proof request gave back.
#[derive(Debug, PartialEq)]
pub struct ProofCreated {
    /// The proof system, `groth16` when the node does not say.
    pub proof_type: String,
    /// The proof, empty when the node does not give one.
    pub proof: String,
}

impl ZkProveCmd {
    /// The parameters sent to `tenzro_createZkProof`.
    pub open spec fn spec_params(&self) -> Json {
        Json::Obj(seq![("circuit"@, Json::Str(self.circuit@)), ("inputs"@, Json::Str(self.inputs@))])
    }

    /// The call that creates the proof.
    pub fn request(&self) -> (r: RpcRequest)
        ensures
            r.method@ == "tenzro_createZkProof"@,
            r.params@ == self.spec_params(),
            r.params@.get("circuit"@) == Some(Json::Str(self.circuit@)),
            r.params@.get("inputs"@) == Some(Json::Str(self.inputs@)),
    {
        proof {
            lemma_prove_params(self);
        }
        let mut es: Vec<(String, JsonValue)> = Vec::new();
        put(&mut es, "circuit", JsonValue::Str(self.circuit.clone()));
        put(&mut es, "inputs", JsonValue::Str(self.inputs.clone()));
        let params = object(es);
        assert(params@->Obj_0 =~= self.spec_params()->Obj_0);
        request("tenzro_createZkProof", params)
    }

    /// The proof type and proof that the node answered.
    pub fn outcome(result: &JsonValue) -> (r: ProofCreated)
        ensures
            r.proof_type@ == or_else(result@.str_at("proof_type"@), "groth16"@),
            r.proof@ == or_else(result@.str_at("proof"@), ""@),
    {
        ProofCreated {
            proof_type: text_or(result.str_at("proof_type"), "groth16"),
            proof: text_or(result.str_at("proof"), ""),
        }
    }
}

/// Verify a ZK proof.
pub struct ZkVerifyCmd {
    /// Proof data (hex)
    pub proof: String,
    /// Proof type: groth16, plonk, or stark
    pub proof_type: String,
    /// Public inputs (JSON array)
    pub inputs: String,
    /// RPC endpoint
    pub rpc: String,
}

impl ZkVerifyCmd {
    /// The parameters sent to `tenzro_verifyZkProof`.
    pub open spec fn spec_params(&self) -> Json {
        Json::Obj(
            seq![
                ("proof"@, Json::Str(self.proof@)),
                ("proof_type"@, Json::Str(self.proof_type@)),
                ("public_inputs"@, Json::Str(self.inputs@)),
            ],
        )
    }

    /// The call that verifies the proof.
    pub fn request(&self) -> (r: RpcRequest)
        ensures
            r.method@ == "tenzro_verifyZkProof"@,
            r.params@ == self.spec_params(),
            r.params@.get("proof"@) == Some(Json::Str(self.proof@)),
            r.params@.get("proof_type"@) == Some(Json::Str(self.proof_type@)),
            r.params@.get("public_inputs"@) == Some(Json::Str(self.inputs@)),
    {
        proof {
            lemma_verify_params(self);
        }
        let mut es: Vec<(String, JsonValue)> = Vec::new();
        put(&mut es, "proof", JsonValue::Str(self.proof.clone()));
        put(&mut es, "proof_type", JsonValue::Str(self.proof_type.clone()));
        put(&mut es, "public_inputs", JsonValue::Str(self.inputs.clone()));
        let params = object(es);
        assert(params@->Obj_0 =~= self.spec_params()->Obj_0);
        request("tenzro_verifyZkProof", params)
    }

    /// The proof is valid exactly when the node answers `"valid": true`.
    pub fn is_valid(result: &JsonValue) -> (r: bool)
        ensures
            r == (result@.bool_at("valid"@) == Some(true)),
    {
        match result.bool_at("valid") {
            Some(b) => b,
            None => false,
        }
    }
}

/// Generate a proving key.
pub struct ZkKeygenCmd {
    /// Circuit name
    pub circuit: String,
    /// RPC endpoint
    pub rpc: String,
}

impl ZkKeygenCmd {
    /// The parameters sent to `tenzro_generateProvingKey`.
    pub open spec fn spec_params(&self) -> Json {
        Json::Obj(seq![("circuit"@, Json::Str(self.circuit@))])
    }

    /// The call that generates the key.
    pub fn request(&self) -> (r: RpcRequest)
        ensures
            r.method@ == "tenzro_generateProvingKey"@,
            r.params@ == self.spec_params(),
            r.params@ == Json::Obj(seq![("circuit"@, Json::Str(self.circuit@))]),
    {
        let mut es: Vec<(String, JsonValue)> = Vec::new();
        put(&mut es, "circuit", JsonValue::Str(self.circuit.clone()));
        let params = object(es);
        assert(params@->Obj_0 =~= self.spec_params()->Obj_0);
        request("tenzro_generateProvingKey", params)
    }

    /// The fields shown once the key exists.
    pub open spec fn spec_report(&self, result: Json) -> Seq<(Seq<char>, Seq<char>)> {
        seq![("Circuit"@, self.circuit@), ("Key ID"@, or_else(result.str_at("key_id"@), ""@))]
    }

    /// What the node answered, as fields to show.
    pub fn report(&self, result: &JsonValue) -> (r: Vec<Field>)
        ensures
            fields_view(r@) == self.spec_report(result@),
            shown(fields_view(r@), "Circuit"@) == Some(self.circuit@),
            shown(fields_view(r@), "Key ID"@) == Some(or_else(result@.str_at("key_id"@), ""@)),
    {
        proof {
            lemma_keygen_report(self, result@);
        }
        let mut r: Vec<Field> = Vec::new();
        push_field(&mut r, "Circuit", self.circuit.clone());
        push_field(&mut r, "Key ID", text_or(result.str_at("key_id"), ""));
        assert(fields_view(r@) =~= self.spec_report(result@));
        r
    }
}

/// List ZK circuits.
pub struct ZkCircuitsCmd {
    /// RPC endpoint
    pub rpc: String,
}

/// How a circuit list answer is shown.
#[derive(Debug, PartialEq)]
pub enum CircuitListing {
    /// An empty array: there are no circuits.
    NoCircuits,
    /// One field per circuit: its name and its description.
    Circuits(Vec<Field>),
    /// Not an array: the answer is shown as it is.
    Raw,
}

/// Name (`?` when absent) and description (empty when absent) of each circuit.
pub open spec fn circuit_fields(cs: Seq<Json>) -> Seq<(Seq<char>, Seq<char>)> {
    Seq::new(
        cs.len(),
        |i: int| (or_else(cs[i].str_at("name"@), "?"@), or_else(cs[i].str_at("description"@), ""@)),
    )
}

impl ZkCircuitsCmd {
    /// The call that lists the circuits: `tenzro_listZkCircuits` with an
    /// empty parameter array.
    pub fn request(&self) -> (r: RpcRequest)
        ensures
            r.method@ == "tenzro_listZkCircuits"@,
            r.params@ == Json::Arr(Seq::empty()),
    {
        let params = array(Vec::new());
        assert(params@->Arr_0 =~= Seq::<Json>::empty());
        request("tenzro_listZkCircuits", params)
    }

    /// How the node's answer is shown.
    pub fn listing(result: &JsonValue) -> (r: CircuitListing)
        ensures
            match result@ {
                Json::Arr(cs) => if cs.len() == 0 {
                    r is NoCircuits
                } else {
                    r matches CircuitListing::Circuits(fs) && fields_view(fs@) == circuit_fields(cs)
                        && fs@.len() == cs.len() && forall|i: int|
                        0 <= i < cs.len() ==> #[trigger] fs@[i].label@ == or_else(
                            cs[i].str_at("name"@),
                            "?"@,
                        ) && fs@[i].value@ == or_else(cs[i].str_at("description"@), ""@)
                },
                _ => r is Raw,
            },
    {
        match result {
            JsonValue::Array(cs) => {
                let ghost cv = result@->Arr_0;
                assert(cv.len() == cs@.len());
                if cs.len() == 0 {
                    return CircuitListing::NoCircuits;
                }
                let mut fs: Vec<Field> = Vec::new();
                let mut i: usize = 0;
                while i < cs.len()
                    invariant
                        i <= cs@.len(),
                        cv.len() == cs@.len(),
                        forall|j: int| 0 <= j < cs@.len() ==> #[trigger] cv[j] == cs@[j]@,
                        fields_view(fs@) =~= circuit_fields(cv).take(i as int),
                    decreases cs@.len() - i,
                {
                    let name = text_or(cs[i].str_at("name"), "?");
                    let desc = text_or(cs[i].str_at("description"), "");
                    assert(cv[i as int] == cs@[i as int]@);
                    assert(circuit_fields(cv)[i as int] == (name@, desc@));
                    let ghost before = fs@;
                    fs.push(Field { label: name, value: desc });
                    assert(fields_view(fs@) =~= fields_view(before).push((name@, desc@)));
                    i = i + 1;
                    assert(fields_view(fs@) =~= circuit_fields(cv).take(i as int));
                }
                assert(circuit_fields(cv).take(cs@.len() as int) =~= circuit_fields(cv));
                proof {
                    lemma_circuit_fields(cv);
                    assert(fields_view(fs@).len() == fs@.len());
                    assert forall|i: int| 0 <= i < cv.len() implies #[trigger] fs@[i].label@
                        == or_else(cv[i].str_at("name"@), "?"@) && fs@[i].value@ == or_else(
                        cv[i].str_at("description"@),
                        ""@,
                    ) by {
                        assert(fields_view(fs@)[i] == (fs@[i].label@, fs@[i].value@));
                    }
                }
                CircuitListing::Circuits(fs)
            },
            _ => CircuitListing::Raw,
        }
    }
}

/// A proof is requested for the command's circuit and public inputs.
pub proof fn lemma_prove_params(c: &ZkProveCmd)
    ensures
        c.spec_params().get("circuit"@) == Some(Json::Str(c.circuit@)),
        c.spec_params().get("inputs"@) == Some(Json::Str(c.inputs@)),
{
    reveal_strlit("circuit");
    reveal_strlit("inputs");
    let es = c.spec_params()->Obj_0;
    assert(es[0].0[0] != es[1].0[0]);
    lemma_lookup_finds(es, 0);
    lemma_lookup_finds(es, 1);
}

/// A proof is verified as given: its data, its type and its public inputs,
/// each under its own key.
pub proof fn lemma_verify_params(c: &ZkVerifyCmd)
    ensures
        c.spec_params().get("proof"@) == Some(Json::Str(c.proof@)),
        c.spec_params().get("proof_type"@) == Some(Json::Str(c.proof_type@)),
        c.spec_params().get("public_inputs"@) == Some(Json::Str(c.inputs@)),
{
    reveal_strlit("proof");
    reveal_strlit("proof_type");
    reveal_strlit("public_inputs");
    let es = c.spec_params()->Obj_0;
    assert(es[0].0.len() != es[1].0.len());
    assert(es[0].0[1] != es[2].0[1] && es[1].0[1] != es[2].0[1]);
    lemma_lookup_finds(es, 0);
    lemma_lookup_finds(es, 1);
    lemma_lookup_finds(es, 2);
}

/// A generated key shows the command's circuit and the key's id as the node
/// answered it (empty when not given).
pub proof fn lemma_keygen_report(c: &ZkKeygenCmd, result: Json)
    ensures
        shown(c.spec_report(result), "Circuit"@) == Some(c.circuit@),
        shown(c.spec_report(result), "Key ID"@) == Some(or_else(result.str_at("key_id"@), ""@)),
{
    broadcast use group_lacks;

    reveal_strlit("Circuit");
    reveal_strlit("Key ID");
    assert("Circuit"@[0] != "Key ID"@[0]);
    let f0 = ("Circuit"@, c.circuit@);
    let f1 = ("Key ID"@, or_else(result.str_at("key_id"@), ""@));
    let fs = c.spec_report(result);
    assert(fs =~= Seq::empty() + seq![f0] + seq![f1]);
    lemma_shown_at(Seq::empty(), f0, seq![f1]);
    assert(fs =~= seq![f0] + seq![f1] + Seq::empty());
    lemma_shown_at(seq![f0], f1, Seq::empty());
}
/// One field per circuit, in the order listed: labelled by the circuit's
/// name (`?` when it has none) and showing its description (empty when it
/// has none).
pub proof fn lemma_circuit_fields(cs: Seq<Json>)
    ensures
        circuit_fields(cs).len() == cs.len(),
        forall|i: int|
            0 <= i < cs.len() ==> (#[trigger] circuit_fields(cs)[i]).0 == or_else(cs[i].str_at("name"@), "?"@)
                && circuit_fields(cs)[i].1 == or_else(cs[i].str_at("description"@), ""@),
{
}

} // verus!
