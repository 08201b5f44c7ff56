//! Phase 1 (Powers of Tau) trusted setup ceremony: parameter checks,
//! contribution proof files, verification verdicts, beacon choice and
//! accumulator state.

use vstd::prelude::*;
use vstd::utf8::encode_utf8;
use vstd::string::{StringSliceAdditionalSpecFns, StrSliceExecFns};
use crate::curve::{PointError, check_g1, check_g2, g1_decoding, g2_decoding};
use crate::hex::{HexError, hex_decode, hex_decoding, hex_encode, hex_encoding, lemma_hex_round_trip};
use crate::json::{Json, JsonValue, lemma_lookup_finds, object, put};
use crate::text::owned;

verus! {

broadcast use vstd::string::group_string_axioms;

/// ZK trusted setup ceremony commands.
pub enum CeremonyCommand {
    /// Initialize a new Phase 1 ceremony
    Init(InitCmd),
    /// Contribute to an existing ceremony
    Contribute(ContributeCmd),
    /// Verify a ceremony contribution
    Verify(VerifyCmd),
    /// Apply random beacon and finalize Phase 1
    Finalize(FinalizeCmd),
    /// Show ceremony status
    Status(StatusCmd),
}

/// Initialize a new Phase 1 ceremony.
pub struct InitCmd {
    /// Output file for the initial accumulator
    pub output: String,
    /// Number of G1 powers (must be >= 2)
    pub num_g1: usize,
    /// Number of G2 powers (must be >= 2)
    pub num_g2: usize,
    /// Ceremony description
    pub description: String,
}

/// Contribute to an existing ceremony.
pub struct ContributeCmd {
    /// Input accumulator file
    pub input: String,
    /// Output accumulator file
    pub output: String,
    /// Contributor identifier (name or public key)
    pub id: String,
    /// Output file for contribution proof (optional)
    pub proof_output: Option<String>,
}

/// Verify a ceremony contribution.
pub struct VerifyCmd {
    /// Previous accumulator file
    pub prev: String,
    /// New accumulator file
    pub new: String,
    /// Proof file (optional, will verify hash chain if not provided)
    pub proof: Option<String>,
}

/// Apply random beacon and finalize Phase 1.
pub struct FinalizeCmd {
    /// Input accumulator file
    pub input: String,
    /// Output accumulator file
    pub output: String,
    /// Beacon value (hex string or file path)
    pub beacon: Option<String>,
    /// Number of hash iterations for beacon
    pub iterations: u32,
}

/// Show ceremony status.
pub struct StatusCmd {
    /// Accumulator file or transcript file
    pub file: String,
}

/// Why a ceremony step is refused.
#[derive(Debug, Clone, Copy, PartialEq, Eq, Structural)]
pub enum CeremonyError {
    /// Fewer than two G1 powers were asked for.
    TooFewG1,
    /// Fewer than two G2 powers were asked for.
    TooFewG2,
    /// The contribution proof did not pass the pairing checks.
    PairingFailed,
    /// The new accumulator has other dimensions than the previous one.
    DimensionsChanged,
}

impl CeremonyError {
    /// The message shown for the error.
    pub fn message(&self) -> (r: String)
        ensures
            r@ == match *self {
                CeremonyError::TooFewG1 => "num_g1 must be at least 2"@,
                CeremonyError::TooFewG2 => "num_g2 must be at least 2"@,
                CeremonyError::PairingFailed => "Contribution proof verification FAILED — pairing checks did not pass"@,
                CeremonyError::DimensionsChanged => "Accumulator dimensions changed (invalid)"@,
            },
    {
        match self {
            CeremonyError::TooFewG1 => owned("num_g1 must be at least 2"),
            CeremonyError::TooFewG2 => owned("num_g2 must be at least 2"),
            CeremonyError::PairingFailed => owned(
                "Contribution proof verification FAILED — pairing checks did not pass",
            ),
            CeremonyError::DimensionsChanged => owned("Accumulator dimensions changed (invalid)"),
        }
    }
}

impl InitCmd {
    /// An accumulator needs at least two powers in each group; G1 is checked
    /// first.
    pub fn validate(&self) -> (r: Result<(), CeremonyError>)
        ensures
            self.num_g1 < 2 ==> r == Err::<(), CeremonyError>(CeremonyError::TooFewG1),
            self.num_g1 >= 2 && self.num_g2 < 2 ==> r == Err::<(), CeremonyError>(CeremonyError::TooFewG2),
            self.num_g1 >= 2 && self.num_g2 >= 2 ==> r is Ok,
    {
        if self.num_g1 < 2 {
            return Err(CeremonyError::TooFewG1);
        }
        if self.num_g2 < 2 {
            return Err(CeremonyError::TooFewG2);
        }
        Ok(())
    }
}

/// What a comparison of two accumulator hashes shows.
#[derive(Debug, Clone, Copy, PartialEq, Eq, Structural)]
pub enum HashChain {
    /// The hashes are identical: nothing was contributed.
    Unchanged,
    /// The hashes differ: a contribution is present.
    Changed,
}

impl VerifyCmd {
    /// Compares the hashes of the previous and the new accumulator.
    pub fn hash_chain(prev_hash: &[u8], new_hash: &[u8]) -> (r: HashChain)
        ensures
            (r == HashChain::Unchanged) == (prev_hash@ == new_hash@),
    {
        if prev_hash.len() != new_hash.len() {
            return HashChain::Changed;
        }
        let mut i: usize = 0;
        while i < prev_hash.len()
            invariant
                prev_hash@.len() == new_hash@.len(),
                i <= prev_hash@.len(),
                forall|k: int| 0 <= k < i ==> prev_hash@[k] == new_hash@[k],
            decreases prev_hash@.len() - i,
        {
            if prev_hash[i] != new_hash[i] {
                return HashChain::Changed;
            }
            i = i + 1;
        }
        assert(prev_hash@ =~= new_hash@);
        HashChain::Unchanged
    }

    /// The verdict of the pairing-based verification.
    pub fn pairing_verdict(valid: bool) -> (r: Result<(), CeremonyError>)
        ensures
            valid ==> r is Ok,
            !valid ==> r == Err::<(), CeremonyError>(CeremonyError::PairingFailed),
    {
        if valid {
            Ok(())
        } else {
            Err(CeremonyError::PairingFailed)
        }
    }

    /// A contribution keeps the number of powers in both groups.
    pub fn check_dimensions(prev_g1: usize, prev_g2: usize, new_g1: usize, new_g2: usize) -> (r: Result<
        (),
        CeremonyError,
    >)
        ensures
            (prev_g1 == new_g1 && prev_g2 == new_g2) ==> r is Ok,
            !(prev_g1 == new_g1 && prev_g2 == new_g2) ==> r == Err::<(), CeremonyError>(
                CeremonyError::DimensionsChanged,
            ),
    {
        if prev_g1 != new_g1 || prev_g2 != new_g2 {
            Err(CeremonyError::DimensionsChanged)
        } else {
            Ok(())
        }
    }
}

/// The members of a contribution proof file.
#[derive(Debug, Clone, Copy, PartialEq, Eq, Structural)]
pub enum ProofField {
    TauG1,
    TauG2,
    AlphaG1,
    BetaG1,
    BetaG2,
    PrevHash,
    NewHash,
}

impl ProofField {
    /// The member's key in the file.
    pub open spec fn key(self) -> Seq<char> {
        match self {
            ProofField::TauG1 => "tau_g1"@,
            ProofField::TauG2 => "tau_g2"@,
            ProofField::AlphaG1 => "alpha_g1"@,
            ProofField::BetaG1 => "beta_g1"@,
            ProofField::BetaG2 => "beta_g2"@,
            ProofField::PrevHash => "prev_hash"@,
            ProofField::NewHash => "new_hash"@,
        }
    }

    /// The member's key in the file.
    pub fn name(&self) -> (r: &'static str)
        ensures
            r@ == self.key(),
    {
        match self {
            ProofField::TauG1 => "tau_g1",
            ProofField::TauG2 => "tau_g2",
            ProofField::AlphaG1 => "alpha_g1",
            ProofField::BetaG1 => "beta_g1",
            ProofField::BetaG2 => "beta_g2",
            ProofField::PrevHash => "prev_hash",
            ProofField::NewHash => "new_hash",
        }
    }
}

/// Why a contribution proof file cannot be read.
#[derive(Debug, Clone, Copy, PartialEq, Eq, Structural)]
pub enum ProofError {
    /// The member is absent or not a string.
    MissingField(ProofField),
    /// The member is not hexadecimal text.
    InvalidHex(ProofField, HexError),
    /// The member's bytes are not a valid compressed curve point.
    BadPoint(ProofField, PointError),
    /// The member's bytes are not a 32-byte hash.
    BadHashLength(ProofField),
}

/// A contribution proof: each curve point as its compressed encoding, and
/// the hashes of the accumulator before and after the contribution.
#[derive(Debug, PartialEq)]
pub struct ContributionProof {
    pub tau_g1: Vec<u8>,
    pub tau_g2: Vec<u8>,
    pub alpha_g1: Vec<u8>,
    pub beta_g1: Vec<u8>,
    pub beta_g2: Vec<u8>,
    pub prev_accumulator_hash: Vec<u8>,
    pub new_accumulator_hash: Vec<u8>,
}

/// Mathematical view of a contribution proof.
pub struct ProofBytes {
    pub tau_g1: Seq<u8>,
    pub tau_g2: Seq<u8>,
    pub alpha_g1: Seq<u8>,
    pub beta_g1: Seq<u8>,
    pub beta_g2: Seq<u8>,
    pub prev_accumulator_hash: Seq<u8>,
    pub new_accumulator_hash: Seq<u8>,
}

impl View for ContributionProof {
    type V = ProofBytes;

    open spec fn view(&self) -> ProofBytes {
        ProofBytes {
            tau_g1: self.tau_g1@,
            tau_g2: self.tau_g2@,
            alpha_g1: self.alpha_g1@,
            beta_g1: self.beta_g1@,
            beta_g2: self.beta_g2@,
            prev_accumulator_hash: self.prev_accumulator_hash@,
            new_accumulator_hash: self.new_accumulator_hash@,
        }
    }
}

/// The proof file written for a contribution: every value in lowercase
/// hexadecimal.
pub open spec fn proof_document(p: ProofBytes) -> Json {
    Json::Obj(
        seq![
            ("prev_hash"@, Json::Str(hex_encoding(p.prev_accumulator_hash))),
            ("new_hash"@, Json::Str(hex_encoding(p.new_accumulator_hash))),
            ("tau_g1"@, Json::Str(hex_encoding(p.tau_g1))),
            ("tau_g2"@, Json::Str(hex_encoding(p.tau_g2))),
            ("alpha_g1"@, Json::Str(hex_encoding(p.alpha_g1))),
            ("beta_g1"@, Json::Str(hex_encoding(p.beta_g1))),
            ("beta_g2"@, Json::Str(hex_encoding(p.beta_g2))),
        ],
    )
}

/// The proof file written for a contribution.
pub fn proof_json(p: &ContributionProof) -> (r: JsonValue)
    ensures
        r@ == proof_document(p@),
{
    let mut es: Vec<(String, JsonValue)> = Vec::new();
    put(&mut es, "prev_hash", JsonValue::Str(hex_encode(p.prev_accumulator_hash.as_slice())));
    put(&mut es, "new_hash", JsonValue::Str(hex_encode(p.new_accumulator_hash.as_slice())));
    put(&mut es, "tau_g1", JsonValue::Str(hex_encode(p.tau_g1.as_slice())));
    put(&mut es, "tau_g2", JsonValue::Str(hex_encode(p.tau_g2.as_slice())));
    put(&mut es, "alpha_g1", JsonValue::Str(hex_encode(p.alpha_g1.as_slice())));
    put(&mut es, "beta_g1", JsonValue::Str(hex_encode(p.beta_g1.as_slice())));
    put(&mut es, "beta_g2", JsonValue::Str(hex_encode(p.beta_g2.as_slice())));
    let r = object(es);
    assert(r@->Obj_0 =~= proof_document(p@)->Obj_0);
    r
}

/// The bytes that a member's hexadecimal text denotes.
pub open spec fn member_bytes(j: Json, f: ProofField) -> Result<Seq<u8>, ProofError> {
    match j.str_at(f.key()) {
        None => Err(ProofError::MissingField(f)),
        Some(s) => match hex_decoding(encode_utf8(s)) {
            Ok(b) => Ok(b),
            Err(e) => Err(ProofError::InvalidHex(f, e)),
        },
    }
}

/// A member that holds a G1 point.
pub open spec fn g1_member(j: Json, f: ProofField) -> Result<Seq<u8>, ProofError> {
    match member_bytes(j, f) {
        Ok(b) => match g1_decoding(b) {
            Ok(_) => Ok(b),
            Err(e) => Err(ProofError::BadPoint(f, e)),
        },
        Err(e) => Err(e),
    }
}

/// A member that holds a G2 point.
pub open spec fn g2_member(j: Json, f: ProofField) -> Result<Seq<u8>, ProofError> {
    match member_bytes(j, f) {
        Ok(b) => match g2_decoding(b) {
            Ok(_) => Ok(b),
            Err(e) => Err(ProofError::BadPoint(f, e)),
        },
        Err(e) => Err(e),
    }
}

/// A member that holds a 32-byte hash.
pub open spec fn hash_member(j: Json, f: ProofField) -> Result<Seq<u8>, ProofError> {
    match member_bytes(j, f) {
        Ok(b) => if b.len() == 32 {
            Ok(b)
        } else {
            Err(ProofError::BadHashLength(f))
        },
        Err(e) => Err(e),
    }
}

/// What reading a proof file gives: the members are read in the order
/// `tau_g1`, `tau_g2`, `alpha_g1`, `beta_g1`, `beta_g2`, `prev_hash`,
/// `new_hash`, and the first one that fails decides the error.
pub open spec fn proof_reading(j: Json) -> Result<ProofBytes, ProofError> {
    match g1_member(j, ProofField::TauG1) {
        Err(e) => Err(e),
        Ok(tau_g1) => match g2_member(j, ProofField::TauG2) {
            Err(e) => Err(e),
            Ok(tau_g2) => match g1_member(j, ProofField::AlphaG1) {
                Err(e) => Err(e),
                Ok(alpha_g1) => match g1_member(j, ProofField::BetaG1) {
                    Err(e) => Err(e),
                    Ok(beta_g1) => match g2_member(j, ProofField::BetaG2) {
                        Err(e) => Err(e),
                        Ok(beta_g2) => match hash_member(j, ProofField::PrevHash) {
                            Err(e) => Err(e),
                            Ok(prev) => match hash_member(j, ProofField::NewHash) {
                                Err(e) => Err(e),
                                Ok(new) => Ok(
                                    ProofBytes {
                                        tau_g1,
                                        tau_g2,
                                        alpha_g1,
                                        beta_g1,
                                        beta_g2,
                                        prev_accumulator_hash: prev,
                                        new_accumulator_hash: new,
                                    },
                                ),
                            },
                        },
                    },
                },
            },
        },
    }
}

/// The kinds of value a proof member holds.
#[derive(Debug, PartialEq)]
pub enum MemberKind {
    G1,
    G2,
    Hash,
}

/// What reading one member gives.
pub open spec fn member_reading(j: Json, f: ProofField, k: MemberKind) -> Result<Seq<u8>, ProofError> {
    match k {
        MemberKind::G1 => g1_member(j, f),
        MemberKind::G2 => g2_member(j, f),
        MemberKind::Hash => hash_member(j, f),
    }
}

/// Reads one member of a proof file.
pub fn read_member(j: &JsonValue, f: ProofField, k: MemberKind) -> (r: Result<Vec<u8>, ProofError>)
    ensures
        match r {
            Ok(b) => member_reading(j@, f, k) == Ok::<Seq<u8>, ProofError>(b@),
            Err(e) => member_reading(j@, f, k) == Err::<Seq<u8>, ProofError>(e),
        },
{
    let text = match j.str_at(f.name()) {
        Some(t) => t,
        None => {
            return Err(ProofError::MissingField(f));
        },
    };
    let bytes = match hex_decode(text.as_str()) {
        Ok(b) => b,
        Err(e) => {
            return Err(ProofError::InvalidHex(f, e));
        },
    };
    match k {
        MemberKind::G1 => match check_g1(bytes.as_slice()) {
            Ok(()) => Ok(bytes),
            Err(e) => Err(ProofError::BadPoint(f, e)),
        },
        MemberKind::G2 => match check_g2(bytes.as_slice()) {
            Ok(()) => Ok(bytes),
            Err(e) => Err(ProofError::BadPoint(f, e)),
        },
        MemberKind::Hash => if bytes.len() == 32 {
            Ok(bytes)
        } else {
            Err(ProofError::BadHashLength(f))
        },
    }
}

/// Reads a contribution proof from its file's JSON: each point and hash is
/// hexadecimal text of its compressed bytes.
pub fn deserialize_contribution_proof(j: &JsonValue) -> (r: Result<ContributionProof, ProofError>)
    ensures
        match r {
            Ok(p) => proof_reading(j@) == Ok::<ProofBytes, ProofError>(p@),
            Err(e) => proof_reading(j@) == Err::<ProofBytes, ProofError>(e),
        },
        r matches Ok(p) ==> {
            &&& g1_decoding(p.tau_g1@) is Ok
            &&& g2_decoding(p.tau_g2@) is Ok
            &&& g1_decoding(p.alpha_g1@) is Ok
            &&& g1_decoding(p.beta_g1@) is Ok
            &&& g2_decoding(p.beta_g2@) is Ok
            &&& p.prev_accumulator_hash@.len() == 32
            &&& p.new_accumulator_hash@.len() == 32
        },
{
    proof {
        if let Ok(p) = proof_reading(j@) {
            lemma_read_proof_is_valid(j@, p);
        }
    }
    let tau_g1 = match read_member(j, ProofField::TauG1, MemberKind::G1) {
        Ok(b) => b,
        Err(e) => {
            return Err(e);
        },
    };
    let tau_g2 = match read_member(j, ProofField::TauG2, MemberKind::G2) {
        Ok(b) => b,
        Err(e) => {
            return Err(e);
        },
    };
    let alpha_g1 = match read_member(j, ProofField::AlphaG1, MemberKind::G1) {
        Ok(b) => b,
        Err(e) => {
            return Err(e);
        },
    };
    let beta_g1 = match read_member(j, ProofField::BetaG1, MemberKind::G1) {
        Ok(b) => b,
        Err(e) => {
            return Err(e);
        },
    };
    let beta_g2 = match read_member(j, ProofField::BetaG2, MemberKind::G2) {
        Ok(b) => b,
        Err(e) => {
            return Err(e);
        },
    };
    let prev = match read_member(j, ProofField::PrevHash, MemberKind::Hash) {
        Ok(b) => b,
        Err(e) => {
            return Err(e);
        },
    };
    let new = match read_member(j, ProofField::NewHash, MemberKind::Hash) {
        Ok(b) => b,
        Err(e) => {
            return Err(e);
        },
    };
    Ok(
        ContributionProof {
            tau_g1,
            tau_g2,
            alpha_g1,
            beta_g1,
            beta_g2,
            prev_accumulator_hash: prev,
            new_accumulator_hash: new,
        },
    )
}

/// Where the finalizing beacon comes from.
#[derive(Debug, PartialEq)]
pub enum BeaconSource {
    /// The given beacon is hexadecimal text: these are its bytes.
    Hex(Vec<u8>),
    /// The given beacon is not hexadecimal: a file of that path, when one
    /// exists, else the text's own bytes.
    PathOrText(String),
    /// No beacon was given: the current time.
    Clock,
}

impl FinalizeCmd {
    /// Where the beacon comes from: hexadecimal text is decoded first.
    pub fn beacon_source(&self) -> (r: BeaconSource)
        ensures
            match self.beacon {
                None => r is Clock,
                Some(b) => match hex_decoding(encode_utf8(b@)) {
                    Ok(bytes) => r matches BeaconSource::Hex(v) && v@ == bytes,
                    Err(_) => r matches BeaconSource::PathOrText(s) && s@ == b@,
                },
            },
    {
        match &self.beacon {
            None => BeaconSource::Clock,
            Some(b) => match hex_decode(b.as_str()) {
                Ok(bytes) => BeaconSource::Hex(bytes),
                Err(_) => BeaconSource::PathOrText(b.clone()),
            },
        }
    }
}

/// The UTF-8 bytes of a text beacon.
pub fn text_beacon(s: &str) -> (r: Vec<u8>)
    ensures
        r@ == encode_utf8(s@),
{
    s.as_bytes_vec()
}

/// The `k` low-order bytes of `n`, least significant first.
pub open spec fn le_bytes(n: nat, k: nat) -> Seq<u8>
    decreases k,
{
    if k == 0 {
        Seq::empty()
    } else {
        seq![(n % 256) as u8] + le_bytes(n / 256, (k - 1) as nat)
    }
}

/// The beacon taken from the clock: the Unix time in seconds as eight
/// little-endian bytes, as `u64::to_le_bytes` gives them.
pub fn clock_beacon(secs: u64) -> (r: Vec<u8>)
    ensures
        r@ == le_bytes(secs as nat, 8),
{
    let mut r: Vec<u8> = Vec::new();
    let mut m: u64 = secs;
    let mut i: usize = 0;
    while i < 8
        invariant
            i <= 8,
            r@ + le_bytes(m as nat, (8 - i) as nat) == le_bytes(secs as nat, 8),
        decreases 8 - i,
    {
        let ghost before = r@;
        assert(le_bytes(m as nat, (8 - i) as nat) == seq![(m % 256) as u8] + le_bytes(
            (m / 256) as nat,
            (8 - i - 1) as nat,
        ));
        r.push((m % 256) as u8);
        assert(r@ + le_bytes((m / 256) as nat, (8 - i - 1) as nat) =~= before + le_bytes(
            m as nat,
            (8 - i) as nat,
        ));
        m = m / 256;
        i = i + 1;
    }
    assert(r@ + le_bytes(m as nat, 0) =~= r@);
    r
}

/// The points of an accumulator, each as its compressed encoding.
#[derive(Debug, PartialEq)]
pub struct AccumulatorPoints {
    pub tau_powers_g1: Vec<Vec<u8>>,
    pub tau_powers_g2: Vec<Vec<u8>>,
    pub alpha_tau_powers_g1: Vec<Vec<u8>>,
    pub beta_tau_powers_g1: Vec<Vec<u8>>,
    pub beta_g2: Vec<u8>,
}

/// Every point of the list is `g`.
pub open spec fn all_are(ps: Seq<Vec<u8>>, g: Seq<u8>) -> bool {
    forall|i: int| 0 <= i < ps.len() ==> #[trigger] ps[i]@ == g
}

fn every_is(ps: &Vec<Vec<u8>>, g: &[u8]) -> (r: bool)
    ensures
        r == all_are(ps@, g@),
{
    let mut i: usize = 0;
    while i < ps.len()
        invariant
            i <= ps@.len(),
            forall|k: int| 0 <= k < i ==> #[trigger] ps@[k]@ == g@,
        decreases ps@.len() - i,
    {
        if VerifyCmd::hash_chain(ps[i].as_slice(), g) == HashChain::Changed {
            return false;
        }
        i = i + 1;
    }
    true
}

impl AccumulatorPoints {
    /// The accumulator is the initial one (no contribution yet): every point
    /// is the generator of its group, given as `g1` and `g2`.
    pub open spec fn spec_is_initial(&self, g1: Seq<u8>, g2: Seq<u8>) -> bool {
        &&& all_are(self.tau_powers_g1@, g1)
        &&& all_are(self.tau_powers_g2@, g2)
        &&& all_are(self.alpha_tau_powers_g1@, g1)
        &&& all_are(self.beta_tau_powers_g1@, g1)
        &&& self.beta_g2@ == g2
    }

    /// Whether the accumulator is the initial one.
    pub fn is_initial(&self, g1: &[u8], g2: &[u8]) -> (r: bool)
        ensures
            r == self.spec_is_initial(g1@, g2@),
    {
        every_is(&self.tau_powers_g1, g1) && every_is(&self.tau_powers_g2, g2) && every_is(
            &self.alpha_tau_powers_g1,
            g1,
        ) && every_is(&self.beta_tau_powers_g1, g1) && VerifyCmd::hash_chain(
            self.beta_g2.as_slice(),
            g2,
        ) == HashChain::Unchanged
    }
}

proof fn lemma_document_member(p: ProofBytes, i: int, f: ProofField, b: Seq<u8>)
    requires
        0 <= i < 7,
        proof_document(p)->Obj_0[i] == (f.key(), Json::Str(hex_encoding(b))),
        forall|a: int| 0 <= a < i ==> #[trigger] proof_document(p)->Obj_0[a].0 != f.key(),
    ensures
        member_bytes(proof_document(p), f) == Ok::<Seq<u8>, ProofError>(b),
{
    lemma_lookup_finds(proof_document(p)->Obj_0, i);
    lemma_hex_round_trip(b);
}

/// A contribution proof file reads back as the proof it was written from,
/// whenever its points are valid compressed encodings and its hashes are 32
/// bytes long: what `contribute` writes, `verify` reads.
pub proof fn lemma_proof_file_round_trip(p: ProofBytes)
    requires
        g1_decoding(p.tau_g1) is Ok,
        g2_decoding(p.tau_g2) is Ok,
        g1_decoding(p.alpha_g1) is Ok,
        g1_decoding(p.beta_g1) is Ok,
        g2_decoding(p.beta_g2) is Ok,
        p.prev_accumulator_hash.len() == 32,
        p.new_accumulator_hash.len() == 32,
    ensures
        proof_reading(proof_document(p)) == Ok::<ProofBytes, ProofError>(p),
{
    reveal_strlit("prev_hash");
    reveal_strlit("new_hash");
    reveal_strlit("tau_g1");
    reveal_strlit("tau_g2");
    reveal_strlit("alpha_g1");
    reveal_strlit("beta_g1");
    reveal_strlit("beta_g2");
    let es = proof_document(p)->Obj_0;
    assert(es[0].0 != es[2].0 && es[1].0 != es[2].0) by {
        assert(es[0].0[0] != es[2].0[0]);
        assert(es[1].0[0] != es[2].0[0]);
    }
    lemma_document_member(p, 2, ProofField::TauG1, p.tau_g1);
    assert(es[3].0[5] != es[2].0[5]);
    assert(es[0].0[0] != es[3].0[0] && es[1].0[0] != es[3].0[0]);
    lemma_document_member(p, 3, ProofField::TauG2, p.tau_g2);
    lemma_document_member(p, 4, ProofField::AlphaG1, p.alpha_g1);
    assert(es[0].0[0] != es[5].0[0] && es[1].0[0] != es[5].0[0] && es[2].0[0] != es[5].0[0]
        && es[3].0[0] != es[5].0[0] && es[4].0[0] != es[5].0[0]);
    lemma_document_member(p, 5, ProofField::BetaG1, p.beta_g1);
    assert(es[5].0.len() != es[6].0.len() || es[5].0[6] != es[6].0[6]);
    assert(es[0].0[0] != es[6].0[0] && es[1].0[0] != es[6].0[0] && es[2].0[0] != es[6].0[0]
        && es[3].0[0] != es[6].0[0] && es[4].0[0] != es[6].0[0]);
    lemma_document_member(p, 6, ProofField::BetaG2, p.beta_g2);
    lemma_document_member(p, 0, ProofField::PrevHash, p.prev_accumulator_hash);
    assert(es[0].0[0] != es[1].0[0]);
    lemma_document_member(p, 1, ProofField::NewHash, p.new_accumulator_hash);
}

/// A proof read from a file holds valid compressed encodings of its five
/// curve points and two 32-byte hashes, each being the bytes that the
/// hexadecimal text of its member in the file denotes.
pub proof fn lemma_read_proof_is_valid(j: Json, p: ProofBytes)
    requires
        proof_reading(j) == Ok::<ProofBytes, ProofError>(p),
    ensures
        g1_decoding(p.tau_g1) is Ok,
        g2_decoding(p.tau_g2) is Ok,
        g1_decoding(p.alpha_g1) is Ok,
        g1_decoding(p.beta_g1) is Ok,
        g2_decoding(p.beta_g2) is Ok,
        p.prev_accumulator_hash.len() == 32,
        p.new_accumulator_hash.len() == 32,
        member_bytes(j, ProofField::TauG1) == Ok::<Seq<u8>, ProofError>(p.tau_g1),
        member_bytes(j, ProofField::TauG2) == Ok::<Seq<u8>, ProofError>(p.tau_g2),
        member_bytes(j, ProofField::AlphaG1) == Ok::<Seq<u8>, ProofError>(p.alpha_g1),
        member_bytes(j, ProofField::BetaG1) == Ok::<Seq<u8>, ProofError>(p.beta_g1),
        member_bytes(j, ProofField::BetaG2) == Ok::<Seq<u8>, ProofError>(p.beta_g2),
        member_bytes(j, ProofField::PrevHash) == Ok::<Seq<u8>, ProofError>(p.prev_accumulator_hash),
        member_bytes(j, ProofField::NewHash) == Ok::<Seq<u8>, ProofError>(p.new_accumulator_hash),
{
}

/// A file whose members all denote valid points and 32-byte hashes is read
/// without error.
pub proof fn lemma_valid_members_are_read(j: Json)
    requires
        member_bytes(j, ProofField::TauG1) matches Ok(b) && g1_decoding(b) is Ok,
        member_bytes(j, ProofField::TauG2) matches Ok(b) && g2_decoding(b) is Ok,
        member_bytes(j, ProofField::AlphaG1) matches Ok(b) && g1_decoding(b) is Ok,
        member_bytes(j, ProofField::BetaG1) matches Ok(b) && g1_decoding(b) is Ok,
        member_bytes(j, ProofField::BetaG2) matches Ok(b) && g2_decoding(b) is Ok,
        member_bytes(j, ProofField::PrevHash) matches Ok(b) && b.len() == 32,
        member_bytes(j, ProofField::NewHash) matches Ok(b) && b.len() == 32,
    ensures
        proof_reading(j) is Ok,
{
}

/// The order in which the members of a proof file are read, each with the
/// kind of value it holds.
pub open spec fn reading_order() -> Seq<(ProofField, MemberKind)> {
    seq![
        (ProofField::TauG1, MemberKind::G1),
        (ProofField::TauG2, MemberKind::G2),
        (ProofField::AlphaG1, MemberKind::G1),
        (ProofField::BetaG1, MemberKind::G1),
        (ProofField::BetaG2, MemberKind::G2),
        (ProofField::PrevHash, MemberKind::Hash),
        (ProofField::NewHash, MemberKind::Hash),
    ]
}

/// Reading a proof file fails with the error of the first member, in the
/// order `tau_g1`, `tau_g2`, `alpha_g1`, `beta_g1`, `beta_g2`, `prev_hash`,
/// `new_hash`, that cannot be read.
pub proof fn lemma_first_failure_decides(j: Json, k: int, e: ProofError)
    requires
        0 <= k < 7,
        forall|i: int| 0 <= i < k ==> (#[trigger] member_reading(j, reading_order()[i].0, reading_order()[i].1)) is Ok,
        member_reading(j, reading_order()[k].0, reading_order()[k].1) == Err::<Seq<u8>, ProofError>(e),
    ensures
        proof_reading(j) == Err::<ProofBytes, ProofError>(e),
{
    let o = reading_order();
    if k > 0 {
        assert(member_reading(j, o[0].0, o[0].1) is Ok);
    }
    if k > 1 {
        assert(member_reading(j, o[1].0, o[1].1) is Ok);
    }
    if k > 2 {
        assert(member_reading(j, o[2].0, o[2].1) is Ok);
    }
    if k > 3 {
        assert(member_reading(j, o[3].0, o[3].1) is Ok);
    }
    if k > 4 {
        assert(member_reading(j, o[4].0, o[4].1) is Ok);
    }
    if k > 5 {
        assert(member_reading(j, o[5].0, o[5].1) is Ok);
    }
}

/// An accumulator is the initial one exactly when no point of it differs from
/// the generator of its group.
pub proof fn lemma_initial_means_generators(a: AccumulatorPoints, g1: Seq<u8>, g2: Seq<u8>)
    ensures
        a.spec_is_initial(g1, g2) <==> {
            &&& forall|i: int| 0 <= i < a.tau_powers_g1@.len() ==> #[trigger] a.tau_powers_g1@[i]@ == g1
            &&& forall|i: int| 0 <= i < a.tau_powers_g2@.len() ==> #[trigger] a.tau_powers_g2@[i]@ == g2
            &&& forall|i: int|
                0 <= i < a.alpha_tau_powers_g1@.len() ==> #[trigger] a.alpha_tau_powers_g1@[i]@ == g1
            &&& forall|i: int|
                0 <= i < a.beta_tau_powers_g1@.len() ==> #[trigger] a.beta_tau_powers_g1@[i]@ == g1
            &&& a.beta_g2@ == g2
        },
{
}

} // verus!
