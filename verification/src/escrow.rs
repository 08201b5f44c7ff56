//! Escrow accounts, micropayment channels, settlements and vote delegation.

use vstd::prelude::*;
use crate::json::{Json, JsonNumber, JsonValue, Num, lemma_lookup_finds, lookup, object, put, singleton};
use crate::report::{Field, RpcRequest, fields_view, opt_field, push_field, push_opt_field, request};
use crate::report::{group_lacks, lemma_shown_at, lemma_shown_opt_at, member, shown};
use crate::text::{concat2, decimal, decimal_string, opt_chars, trim_char, trim_matches};

verus! {

/// Create a new escrow.
pub struct EscrowCreateCmd {
    /// Payer address (hex, e.g. 0x...)
    pub payer: String,
    /// Payee address (hex, e.g. 0x...)
    pub payee: String,
    /// Amount in TNZO
    pub amount: u64,
    /// RPC endpoint
    pub rpc: String,
}

/// `"{amount} TNZO"`.
pub open spec fn tnzo(amount: u64) -> Seq<char> {
    decimal(amount as nat) + " TNZO"@
}

fn tnzo_text(amount: u64) -> (r: String)
    ensures
        r@ == tnzo(amount),
{
    let d = decimal_string(amount);
    concat2(d.as_str(), " TNZO")
}

impl EscrowCreateCmd {
    /// The parameters sent to `tenzro_createEscrow`.
    pub open spec fn spec_params(&self) -> Json {
        Json::Obj(
            seq![
                ("payer"@, Json::Str(self.payer@)),
                ("payee"@, Json::Str(self.payee@)),
                ("amount"@, Json::Number(Num::PosInt(self.amount))),
            ],
        )
    }

    /// The call that creates the escrow.
    pub fn request(&self) -> (r: RpcRequest)
        ensures
            r.method@ == "tenzro_createEscrow"@,
            r.params@ == self.spec_params(),
            r.params@.get("payer"@) == Some(Json::Str(self.payer@)),
            r.params@.get("payee"@) == Some(Json::Str(self.payee@)),
            r.params@.get("amount"@) == Some(Json::Number(Num::PosInt(self.amount))),
    {
        proof {
            lemma_create_params(self);
        }
        let mut es: Vec<(String, JsonValue)> = Vec::new();
        put(&mut es, "payer", JsonValue::Str(self.payer.clone()));
        put(&mut es, "payee", JsonValue::Str(self.payee.clone()));
        put(&mut es, "amount", JsonValue::Number(JsonNumber::PosInt(self.amount)));
        let params = object(es);
        assert(params@->Obj_0 =~= self.spec_params()->Obj_0);
        request("tenzro_createEscrow", params)
    }

    /// The fields shown once the escrow exists.
    pub open spec fn spec_report(&self, result: Json) -> Seq<(Seq<char>, Seq<char>)> {
        opt_field("Escrow ID"@, result.str_at("escrow_id"@))
            + seq![("Payer"@, self.payer@), ("Payee"@, self.payee@), ("Amount"@, tnzo(self.amount))]
            + opt_field("Status"@, result.str_at("status"@))
    }

    /// What the node answered, as fields to show.
    pub fn report(&self, result: &JsonValue) -> (r: Vec<Field>)
        ensures
            fields_view(r@) == self.spec_report(result@),
            shown(fields_view(r@), "Escrow ID"@) == result@.str_at("escrow_id"@),
            shown(fields_view(r@), "Payer"@) == Some(self.payer@),
            shown(fields_view(r@), "Payee"@) == Some(self.payee@),
            shown(fields_view(r@), "Amount"@) == Some(tnzo(self.amount)),
            shown(fields_view(r@), "Status"@) == result@.str_at("status"@),
    {
        proof {
            lemma_create_report(self, result@);
        }
        let mut r: Vec<Field> = Vec::new();
        push_opt_field(&mut r, "Escrow ID", result.str_at("escrow_id"));
        push_field(&mut r, "Payer", self.payer.clone());
        push_field(&mut r, "Payee", self.payee.clone());
        push_field(&mut r, "Amount", tnzo_text(self.amount));
        push_opt_field(&mut r, "Status", result.str_at("status"));
        assert(fields_view(r@) =~= self.spec_report(result@));
        r
    }
}

/// Escrow and payment channel commands.
pub enum EscrowCommand {
    /// Create a new escrow
    Create(EscrowCreateCmd),
    /// Release an escrow
    Release(EscrowReleaseCmd),
    /// Open a micropayment channel
    OpenChannel(ChannelOpenCmd),
    /// Close a micropayment channel
    CloseChannel(ChannelCloseCmd),
    /// Delegate voting power to a validator
    Delegate(DelegateCmd),
    /// Settle a payment immediately
    Settle(SettleCmd),
    /// Get settlement details
    GetSettlement(GetSettlementCmd),
}

/// Release an escrow.
pub struct EscrowReleaseCmd {
    /// Escrow ID (UUID)
    pub escrow_id: String,
    /// Proof data (hex, optional)
    pub proof: Option<String>,
    /// RPC endpoint
    pub rpc: String,
}

impl EscrowReleaseCmd {
    /// The parameters sent to `tenzro_releaseEscrow`: the escrow, and the
    /// proof when one was given.
    pub open spec fn spec_params(&self) -> Json {
        Json::Obj(
            seq![("escrow_id"@, Json::Str(self.escrow_id@))] + match self.proof {
                Some(p) => seq![("proof"@, Json::Str(p@))],
                None => Seq::empty(),
            },
        )
    }

    /// The call that releases the escrow.
    pub fn request(&self) -> (r: RpcRequest)
        ensures
            r.method@ == "tenzro_releaseEscrow"@,
            r.params@ == self.spec_params(),
            r.params@.get("escrow_id"@) == Some(Json::Str(self.escrow_id@)),
            self.proof matches Some(p) ==> r.params@.get("proof"@) == Some(Json::Str(p@)),
            self.proof is None ==> r.params@.get("proof"@) is None,
    {
        proof {
            lemma_release_params(self);
        }
        let mut es: Vec<(String, JsonValue)> = Vec::new();
        put(&mut es, "escrow_id", JsonValue::Str(self.escrow_id.clone()));
        match &self.proof {
            Some(p) => put(&mut es, "proof", JsonValue::Str(p.clone())),
            None => {},
        }
        let params = object(es);
        assert(params@->Obj_0 =~= self.spec_params()->Obj_0);
        request("tenzro_releaseEscrow", params)
    }

    /// The fields shown once the escrow is released.
    pub open spec fn spec_report(&self, result: Json) -> Seq<(Seq<char>, Seq<char>)> {
        seq![("Escrow ID"@, self.escrow_id@)]
            + opt_field("Status"@, result.str_at("status"@))
            + opt_field("Receipt ID"@, member(result.get("receipt"@), "receipt_id"@))
            + opt_field("Transaction Hash"@, member(result.get("receipt"@), "transaction_hash"@))
    }

    /// What the node answered, as fields to show.
    pub fn report(&self, result: &JsonValue) -> (r: Vec<Field>)
        ensures
            fields_view(r@) == self.spec_report(result@),
            shown(fields_view(r@), "Escrow ID"@) == Some(self.escrow_id@),
            shown(fields_view(r@), "Status"@) == result@.str_at("status"@),
            shown(fields_view(r@), "Receipt ID"@) == member(result@.get("receipt"@), "receipt_id"@),
            shown(fields_view(r@), "Transaction Hash"@) == member(result@.get("receipt"@), "transaction_hash"@),
    {
        proof {
            lemma_release_report(self, result@);
        }
        let mut r: Vec<Field> = Vec::new();
        push_field(&mut r, "Escrow ID", self.escrow_id.clone());
        push_opt_field(&mut r, "Status", result.str_at("status"));
        match result.get("receipt") {
            Some(receipt) => {
                push_opt_field(&mut r, "Receipt ID", receipt.str_at("receipt_id"));
                push_opt_field(&mut r, "Transaction Hash", receipt.str_at("transaction_hash"));
            },
            None => {},
        }
        assert(fields_view(r@) =~= self.spec_report(result@));
        r
    }
}

/// Open a micropayment channel.
pub struct ChannelOpenCmd {
    /// Counterparty address (hex, e.g. 0x...)
    pub counterparty: String,
    /// Deposit amount in TNZO
    pub deposit: u64,
    /// RPC endpoint
    pub rpc: String,
}

impl ChannelOpenCmd {
    /// The parameters sent to `tenzro_openPaymentChannel`.
    pub open spec fn spec_params(&self) -> Json {
        Json::Obj(
            seq![
                ("counterparty"@, Json::Str(self.counterparty@)),
                ("deposit"@, Json::Number(Num::PosInt(self.deposit))),
            ],
        )
    }

    /// The call that opens the channel.
    pub fn request(&self) -> (r: RpcRequest)
        ensures
            r.method@ == "tenzro_openPaymentChannel"@,
            r.params@ == self.spec_params(),
            r.params@.get("counterparty"@) == Some(Json::Str(self.counterparty@)),
            r.params@.get("deposit"@) == Some(Json::Number(Num::PosInt(self.deposit))),
    {
        proof {
            lemma_open_channel_params(self);
        }
        let mut es: Vec<(String, JsonValue)> = Vec::new();
        put(&mut es, "counterparty", JsonValue::Str(self.counterparty.clone()));
        put(&mut es, "deposit", JsonValue::Number(JsonNumber::PosInt(self.deposit)));
        let params = object(es);
        assert(params@->Obj_0 =~= self.spec_params()->Obj_0);
        request("tenzro_openPaymentChannel", params)
    }

    /// The fields shown once the channel is open.
    pub open spec fn spec_report(&self, result: Json) -> Seq<(Seq<char>, Seq<char>)> {
        opt_field("Channel ID"@, result.str_at("channel_id"@))
            + seq![("Counterparty"@, self.counterparty@)]
            + opt_field("Deposit"@, suffixed(result.str_at("deposit"@), " TNZO"@))
            + opt_field("Status"@, result.str_at("status"@))
    }

    /// What the node answered, as fields to show.
    pub fn report(&self, result: &JsonValue) -> (r: Vec<Field>)
        ensures
            fields_view(r@) == self.spec_report(result@),
            shown(fields_view(r@), "Channel ID"@) == result@.str_at("channel_id"@),
            shown(fields_view(r@), "Counterparty"@) == Some(self.counterparty@),
            shown(fields_view(r@), "Deposit"@) == suffixed(result@.str_at("deposit"@), " TNZO"@),
            shown(fields_view(r@), "Status"@) == result@.str_at("status"@),
    {
        proof {
            lemma_open_channel_report(self, result@);
        }
        let mut r: Vec<Field> = Vec::new();
        push_opt_field(&mut r, "Channel ID", result.str_at("channel_id"));
        push_field(&mut r, "Counterparty", self.counterparty.clone());
        push_opt_field(&mut r, "Deposit", with_suffix(result.str_at("deposit"), " TNZO"));
        push_opt_field(&mut r, "Status", result.str_at("status"));
        assert(fields_view(r@) =~= self.spec_report(result@));
        r
    }
}

/// An optional text followed by `suffix`.
pub open spec fn suffixed(v: Option<Seq<char>>, suffix: Seq<char>) -> Option<Seq<char>> {
    match v {
        Some(s) => Some(s + suffix),
        None => None,
    }
}

fn with_suffix(v: Option<String>, suffix: &str) -> (r: Option<String>)
    ensures
        opt_chars(r) == suffixed(opt_chars(v), suffix@),
{
    match v {
        Some(s) => Some(concat2(s.as_str(), suffix)),
        None => None,
    }
}

/// Close a micropayment channel.
pub struct ChannelCloseCmd {
    /// Channel ID (UUID)
    pub channel_id: String,
    /// RPC endpoint
    pub rpc: String,
}

impl ChannelCloseCmd {
    /// The parameters sent to `tenzro_closePaymentChannel`.
    pub open spec fn spec_params(&self) -> Json {
        Json::Obj(seq![("channel_id"@, Json::Str(self.channel_id@))])
    }

    /// The call that closes the channel.
    pub fn request(&self) -> (r: RpcRequest)
        ensures
            r.method@ == "tenzro_closePaymentChannel"@,
            r.params@ == self.spec_params(),
            r.params@ == Json::Obj(seq![("channel_id"@, Json::Str(self.channel_id@))]),
    {
        let mut es: Vec<(String, JsonValue)> = Vec::new();
        put(&mut es, "channel_id", JsonValue::Str(self.channel_id.clone()));
        let params = object(es);
        assert(params@->Obj_0 =~= self.spec_params()->Obj_0);
        request("tenzro_closePaymentChannel", params)
    }

    /// The fields shown once the channel is closing; balances are in wei.
    pub open spec fn spec_report(&self, result: Json) -> Seq<(Seq<char>, Seq<char>)> {
        let b = result.get("final_balances"@);
        seq![("Channel ID"@, self.channel_id@)]
            + opt_field("Status"@, result.str_at("status"@))
            + opt_field("Total Deposit"@, suffixed(member(b, "deposit"@), " wei"@))
            + opt_field("Total Spent"@, suffixed(member(b, "spent"@), " wei"@))
            + opt_field("Remaining"@, suffixed(member(b, "remaining"@), " wei"@))
    }

    /// What the node answered, as fields to show.
    pub fn report(&self, result: &JsonValue) -> (r: Vec<Field>)
        ensures
            fields_view(r@) == self.spec_report(result@),
            shown(fields_view(r@), "Channel ID"@) == Some(self.channel_id@),
            shown(fields_view(r@), "Status"@) == result@.str_at("status"@),
            shown(fields_view(r@), "Total Deposit"@) == suffixed(member(result@.get("final_balances"@), "deposit"@), " wei"@),
            shown(fields_view(r@), "Total Spent"@) == suffixed(member(result@.get("final_balances"@), "spent"@), " wei"@),
            shown(fields_view(r@), "Remaining"@) == suffixed(member(result@.get("final_balances"@), "remaining"@), " wei"@),
    {
        proof {
            lemma_close_channel_report(self, result@);
        }
        let mut r: Vec<Field> = Vec::new();
        push_field(&mut r, "Channel ID", self.channel_id.clone());
        push_opt_field(&mut r, "Status", result.str_at("status"));
        match result.get("final_balances") {
            Some(b) => {
                push_opt_field(&mut r, "Total Deposit", with_suffix(b.str_at("deposit"), " wei"));
                push_opt_field(&mut r, "Total Spent", with_suffix(b.str_at("spent"), " wei"));
                push_opt_field(&mut r, "Remaining", with_suffix(b.str_at("remaining"), " wei"));
            },
            None => {},
        }
        assert(fields_view(r@) =~= self.spec_report(result@));
        r
    }
}

/// Settle a payment immediately.
pub struct SettleCmd {
    /// Payer address (hex)
    pub payer: String,
    /// Payee address (hex)
    pub payee: String,
    /// Amount in TNZO
    pub amount: u64,
    /// Settlement type (immediate, escrow, channel)
    pub settlement_type: String,
    /// RPC endpoint
    pub rpc: String,
}

impl SettleCmd {
    /// The parameters sent to `tenzro_settle`: one object in an array.
    pub open spec fn spec_params(&self) -> Json {
        Json::Arr(
            seq![
                Json::Obj(
                    seq![
                        ("payer"@, Json::Str(self.payer@)),
                        ("payee"@, Json::Str(self.payee@)),
                        ("amount"@, Json::Number(Num::PosInt(self.amount))),
                        ("settlement_type"@, Json::Str(self.settlement_type@)),
                    ],
                ),
            ],
        )
    }

    /// The call that settles the payment.
    pub fn request(&self) -> (r: RpcRequest)
        ensures
            r.method@ == "tenzro_settle"@,
            r.params@ == self.spec_params(),
            r.params@.param("payer"@) == Some(Json::Str(self.payer@)),
            r.params@.param("payee"@) == Some(Json::Str(self.payee@)),
            r.params@.param("amount"@) == Some(Json::Number(Num::PosInt(self.amount))),
            r.params@.param("settlement_type"@) == Some(Json::Str(self.settlement_type@)),
    {
        proof {
            lemma_settle_params(self);
        }
        let mut es: Vec<(String, JsonValue)> = Vec::new();
        put(&mut es, "payer", JsonValue::Str(self.payer.clone()));
        put(&mut es, "payee", JsonValue::Str(self.payee.clone()));
        put(&mut es, "amount", JsonValue::Number(JsonNumber::PosInt(self.amount)));
        put(&mut es, "settlement_type", JsonValue::Str(self.settlement_type.clone()));
        let o = object(es);
        assert(o@->Obj_0 =~= self.spec_params()->Arr_0[0]->Obj_0);
        let params = singleton(o);
        assert(params@->Arr_0 =~= self.spec_params()->Arr_0);
        request("tenzro_settle", params)
    }

    /// The fields shown once the payment is settled.
    pub open spec fn spec_report(&self, result: Json) -> Seq<(Seq<char>, Seq<char>)> {
        opt_field("Settlement ID"@, result.str_at("settlement_id"@))
            + seq![("Payer"@, self.payer@), ("Payee"@, self.payee@), ("Amount"@, tnzo(self.amount))]
            + opt_field("Status"@, result.str_at("status"@))
            + opt_field("Transaction Hash"@, result.str_at("transaction_hash"@))
    }

    /// What the node answered, as fields to show.
    pub fn report(&self, result: &JsonValue) -> (r: Vec<Field>)
        ensures
            fields_view(r@) == self.spec_report(result@),
            shown(fields_view(r@), "Settlement ID"@) == result@.str_at("settlement_id"@),
            shown(fields_view(r@), "Payer"@) == Some(self.payer@),
            shown(fields_view(r@), "Payee"@) == Some(self.payee@),
            shown(fields_view(r@), "Amount"@) == Some(tnzo(self.amount)),
            shown(fields_view(r@), "Status"@) == result@.str_at("status"@),
            shown(fields_view(r@), "Transaction Hash"@) == result@.str_at("transaction_hash"@),
    {
        proof {
            lemma_settle_report(self, result@);
        }
        let mut r: Vec<Field> = Vec::new();
        push_opt_field(&mut r, "Settlement ID", result.str_at("settlement_id"));
        push_field(&mut r, "Payer", self.payer.clone());
        push_field(&mut r, "Payee", self.payee.clone());
        push_field(&mut r, "Amount", tnzo_text(self.amount));
        push_opt_field(&mut r, "Status", result.str_at("status"));
        push_opt_field(&mut r, "Transaction Hash", result.str_at("transaction_hash"));
        assert(fields_view(r@) =~= self.spec_report(result@));
        r
    }
}

/// Get settlement details.
pub struct GetSettlementCmd {
    /// Settlement ID
    pub settlement_id: String,
    /// RPC endpoint
    pub rpc: String,
}

/// Each rendered member with the double quotes around it removed.
pub open spec fn settlement_fields(members: Seq<(String, String)>) -> Seq<(Seq<char>, Seq<char>)> {
    Seq::new(members.len(), |i: int| (members[i].0@, trim_char(members[i].1@, '"')))
}

impl GetSettlementCmd {
    /// The parameters sent to `tenzro_getSettlement`.
    pub open spec fn spec_params(&self) -> Json {
        Json::Arr(seq![Json::Str(self.settlement_id@)])
    }

    /// The call that fetches the settlement.
    pub fn request(&self) -> (r: RpcRequest)
        ensures
            r.method@ == "tenzro_getSettlement"@,
            r.params@ == self.spec_params(),
            r.params@ == Json::Arr(seq![Json::Str(self.settlement_id@)]),
    {
        let params = singleton(JsonValue::Str(self.settlement_id.clone()));
        request("tenzro_getSettlement", params)
    }

    /// The settlement's members, each given with its value in JSON notation,
    /// as fields: every leading and trailing `"` of the notation is dropped.
    pub fn report(members: &Vec<(String, String)>) -> (r: Vec<Field>)
        ensures
            fields_view(r@) == settlement_fields(members@),
    {
        let mut r: Vec<Field> = Vec::new();
        let mut i: usize = 0;
        while i < members.len()
            invariant
                i <= members@.len(),
                fields_view(r@) =~= settlement_fields(members@).take(i as int),
            decreases members@.len() - i,
        {
            let v = trim_matches(members[i].1.as_str(), '"');
            push_field(&mut r, members[i].0.as_str(), v);
            i = i + 1;
            assert(fields_view(r@) =~= settlement_fields(members@).take(i as int));
        }
        assert(settlement_fields(members@).take(members@.len() as int) =~= settlement_fields(members@));
        r
    }
}

/// Delegate voting power to a validator.
pub struct DelegateCmd {
    /// Delegator address (your address, hex)
    pub from: String,
    /// Delegatee/validator address (hex)
    pub to: String,
    /// Amount in TNZO to delegate
    pub amount: u64,
    /// RPC endpoint
    pub rpc: String,
}

impl DelegateCmd {
    /// The parameters sent to `tenzro_delegateVotingPower`.
    pub open spec fn spec_params(&self) -> Json {
        Json::Obj(
            seq![
                ("delegator"@, Json::Str(self.from@)),
                ("delegatee"@, Json::Str(self.to@)),
                ("amount"@, Json::Number(Num::PosInt(self.amount))),
            ],
        )
    }

    /// The call that delegates the voting power.
    pub fn request(&self) -> (r: RpcRequest)
        ensures
            r.method@ == "tenzro_delegateVotingPower"@,
            r.params@ == self.spec_params(),
            r.params@.get("delegator"@) == Some(Json::Str(self.from@)),
            r.params@.get("delegatee"@) == Some(Json::Str(self.to@)),
            r.params@.get("amount"@) == Some(Json::Number(Num::PosInt(self.amount))),
    {
        proof {
            lemma_delegate_params(self);
        }
        let mut es: Vec<(String, JsonValue)> = Vec::new();
        put(&mut es, "delegator", JsonValue::Str(self.from.clone()));
        put(&mut es, "delegatee", JsonValue::Str(self.to.clone()));
        put(&mut es, "amount", JsonValue::Number(JsonNumber::PosInt(self.amount)));
        let params = object(es);
        assert(params@->Obj_0 =~= self.spec_params()->Obj_0);
        request("tenzro_delegateVotingPower", params)
    }

    /// The fields shown once the voting power is delegated.
    pub open spec fn spec_report(&self, result: Json) -> Seq<(Seq<char>, Seq<char>)> {
        seq![("Delegator"@, self.from@), ("Delegatee"@, self.to@), ("Amount"@, tnzo(self.amount))]
            + opt_field("Status"@, result.str_at("status"@))
    }

    /// What the node answered, as fields to show.
    pub fn report(&self, result: &JsonValue) -> (r: Vec<Field>)
        ensures
            fields_view(r@) == self.spec_report(result@),
            shown(fields_view(r@), "Delegator"@) == Some(self.from@),
            shown(fields_view(r@), "Delegatee"@) == Some(self.to@),
            shown(fields_view(r@), "Amount"@) == Some(tnzo(self.amount)),
            shown(fields_view(r@), "Status"@) == result@.str_at("status"@),
    {
        proof {
            lemma_delegate_report(self, result@);
        }
        let mut r: Vec<Field> = Vec::new();
        push_field(&mut r, "Delegator", self.from.clone());
        push_field(&mut r, "Delegatee", self.to.clone());
        push_field(&mut r, "Amount", tnzo_text(self.amount));
        push_opt_field(&mut r, "Status", result.str_at("status"));
        assert(fields_view(r@) =~= self.spec_report(result@));
        r
    }
}

/// A settlement request sends one object that holds the command's payer,
/// payee, amount and settlement type, each under its own key.
pub proof fn lemma_settle_params(c: &SettleCmd)
    ensures
        c.spec_params().param("payer"@) == Some(Json::Str(c.payer@)),
        c.spec_params().param("payee"@) == Some(Json::Str(c.payee@)),
        c.spec_params().param("amount"@) == Some(Json::Number(Num::PosInt(c.amount))),
        c.spec_params().param("settlement_type"@) == Some(Json::Str(c.settlement_type@)),
{
    reveal_strlit("payer");
    reveal_strlit("payee");
    reveal_strlit("amount");
    reveal_strlit("settlement_type");
    let es = c.spec_params()->Arr_0[0]->Obj_0;
    assert(es[0].0[4] != es[1].0[4]);
    lemma_lookup_finds(es, 0);
    lemma_lookup_finds(es, 1);
    lemma_lookup_finds(es, 2);
    assert(es[0].0[0] != es[3].0[0] && es[1].0[0] != es[3].0[0] && es[2].0[0] != es[3].0[0]);
    lemma_lookup_finds(es, 3);
}

/// An escrow is created with the command's payer, payee and amount, each
/// under its own key.
pub proof fn lemma_create_params(c: &EscrowCreateCmd)
    ensures
        c.spec_params().get("payer"@) == Some(Json::Str(c.payer@)),
        c.spec_params().get("payee"@) == Some(Json::Str(c.payee@)),
        c.spec_params().get("amount"@) == Some(Json::Number(Num::PosInt(c.amount))),
{
    reveal_strlit("payer");
    reveal_strlit("payee");
    reveal_strlit("amount");
    let es = c.spec_params()->Obj_0;
    assert(es[0].0[4] != es[1].0[4]);
    assert(es[0].0[0] != es[2].0[0] && es[1].0[0] != es[2].0[0]);
    lemma_lookup_finds(es, 0);
    lemma_lookup_finds(es, 1);
    lemma_lookup_finds(es, 2);
}

/// An escrow is released by its id, with the proof exactly when one was
/// given.
pub proof fn lemma_release_params(c: &EscrowReleaseCmd)
    ensures
        c.spec_params().get("escrow_id"@) == Some(Json::Str(c.escrow_id@)),
        c.proof matches Some(p) ==> c.spec_params().get("proof"@) == Some(Json::Str(p@)),
        c.proof is None ==> c.spec_params().get("proof"@) is None,
{
    reveal_strlit("escrow_id");
    reveal_strlit("proof");
    let es = c.spec_params()->Obj_0;
    assert(es[0].0[0] == 'e');
    lemma_lookup_finds(es, 0);
    match c.proof {
        Some(p) => {
            assert(es[1] == ("proof"@, Json::Str(p@)));
            assert(es[0].0[0] != es[1].0[0]);
            lemma_lookup_finds(es, 1);
            assert(lookup(es, "proof"@) == Some(Json::Str(p@)));
            assert(c.spec_params().get("proof"@) == Some(Json::Str(p@)));
        },
        None => {
            assert(es.len() == 1);
            assert(es.drop_first().len() == 0);
            assert(lookup(es.drop_first(), "proof"@) is None);
            assert(es[0].0 != "proof"@) by {
                assert(es[0].0[0] != "proof"@[0]);
            }
        },
    }
}

/// A channel is opened with the command's counterparty and deposit.
pub proof fn lemma_open_channel_params(c: &ChannelOpenCmd)
    ensures
        c.spec_params().get("counterparty"@) == Some(Json::Str(c.counterparty@)),
        c.spec_params().get("deposit"@) == Some(Json::Number(Num::PosInt(c.deposit))),
{
    reveal_strlit("counterparty");
    reveal_strlit("deposit");
    let es = c.spec_params()->Obj_0;
    assert(es[0].0[0] != es[1].0[0]);
    lemma_lookup_finds(es, 0);
    lemma_lookup_finds(es, 1);
}

/// Voting power is delegated from the command's `from` address to its `to`
/// address, by its amount.
pub proof fn lemma_delegate_params(c: &DelegateCmd)
    ensures
        c.spec_params().get("delegator"@) == Some(Json::Str(c.from@)),
        c.spec_params().get("delegatee"@) == Some(Json::Str(c.to@)),
        c.spec_params().get("amount"@) == Some(Json::Number(Num::PosInt(c.amount))),
{
    reveal_strlit("delegator");
    reveal_strlit("delegatee");
    reveal_strlit("amount");
    let es = c.spec_params()->Obj_0;
    assert(es[0].0[7] != es[1].0[7]);
    assert(es[0].0[0] != es[2].0[0] && es[1].0[0] != es[2].0[0]);
    lemma_lookup_finds(es, 0);
    lemma_lookup_finds(es, 1);
    lemma_lookup_finds(es, 2);
}

/// A created escrow shows its id and status as the node answered them (each only
/// when given), and the command's payer, payee and amount, each under its own
/// label.
pub proof fn lemma_create_report(c: &EscrowCreateCmd, result: Json)
    ensures
        shown(c.spec_report(result), "Escrow ID"@) == result.str_at("escrow_id"@),
        shown(c.spec_report(result), "Payer"@) == Some(c.payer@),
        shown(c.spec_report(result), "Payee"@) == Some(c.payee@),
        shown(c.spec_report(result), "Amount"@) == Some(tnzo(c.amount)),
        shown(c.spec_report(result), "Status"@) == result.str_at("status"@),
{
    broadcast use group_lacks;

    reveal_strlit("Escrow ID");
    reveal_strlit("Payer");
    reveal_strlit("Payee");
    reveal_strlit("Amount");
    reveal_strlit("Status");
    assert("Escrow ID"@[0] != "Payer"@[0]);
    assert("Escrow ID"@[0] != "Payee"@[0]);
    assert("Escrow ID"@[0] != "Amount"@[0]);
    assert("Escrow ID"@[0] != "Status"@[0]);
    assert("Payer"@[4] != "Payee"@[4]);
    assert("Payer"@[0] != "Amount"@[0]);
    assert("Payer"@[0] != "Status"@[0]);
    assert("Payee"@[0] != "Amount"@[0]);
    assert("Payee"@[0] != "Status"@[0]);
    assert("Amount"@[0] != "Status"@[0]);
    let v0 = result.str_at("escrow_id"@);
    let f0 = opt_field("Escrow ID"@, v0);
    let f1 = ("Payer"@, c.payer@);
    let f2 = ("Payee"@, c.payee@);
    let f3 = ("Amount"@, tnzo(c.amount));
    let v4 = result.str_at("status"@);
    let f4 = opt_field("Status"@, v4);
    let fs = c.spec_report(result);
    assert(fs =~= Seq::empty() + f0 + (seq![f1] + seq![f2] + seq![f3] + f4));
    lemma_shown_opt_at(Seq::empty(), "Escrow ID"@, v0, seq![f1] + seq![f2] + seq![f3] + f4);
    assert(fs =~= f0 + seq![f1] + (seq![f2] + seq![f3] + f4));
    lemma_shown_at(f0, f1, seq![f2] + seq![f3] + f4);
    assert(fs =~= (f0 + seq![f1]) + seq![f2] + (seq![f3] + f4));
    lemma_shown_at(f0 + seq![f1], f2, seq![f3] + f4);
    assert(fs =~= (f0 + seq![f1] + seq![f2]) + seq![f3] + f4);
    lemma_shown_at(f0 + seq![f1] + seq![f2], f3, f4);
    assert(fs =~= (f0 + seq![f1] + seq![f2] + seq![f3]) + f4 + Seq::empty());
    lemma_shown_opt_at(f0 + seq![f1] + seq![f2] + seq![f3], "Status"@, v4, Seq::empty());
}

/// A released escrow shows its id, and the status and the receipt's id and
/// transaction hash as the node answered them, each only when given.
pub proof fn lemma_release_report(c: &EscrowReleaseCmd, result: Json)
    ensures
        shown(c.spec_report(result), "Escrow ID"@) == Some(c.escrow_id@),
        shown(c.spec_report(result), "Status"@) == result.str_at("status"@),
        shown(c.spec_report(result), "Receipt ID"@) == member(result.get("receipt"@), "receipt_id"@),
        shown(c.spec_report(result), "Transaction Hash"@) == member(result.get("receipt"@), "transaction_hash"@),
{
    broadcast use group_lacks;

    reveal_strlit("Escrow ID");
    reveal_strlit("Status");
    reveal_strlit("Receipt ID");
    reveal_strlit("Transaction Hash");
    assert("Escrow ID"@[0] != "Status"@[0]);
    assert("Escrow ID"@[0] != "Receipt ID"@[0]);
    assert("Escrow ID"@[0] != "Transaction Hash"@[0]);
    assert("Status"@[0] != "Receipt ID"@[0]);
    assert("Status"@[0] != "Transaction Hash"@[0]);
    assert("Receipt ID"@[0] != "Transaction Hash"@[0]);
    let f0 = ("Escrow ID"@, c.escrow_id@);
    let v1 = result.str_at("status"@);
    let f1 = opt_field("Status"@, v1);
    let v2 = member(result.get("receipt"@), "receipt_id"@);
    let f2 = opt_field("Receipt ID"@, v2);
    let v3 = member(result.get("receipt"@), "transaction_hash"@);
    let f3 = opt_field("Transaction Hash"@, v3);
    let fs = c.spec_report(result);
    assert(fs =~= Seq::empty() + seq![f0] + (f1 + f2 + f3));
    lemma_shown_at(Seq::empty(), f0, f1 + f2 + f3);
    assert(fs =~= seq![f0] + f1 + (f2 + f3));
    lemma_shown_opt_at(seq![f0], "Status"@, v1, f2 + f3);
    assert(fs =~= (seq![f0] + f1) + f2 + f3);
    lemma_shown_opt_at(seq![f0] + f1, "Receipt ID"@, v2, f3);
    assert(fs =~= (seq![f0] + f1 + f2) + f3 + Seq::empty());
    lemma_shown_opt_at(seq![f0] + f1 + f2, "Transaction Hash"@, v3, Seq::empty());
}

/// An opened channel shows its id, the deposit in TNZO and its status as the
/// node answered them (each only when given), and the command's counterparty.
pub proof fn lemma_open_channel_report(c: &ChannelOpenCmd, result: Json)
    ensures
        shown(c.spec_report(result), "Channel ID"@) == result.str_at("channel_id"@),
        shown(c.spec_report(result), "Counterparty"@) == Some(c.counterparty@),
        shown(c.spec_report(result), "Deposit"@) == suffixed(result.str_at("deposit"@), " TNZO"@),
        shown(c.spec_report(result), "Status"@) == result.str_at("status"@),
{
    broadcast use group_lacks;

    reveal_strlit("Channel ID");
    reveal_strlit("Counterparty");
    reveal_strlit("Deposit");
    reveal_strlit("Status");
    assert("Channel ID"@[1] != "Counterparty"@[1]);
    assert("Channel ID"@[0] != "Deposit"@[0]);
    assert("Channel ID"@[0] != "Status"@[0]);
    assert("Counterparty"@[0] != "Deposit"@[0]);
    assert("Counterparty"@[0] != "Status"@[0]);
    assert("Deposit"@[0] != "Status"@[0]);
    let v0 = result.str_at("channel_id"@);
    let f0 = opt_field("Channel ID"@, v0);
    let f1 = ("Counterparty"@, c.counterparty@);
    let v2 = suffixed(result.str_at("deposit"@), " TNZO"@);
    let f2 = opt_field("Deposit"@, v2);
    let v3 = result.str_at("status"@);
    let f3 = opt_field("Status"@, v3);
    let fs = c.spec_report(result);
    assert(fs =~= Seq::empty() + f0 + (seq![f1] + f2 + f3));
    lemma_shown_opt_at(Seq::empty(), "Channel ID"@, v0, seq![f1] + f2 + f3);
    assert(fs =~= f0 + seq![f1] + (f2 + f3));
    lemma_shown_at(f0, f1, f2 + f3);
    assert(fs =~= (f0 + seq![f1]) + f2 + f3);
    lemma_shown_opt_at(f0 + seq![f1], "Deposit"@, v2, f3);
    assert(fs =~= (f0 + seq![f1] + f2) + f3 + Seq::empty());
    lemma_shown_opt_at(f0 + seq![f1] + f2, "Status"@, v3, Seq::empty());
}

/// A closing channel shows its id, its status, and its final deposit, spent
/// and remaining balances in wei, each as the node answered it and only when
/// given.
pub proof fn lemma_close_channel_report(c: &ChannelCloseCmd, result: Json)
    ensures
        shown(c.spec_report(result), "Channel ID"@) == Some(c.channel_id@),
        shown(c.spec_report(result), "Status"@) == result.str_at("status"@),
        shown(c.spec_report(result), "Total Deposit"@) == suffixed(member(result.get("final_balances"@), "deposit"@), " wei"@),
        shown(c.spec_report(result), "Total Spent"@) == suffixed(member(result.get("final_balances"@), "spent"@), " wei"@),
        shown(c.spec_report(result), "Remaining"@) == suffixed(member(result.get("final_balances"@), "remaining"@), " wei"@),
{
    broadcast use group_lacks;

    reveal_strlit("Channel ID");
    reveal_strlit("Status");
    reveal_strlit("Total Deposit");
    reveal_strlit("Total Spent");
    reveal_strlit("Remaining");
    assert("Channel ID"@[0] != "Status"@[0]);
    assert("Channel ID"@[0] != "Total Deposit"@[0]);
    assert("Channel ID"@[0] != "Total Spent"@[0]);
    assert("Channel ID"@[0] != "Remaining"@[0]);
    assert("Status"@[0] != "Total Deposit"@[0]);
    assert("Status"@[0] != "Total Spent"@[0]);
    assert("Status"@[0] != "Remaining"@[0]);
    assert("Total Deposit"@[6] != "Total Spent"@[6]);
    assert("Total Deposit"@[0] != "Remaining"@[0]);
    assert("Total Spent"@[0] != "Remaining"@[0]);
    let f0 = ("Channel ID"@, c.channel_id@);
    let v1 = result.str_at("status"@);
    let f1 = opt_field("Status"@, v1);
    let v2 = suffixed(member(result.get("final_balances"@), "deposit"@), " wei"@);
    let f2 = opt_field("Total Deposit"@, v2);
    let v3 = suffixed(member(result.get("final_balances"@), "spent"@), " wei"@);
    let f3 = opt_field("Total Spent"@, v3);
    let v4 = suffixed(member(result.get("final_balances"@), "remaining"@), " wei"@);
    let f4 = opt_field("Remaining"@, v4);
    let fs = c.spec_report(result);
    assert(fs =~= Seq::empty() + seq![f0] + (f1 + f2 + f3 + f4));
    lemma_shown_at(Seq::empty(), f0, f1 + f2 + f3 + f4);
    assert(fs =~= seq![f0] + f1 + (f2 + f3 + f4));
    lemma_shown_opt_at(seq![f0], "Status"@, v1, f2 + f3 + f4);
    assert(fs =~= (seq![f0] + f1) + f2 + (f3 + f4));
    lemma_shown_opt_at(seq![f0] + f1, "Total Deposit"@, v2, f3 + f4);
    assert(fs =~= (seq![f0] + f1 + f2) + f3 + f4);
    lemma_shown_opt_at(seq![f0] + f1 + f2, "Total Spent"@, v3, f4);
    assert(fs =~= (seq![f0] + f1 + f2 + f3) + f4 + Seq::empty());
    lemma_shown_opt_at(seq![f0] + f1 + f2 + f3, "Remaining"@, v4, Seq::empty());
}

/// A settled payment shows its id, status and transaction hash as the node
/// answered them (each only when given), and the command's payer, payee and
/// amount, each under its own label.
pub proof fn lemma_settle_report(c: &SettleCmd, result: Json)
    ensures
        shown(c.spec_report(result), "Settlement ID"@) == result.str_at("settlement_id"@),
        shown(c.spec_report(result), "Payer"@) == Some(c.payer@),
        shown(c.spec_report(result), "Payee"@) == Some(c.payee@),
        shown(c.spec_report(result), "Amount"@) == Some(tnzo(c.amount)),
        shown(c.spec_report(result), "Status"@) == result.str_at("status"@),
        shown(c.spec_report(result), "Transaction Hash"@) == result.str_at("transaction_hash"@),
{
    broadcast use group_lacks;

    reveal_strlit("Settlement ID");
    reveal_strlit("Payer");
    reveal_strlit("Payee");
    reveal_strlit("Amount");
    reveal_strlit("Status");
    reveal_strlit("Transaction Hash");
    assert("Settlement ID"@[0] != "Payer"@[0]);
    assert("Settlement ID"@[0] != "Payee"@[0]);
    assert("Settlement ID"@[0] != "Amount"@[0]);
    assert("Settlement ID"@[1] != "Status"@[1]);
    assert("Settlement ID"@[0] != "Transaction Hash"@[0]);
    assert("Payer"@[4] != "Payee"@[4]);
    assert("Payer"@[0] != "Amount"@[0]);
    assert("Payer"@[0] != "Status"@[0]);
    assert("Payer"@[0] != "Transaction Hash"@[0]);
    assert("Payee"@[0] != "Amount"@[0]);
    assert("Payee"@[0] != "Status"@[0]);
    assert("Payee"@[0] != "Transaction Hash"@[0]);
    assert("Amount"@[0] != "Status"@[0]);
    assert("Amount"@[0] != "Transaction Hash"@[0]);
    assert("Status"@[0] != "Transaction Hash"@[0]);
    let v0 = result.str_at("settlement_id"@);
    let f0 = opt_field("Settlement ID"@, v0);
    let f1 = ("Payer"@, c.payer@);
    let f2 = ("Payee"@, c.payee@);
    let f3 = ("Amount"@, tnzo(c.amount));
    let v4 = result.str_at("status"@);
    let f4 = opt_field("Status"@, v4);
    let v5 = result.str_at("transaction_hash"@);
    let f5 = opt_field("Transaction Hash"@, v5);
    let fs = c.spec_report(result);
    assert(fs =~= Seq::empty() + f0 + (seq![f1] + seq![f2] + seq![f3] + f4 + f5));
    lemma_shown_opt_at(Seq::empty(), "Settlement ID"@, v0, seq![f1] + seq![f2] + seq![f3] + f4 + f5);
    assert(fs =~= f0 + seq![f1] + (seq![f2] + seq![f3] + f4 + f5));
    lemma_shown_at(f0, f1, seq![f2] + seq![f3] + f4 + f5);
    assert(fs =~= (f0 + seq![f1]) + seq![f2] + (seq![f3] + f4 + f5));
    lemma_shown_at(f0 + seq![f1], f2, seq![f3] + f4 + f5);
    assert(fs =~= (f0 + seq![f1] + seq![f2]) + seq![f3] + (f4 + f5));
    lemma_shown_at(f0 + seq![f1] + seq![f2], f3, f4 + f5);
    assert(fs =~= (f0 + seq![f1] + seq![f2] + seq![f3]) + f4 + f5);
    lemma_shown_opt_at(f0 + seq![f1] + seq![f2] + seq![f3], "Status"@, v4, f5);
    assert(fs =~= (f0 + seq![f1] + seq![f2] + seq![f3] + f4) + f5 + Seq::empty());
    lemma_shown_opt_at(f0 + seq![f1] + seq![f2] + seq![f3] + f4, "Transaction Hash"@, v5, Seq::empty());
}

/// A delegation shows the command's delegator, delegatee and amount, and the
/// status as the node answered it, when given.
pub proof fn lemma_delegate_report(c: &DelegateCmd, result: Json)
    ensures
        shown(c.spec_report(result), "Delegator"@) == Some(c.from@),
        shown(c.spec_report(result), "Delegatee"@) == Some(c.to@),
        shown(c.spec_report(result), "Amount"@) == Some(tnzo(c.amount)),
        shown(c.spec_report(result), "Status"@) == result.str_at("status"@),
{
    broadcast use group_lacks;

    reveal_strlit("Delegator");
    reveal_strlit("Delegatee");
    reveal_strlit("Amount");
    reveal_strlit("Status");
    assert("Delegator"@[7] != "Delegatee"@[7]);
    assert("Delegator"@[0] != "Amount"@[0]);
    assert("Delegator"@[0] != "Status"@[0]);
    assert("Delegatee"@[0] != "Amount"@[0]);
    assert("Delegatee"@[0] != "Status"@[0]);
    assert("Amount"@[0] != "Status"@[0]);
    let f0 = ("Delegator"@, c.from@);
    let f1 = ("Delegatee"@, c.to@);
    let f2 = ("Amount"@, tnzo(c.amount));
    let v3 = result.str_at("status"@);
    let f3 = opt_field("Status"@, v3);
    let fs = c.spec_report(result);
    assert(fs =~= Seq::empty() + seq![f0] + (seq![f1] + seq![f2] + f3));
    lemma_shown_at(Seq::empty(), f0, seq![f1] + seq![f2] + f3);
    assert(fs =~= seq![f0] + seq![f1] + (seq![f2] + f3));
    lemma_shown_at(seq![f0], f1, seq![f2] + f3);
    assert(fs =~= (seq![f0] + seq![f1]) + seq![f2] + f3);
    lemma_shown_at(seq![f0] + seq![f1], f2, f3);
    assert(fs =~= (seq![f0] + seq![f1] + seq![f2]) + f3 + Seq::empty());
    lemma_shown_opt_at(seq![f0] + seq![f1] + seq![f2], "Status"@, v3, Seq::empty());
}
} // verus!
