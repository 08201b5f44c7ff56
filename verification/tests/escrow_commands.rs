use tenzro_cli::escrow::{
    ChannelCloseCmd, ChannelOpenCmd, DelegateCmd, EscrowCreateCmd, EscrowReleaseCmd, GetSettlementCmd, SettleCmd,
};
use tenzro_cli::json::{JsonNumber, JsonValue};
use tenzro_cli::report::Field;

fn obj(entries: Vec<(&str, JsonValue)>) -> JsonValue {
    JsonValue::Object(entries.into_iter().map(|(k, v)| (k.to_string(), v)).collect())
}

fn s(x: &str) -> JsonValue {
    JsonValue::Str(x.to_string())
}

fn fields(v: &[(&str, &str)]) -> Vec<Field> {
    v.iter().map(|(l, x)| Field { label: l.to_string(), value: x.to_string() }).collect()
}

const RPC: &str = "http://127.0.0.1:8545";

#[test]
fn create_escrow_request_and_report() {
    let cmd = EscrowCreateCmd { payer: "0xaa".into(), payee: "0xbb".into(), amount: 250, rpc: RPC.into() };
    let req = cmd.request();
    assert_eq!(req.method, "tenzro_createEscrow");
    assert_eq!(
        req.params,
        obj(vec![("payer", s("0xaa")), ("payee", s("0xbb")), ("amount", JsonValue::Number(JsonNumber::PosInt(250)))])
    );
    let result = obj(vec![("escrow_id", s("e-1")), ("status", s("Funded"))]);
    assert_eq!(
        cmd.report(&result),
        fields(&[("Escrow ID", "e-1"), ("Payer", "0xaa"), ("Payee", "0xbb"), ("Amount", "250 TNZO"), ("Status", "Funded")])
    );
    assert_eq!(cmd.report(&JsonValue::Null), fields(&[("Payer", "0xaa"), ("Payee", "0xbb"), ("Amount", "250 TNZO")]));
}

#[test]
fn release_escrow_with_and_without_proof() {
    let cmd = EscrowReleaseCmd { escrow_id: "e-1".into(), proof: None, rpc: RPC.into() };
    assert_eq!(cmd.request().method, "tenzro_releaseEscrow");
    assert_eq!(cmd.request().params, obj(vec![("escrow_id", s("e-1"))]));
    let with = EscrowReleaseCmd { escrow_id: "e-1".into(), proof: Some("beef".into()), rpc: RPC.into() };
    assert_eq!(with.request().params, obj(vec![("escrow_id", s("e-1")), ("proof", s("beef"))]));
    let result = obj(vec![
        ("status", s("Released")),
        ("receipt", obj(vec![("receipt_id", s("r-9")), ("transaction_hash", s("0xfeed"))])),
    ]);
    assert_eq!(
        cmd.report(&result),
        fields(&[("Escrow ID", "e-1"), ("Status", "Released"), ("Receipt ID", "r-9"), ("Transaction Hash", "0xfeed")])
    );
}

#[test]
fn open_and_close_channel() {
    let open = ChannelOpenCmd { counterparty: "0xcc".into(), deposit: 7, rpc: RPC.into() };
    assert_eq!(open.request().method, "tenzro_openPaymentChannel");
    assert_eq!(
        open.request().params,
        obj(vec![("counterparty", s("0xcc")), ("deposit", JsonValue::Number(JsonNumber::PosInt(7)))])
    );
    let result = obj(vec![("channel_id", s("c-1")), ("deposit", s("7")), ("status", s("Open"))]);
    assert_eq!(
        open.report(&result),
        fields(&[("Channel ID", "c-1"), ("Counterparty", "0xcc"), ("Deposit", "7 TNZO"), ("Status", "Open")])
    );

    let close = ChannelCloseCmd { channel_id: "c-1".into(), rpc: RPC.into() };
    assert_eq!(close.request().method, "tenzro_closePaymentChannel");
    assert_eq!(close.request().params, obj(vec![("channel_id", s("c-1"))]));
    let result = obj(vec![
        ("status", s("Closing")),
        ("final_balances", obj(vec![("deposit", s("100")), ("spent", s("40")), ("remaining", s("60"))])),
    ]);
    assert_eq!(
        close.report(&result),
        fields(&[
            ("Channel ID", "c-1"),
            ("Status", "Closing"),
            ("Total Deposit", "100 wei"),
            ("Total Spent", "40 wei"),
            ("Remaining", "60 wei"),
        ])
    );
}

#[test]
fn settle_and_get_settlement() {
    let cmd = SettleCmd {
        payer: "0x1".into(),
        payee: "0x2".into(),
        amount: 5,
        settlement_type: "immediate".into(),
        rpc: RPC.into(),
    };
    let req = cmd.request();
    assert_eq!(req.method, "tenzro_settle");
    assert_eq!(
        req.params,
        JsonValue::Array(vec![obj(vec![
            ("payer", s("0x1")),
            ("payee", s("0x2")),
            ("amount", JsonValue::Number(JsonNumber::PosInt(5))),
            ("settlement_type", s("immediate")),
        ])])
    );
    let result = obj(vec![("settlement_id", s("s-1")), ("status", s("Done")), ("transaction_hash", s("0xab"))]);
    assert_eq!(
        cmd.report(&result),
        fields(&[
            ("Settlement ID", "s-1"),
            ("Payer", "0x1"),
            ("Payee", "0x2"),
            ("Amount", "5 TNZO"),
            ("Status", "Done"),
            ("Transaction Hash", "0xab"),
        ])
    );

    let get = GetSettlementCmd { settlement_id: "s-1".into(), rpc: RPC.into() };
    assert_eq!(get.request().method, "tenzro_getSettlement");
    assert_eq!(get.request().params, JsonValue::Array(vec![s("s-1")]));
    let members = vec![("amount".to_string(), "5".to_string()), ("status".to_string(), "\"Done\"".to_string())];
    assert_eq!(GetSettlementCmd::report(&members), fields(&[("amount", "5"), ("status", "Done")]));
}

#[test]
fn delegate_voting_power() {
    let cmd = DelegateCmd { from: "0xme".into(), to: "0xval".into(), amount: 1000, rpc: RPC.into() };
    assert_eq!(cmd.request().method, "tenzro_delegateVotingPower");
    assert_eq!(
        cmd.request().params,
        obj(vec![("delegator", s("0xme")), ("delegatee", s("0xval")), ("amount", JsonValue::Number(JsonNumber::PosInt(1000)))])
    );
    assert_eq!(
        cmd.report(&obj(vec![("status", s("Delegated"))])),
        fields(&[("Delegator", "0xme"), ("Delegatee", "0xval"), ("Amount", "1000 TNZO"), ("Status", "Delegated")])
    );
}
