//! Node management: start, status, stop, peers and sync state.

use vstd::prelude::*;
use vstd::string::StringExecFns;
use vstd::arithmetic::div_mod::lemma_fundamental_div_mod_converse;
use crate::json::{Json, JsonNumber, JsonValue, Num, array, lemma_lookup_finds, object, put, singleton};
use crate::report::{RpcRequest, request};
use crate::text::{
    chars_of, concat2, contains, decimal, opt_chars, or_else, owned, push_decimal, str_contains,
    text_or, to_lowercase, unicode_lowercase,
};

verus! {

broadcast use vstd::string::group_string_axioms;

/// The role a node plays in the network.
#[derive(Debug, Clone, Copy, PartialEq, Eq, Structural)]
pub enum NetworkRole {
    Validator,
    ModelProvider,
    TeeProvider,
    LightClient,
}

/// Node management commands.
pub enum NodeCommand {
    /// Start a Tenzro Network node
    Start(NodeStartCmd),
    /// Check node status
    Status(NodeStatusCmd),
    /// Stop the running node
    Stop(NodeStopCmd),
    /// Show connected peer count
    Peers(NodePeersCmd),
    /// Show sync status
    Syncing(NodeSyncingCmd),
}

/// Start a Tenzro Network node.
pub struct NodeStartCmd {
    /// Node role (validator, model-provider, tee-provider, user)
    pub role: String,
    /// Path to configuration file
    pub config: Option<String>,
    /// Data directory for blockchain storage
    pub data_dir: String,
    /// Enable metrics server
    pub metrics: bool,
    /// RPC listen address
    pub rpc_addr: String,
    /// P2P listen address
    pub p2p_addr: String,
}

/// A role name that names no role.
#[derive(Debug, PartialEq)]
pub struct InvalidRole {
    /// The name as it was given.
    pub role: String,
}

/// The role that an already lowercased name stands for.
pub open spec fn role_named(l: Seq<char>) -> Option<NetworkRole> {
    if l == "validator"@ {
        Some(NetworkRole::Validator)
    } else if l == "model-provider"@ {
        Some(NetworkRole::ModelProvider)
    } else if l == "tee-provider"@ || l == "tee"@ {
        Some(NetworkRole::TeeProvider)
    } else if l == "user"@ || l == "light-client"@ {
        Some(NetworkRole::LightClient)
    } else {
        None
    }
}

/// The role that a lowercased name stands for.
pub fn role_from_lowercase(l: &str) -> (r: Option<NetworkRole>)
    ensures
        r == role_named(l@),
{
    let s = owned(l);
    if s == owned("validator") {
        Some(NetworkRole::Validator)
    } else if s == owned("model-provider") {
        Some(NetworkRole::ModelProvider)
    } else if s == owned("tee-provider") || s == owned("tee") {
        Some(NetworkRole::TeeProvider)
    } else if s == owned("user") || s == owned("light-client") {
        Some(NetworkRole::LightClient)
    } else {
        None
    }
}

impl InvalidRole {
    /// The message shown for the invalid name.
    pub fn message(&self) -> (r: String)
        ensures
            r@ == "Invalid role: "@ + self.role@
                + ". Must be one of: validator, model-provider, tee-provider, user"@,
    {
        let mut r = owned("Invalid role: ");
        r.append(self.role.as_str());
        r.append(". Must be one of: validator, model-provider, tee-provider, user");
        r
    }
}

/// Position of the first `c` in `s`, or the length of `s` when there is none.
pub open spec fn find_char(s: Seq<char>, c: char) -> int
    decreases s.len(),
{
    if s.len() == 0 {
        0
    } else if s[0] == c {
        0
    } else {
        1 + find_char(s.drop_first(), c)
    }
}

pub proof fn lemma_find_char(s: Seq<char>, c: char, i: int)
    requires
        0 <= i <= s.len(),
        forall|k: int| 0 <= k < i ==> s[k] != c,
        i == s.len() || s[i] == c,
    ensures
        find_char(s, c) == i,
    decreases i,
{
    if i > 0 {
        lemma_find_char(s.drop_first(), c, i - 1);
    }
}

/// The first `:`-separated piece of an address: what comes before the first
/// colon, or all of it.
pub open spec fn host_part(a: Seq<char>) -> Seq<char> {
    a.take(find_char(a, ':'))
}

/// The second `:`-separated piece of an address, or `30333` when the
/// address has no colon.
pub open spec fn port_part(a: Seq<char>) -> Seq<char> {
    let k = find_char(a, ':');
    if k == a.len() {
        "30333"@
    } else {
        let rest = a.skip(k + 1);
        rest.take(find_char(rest, ':'))
    }
}

/// The libp2p listen address for a `host:port` P2P address.
pub open spec fn listen_multiaddr(a: Seq<char>) -> Seq<char> {
    "/ip4/"@ + host_part(a) + "/tcp/"@ + port_part(a)
}

/// First position at or after `from` holding `c`, or the length.
fn find_from(cs: &Vec<char>, from: usize, c: char) -> (r: usize)
    requires
        from <= cs@.len(),
    ensures
        from <= r <= cs@.len(),
        r - from == find_char(cs@.skip(from as int), c),
{
    let mut i = from;
    while i < cs.len() && cs[i] != c
        invariant
            from <= i <= cs@.len(),
            forall|k: int| from <= k < i ==> cs@[k] != c,
        decreases cs@.len() - i,
    {
        i = i + 1;
    }
    proof {
        lemma_find_char(cs@.skip(from as int), c, i - from);
    }
    i
}

fn chars_between(cs: &Vec<char>, lo: usize, hi: usize) -> (r: String)
    requires
        lo <= hi <= cs@.len(),
    ensures
        r@ == cs@.subrange(lo as int, hi as int),
{
    let mut r = String::new();
    let mut k = lo;
    while k < hi
        invariant
            lo <= k <= hi <= cs@.len(),
            r@ == cs@.subrange(lo as int, k as int),
        decreases hi - k,
    {
        r.push(cs[k]);
        k = k + 1;
        assert(cs@.subrange(lo as int, k as int) =~= cs@.subrange(lo as int, k - 1).push(cs@[k - 1]));
    }
    r
}

/// The libp2p listen address for a `host:port` P2P address:
/// `/ip4/{host}/tcp/{port}`.
pub fn listen_addr(p2p_addr: &str) -> (r: String)
    ensures
        r@ == listen_multiaddr(p2p_addr@),
{
    let cs = chars_of(p2p_addr);
    let n = cs.len();
    let k = find_from(&cs, 0, ':');
    assert(cs@.skip(0) =~= cs@);
    let host = chars_between(&cs, 0, k);
    assert(host@ =~= host_part(p2p_addr@));
    let port = if k == n {
        owned("30333")
    } else {
        let j = find_from(&cs, k + 1, ':');
        let p = chars_between(&cs, k + 1, j);
        assert(p@ =~= port_part(p2p_addr@));
        p
    };
    let mut r = owned("/ip4/");
    r.append(host.as_str());
    r.append("/tcp/");
    r.append(port.as_str());
    r
}

/// How the started node process ended.
#[derive(Debug, Clone, Copy, PartialEq, Eq, Structural)]
pub enum NodeExit {
    /// It exited successfully.
    Success,
    /// It exited with this code (`-1` when it reported none).
    Code(i32),
}

impl NodeStartCmd {
    /// The role this command asks for: its name is lowercased, then looked up.
    pub fn parse_role(&self) -> (r: Result<NetworkRole, InvalidRole>)
        ensures
            match r {
                Ok(role) => role_named(unicode_lowercase(self.role@)) == Some(role),
                Err(e) => role_named(unicode_lowercase(self.role@)) is None && e.role@ == self.role@,
            },
    {
        let l = to_lowercase(self.role.as_str());
        match role_from_lowercase(l.as_str()) {
            Some(role) => Ok(role),
            None => Err(InvalidRole { role: self.role.clone() }),
        }
    }

    /// The arguments handed to the `tenzro-node` program.
    pub open spec fn spec_node_args(&self) -> Seq<Seq<char>> {
        seq![
            "--role"@,
            self.role@,
            "--rpc-addr"@,
            self.rpc_addr@,
            "--listen-addr"@,
            listen_multiaddr(self.p2p_addr@),
            "--data-dir"@,
            self.data_dir@,
        ] + match self.config {
            Some(c) => seq!["--config"@, c@],
            None => Seq::empty(),
        }
    }

    /// The arguments handed to the `tenzro-node` program.
    pub fn node_args(&self) -> (r: Vec<String>)
        ensures
            r@.map_values(|s: String| s@) == self.spec_node_args(),
            node_args_pass_options(*self, r@.map_values(|s: String| s@)),
    {
        proof {
            lemma_node_args_pass_options(*self);
        }
        let mut r: Vec<String> = Vec::new();
        r.push(owned("--role"));
        r.push(self.role.clone());
        r.push(owned("--rpc-addr"));
        r.push(self.rpc_addr.clone());
        r.push(owned("--listen-addr"));
        r.push(listen_addr(self.p2p_addr.as_str()));
        r.push(owned("--data-dir"));
        r.push(self.data_dir.clone());
        match &self.config {
            Some(c) => {
                r.push(owned("--config"));
                r.push(c.clone());
            },
            None => {},
        }
        assert(r@.map_values(|s: String| s@) =~= self.spec_node_args());
        r
    }

    /// The RPC endpoint announced once the node runs: `http://{rpc_addr}`.
    pub fn rpc_endpoint(&self) -> (r: String)
        ensures
            r@ == "http://"@ + self.rpc_addr@,
    {
        concat2("http://", self.rpc_addr.as_str())
    }

    /// How the node process ended, from its exit status.
    pub fn exit(success: bool, code: Option<i32>) -> (r: NodeExit)
        ensures
            success ==> r == NodeExit::Success,
            !success ==> r == NodeExit::Code(
                match code {
                    Some(c) => c,
                    None => -1i32,
                },
            ),
    {
        if success {
            NodeExit::Success
        } else {
            match code {
                Some(c) => NodeExit::Code(c),
                None => NodeExit::Code(-1),
            }
        }
    }
}

/// A call whose parameters are an empty array.
pub fn no_params(method: &str) -> (r: RpcRequest)
    ensures
        r.method@ == method@,
        r.params@ == Json::Arr(Seq::empty()),
{
    let params = array(Vec::new());
    assert(params@->Arr_0 =~= Seq::<Json>::empty());
    request(method, params)
}

/// Check node status.
pub struct NodeStatusCmd {
    /// RPC endpoint to query
    pub rpc: String,
    /// Output format (text, json)
    pub format: String,
}

/// What the node's web API says of its state: `node_state` when present
/// (as text), else `status`.
pub open spec fn api_state(api: Json) -> Option<Seq<char>> {
    match api.get("node_state"@) {
        Some(v) => v.as_str(),
        None => api.str_at("status"@),
    }
}

/// The finalized block: three blocks behind the best one, not below zero.
pub open spec fn finalized(best: u64) -> u64 {
    if best >= 3 {
        (best - 3) as u64
    } else {
        0
    }
}

/// `"{h}h {m}m {s}s"` for a duration in seconds.
pub open spec fn uptime_text(secs: u64) -> Seq<char> {
    decimal((secs / 3600) as nat) + "h "@ + decimal(((secs % 3600) / 60) as nat) + "m "@
        + decimal((secs % 60) as nat) + "s"@
}

/// The node status as shown in text form.
#[derive(Debug, PartialEq)]
pub struct StatusText {
    pub node_id: Option<String>,
    pub role: Option<String>,
    pub version: Option<String>,
    pub chain: Option<String>,
    /// The node's state, `Running` when it says none.
    pub status: String,
    /// Whether the state reads as synced or running.
    pub synced: bool,
    pub best_block: u64,
    pub finalized_block: u64,
    pub peers: u64,
    pub uptime: Option<String>,
}

/// The values that a status query gathered.
#[derive(Debug, PartialEq)]
pub struct StatusInputs {
    /// Answer of `tenzro_nodeInfo`.
    pub node_info: JsonValue,
    /// Answer of the web API's `/status`, `{}` when unreachable.
    pub api_status: JsonValue,
    /// Answer of `eth_blockNumber`.
    pub block_number: String,
    /// Answer of `net_peerCount`.
    pub peer_count: String,
    /// Answer of `net_listening`, `false` when it failed.
    pub listening: bool,
}

impl NodeStatusCmd {
    /// The status in JSON form.
    pub open spec fn spec_json(i: StatusInputs) -> Json {
        let best = crate::quantity::quantity_value(i.block_number@);
        Json::Obj(
            seq![
                ("node_id"@, Json::Str(or_else(i.node_info@.str_at("node_id"@), "unknown"@))),
                ("role"@, Json::Str(or_else(i.node_info@.str_at("role"@), "unknown"@))),
                ("version"@, Json::Str(or_else(i.node_info@.str_at("version"@), "unknown"@))),
                ("chain"@, Json::Str(or_else(i.node_info@.str_at("chain"@), "unknown"@))),
                ("status"@, Json::Str(or_else(api_state(i.api_status@), "unknown"@))),
                ("best_block"@, Json::Number(Num::PosInt(best))),
                ("finalized_block"@, Json::Number(Num::PosInt(finalized(best)))),
                ("peers"@, Json::Number(Num::PosInt(crate::quantity::quantity_value(i.peer_count@)))),
                ("listening"@, Json::Bool(i.listening)),
            ],
        )
    }

    /// The status in JSON form, as printed with `--format json`.
    pub fn status_json(i: &StatusInputs) -> (r: JsonValue)
        ensures
            r@ == Self::spec_json(*i),
            status_json_members(*i, r@),
    {
        proof {
            lemma_status_json_members(*i);
        }
        let best = crate::quantity::parse_hex_u64(i.block_number.as_str());
        let peers = crate::quantity::parse_hex_u64(i.peer_count.as_str());
        let mut es: Vec<(String, JsonValue)> = Vec::new();
        put(&mut es, "node_id", JsonValue::Str(text_or(i.node_info.str_at("node_id"), "unknown")));
        put(&mut es, "role", JsonValue::Str(text_or(i.node_info.str_at("role"), "unknown")));
        put(&mut es, "version", JsonValue::Str(text_or(i.node_info.str_at("version"), "unknown")));
        put(&mut es, "chain", JsonValue::Str(text_or(i.node_info.str_at("chain"), "unknown")));
        put(&mut es, "status", JsonValue::Str(text_or(state_of(&i.api_status), "unknown")));
        put(&mut es, "best_block", JsonValue::Number(JsonNumber::PosInt(best)));
        put(&mut es, "finalized_block", JsonValue::Number(JsonNumber::PosInt(best.saturating_sub(3))));
        put(&mut es, "peers", JsonValue::Number(JsonNumber::PosInt(peers)));
        put(&mut es, "listening", JsonValue::Bool(i.listening));
        let r = object(es);
        assert(r@->Obj_0 =~= Self::spec_json(*i)->Obj_0);
        r
    }

    /// The status in text form.
    pub fn status_text(i: &StatusInputs) -> (r: StatusText)
        ensures
            opt_chars(r.node_id) == i.node_info@.str_at("node_id"@),
            opt_chars(r.role) == i.node_info@.str_at("role"@),
            opt_chars(r.version) == i.node_info@.str_at("version"@),
            opt_chars(r.chain) == i.node_info@.str_at("chain"@),
            r.status@ == or_else(api_state(i.api_status@), "Running"@),
            r.synced == (contains(r.status@, "Synced"@) || contains(r.status@, "Running"@)),
            r.best_block == crate::quantity::quantity_value(i.block_number@),
            r.finalized_block == finalized(r.best_block),
            r.peers == crate::quantity::quantity_value(i.peer_count@),
            opt_chars(r.uptime) == match i.api_status@.u64_at("uptime_secs"@) {
                Some(s) => Some(uptime_text(s)),
                None => i.api_status@.str_at("uptime"@),
            },
    {
        let status = text_or(state_of(&i.api_status), "Running");
        let synced = str_contains(status.as_str(), "Synced") || str_contains(status.as_str(), "Running");
        let best = crate::quantity::parse_hex_u64(i.block_number.as_str());
        let uptime = match i.api_status.u64_at("uptime_secs") {
            Some(s) => Some(uptime_string(s)),
            None => i.api_status.str_at("uptime"),
        };
        StatusText {
            node_id: i.node_info.str_at("node_id"),
            role: i.node_info.str_at("role"),
            version: i.node_info.str_at("version"),
            chain: i.node_info.str_at("chain"),
            status,
            synced,
            best_block: best,
            finalized_block: best.saturating_sub(3),
            peers: crate::quantity::parse_hex_u64(i.peer_count.as_str()),
            uptime,
        }
    }
}

fn state_of(api: &JsonValue) -> (r: Option<String>)
    ensures
        opt_chars(r) == api_state(api@),
{
    match api.get("node_state") {
        Some(JsonValue::Str(s)) => Some(s.clone()),
        Some(_) => None,
        None => api.str_at("status"),
    }
}

/// Hours, minutes and seconds of a duration, as `"{h}h {m}m {s}s"`.
pub fn uptime_string(secs: u64) -> (r: String)
    ensures
        r@ == uptime_text(secs),
        forall|h: nat, m: nat, s: nat|
            h * 3600 + m * 60 + s == secs && m < 60 && s < 60 ==> r@ == #[trigger] uptime_shown(
                h,
                m,
                s,
            ),
{
    proof {
        assert forall|h: nat, m: nat, s: nat|
            h * 3600 + m * 60 + s == secs && m < 60 && s < 60 implies uptime_text(secs)
                == #[trigger] uptime_shown(h, m, s) by {
            lemma_uptime_shows_parts(secs, h, m, s);
        }
    }
    let mut r = String::new();
    push_decimal(&mut r, secs / 3600);
    r.append("h ");
    push_decimal(&mut r, (secs % 3600) / 60);
    r.append("m ");
    push_decimal(&mut r, secs % 60);
    r.append("s");
    assert(r@ =~= uptime_text(secs));
    r
}

/// Stop the running node.
pub struct NodeStopCmd {
    /// RPC endpoint of the node to stop
    pub rpc: String,
    /// Force stop without graceful shutdown
    pub force: bool,
}

impl NodeStopCmd {
    /// The parameters sent to `tenzro_shutdown`.
    pub open spec fn spec_params(&self) -> Json {
        Json::Arr(seq![Json::Obj(seq![("force"@, Json::Bool(self.force))])])
    }

    /// The call that asks the node to shut down.
    pub fn request(&self) -> (r: RpcRequest)
        ensures
            r.method@ == "tenzro_shutdown"@,
            r.params@ == self.spec_params(),
            r.params@ == Json::Arr(seq![Json::Obj(seq![("force"@, Json::Bool(self.force))])]),
            r.params@.param("force"@) == Some(Json::Bool(self.force)),
    {
        proof {
            lemma_stop_params(self);
        }
        let mut es: Vec<(String, JsonValue)> = Vec::new();
        put(&mut es, "force", JsonValue::Bool(self.force));
        let o = object(es);
        assert(o@->Obj_0 =~= self.spec_params()->Arr_0[0]->Obj_0);
        let params = singleton(o);
        assert(params@->Arr_0 =~= self.spec_params()->Arr_0);
        request("tenzro_shutdown", params)
    }

    /// Whether a failed shutdown call means that no node is running: its
    /// message mentions `connection` or `refused`.
    pub fn not_running(message: &str) -> (r: bool)
        ensures
            r == (contains(message@, "connection"@) || contains(message@, "refused"@)),
    {
        str_contains(message, "connection") || str_contains(message, "refused")
    }
}

/// Show connected peer count.
pub struct NodePeersCmd {
    /// RPC endpoint
    pub rpc: String,
}

impl NodePeersCmd {
    /// The call that asks for the peer count.
    pub fn request(&self) -> (r: RpcRequest)
        ensures
            r.method@ == "tenzro_peerCount"@,
            r.params@ == Json::Arr(Seq::empty()),
    {
        no_params("tenzro_peerCount")
    }

    /// The peer count that the node answered.
    pub fn count(answer: &str) -> (r: u64)
        ensures
            r == crate::quantity::quantity_value(answer@),
    {
        crate::quantity::parse_hex_u64(answer)
    }
}

/// Show sync status.
pub struct NodeSyncingCmd {
    /// RPC endpoint
    pub rpc: String,
}

/// What a sync query answered.
#[derive(Debug, Clone, Copy, PartialEq, Eq, Structural)]
pub enum SyncState {
    /// `true`: the node is syncing.
    Syncing,
    /// `false`: the node is fully synced.
    Synced,
    /// Any other answer: its current and highest block, where given.
    Progress { current: Option<u64>, highest: Option<u64> },
}

impl NodeSyncingCmd {
    /// The call that asks for the sync state.
    pub fn request(&self) -> (r: RpcRequest)
        ensures
            r.method@ == "tenzro_syncing"@,
            r.params@ == Json::Arr(Seq::empty()),
    {
        no_params("tenzro_syncing")
    }

    /// The sync state that the node answered.
    pub fn state(result: &JsonValue) -> (r: SyncState)
        ensures
            result@ == Json::Bool(true) ==> r == SyncState::Syncing,
            result@ == Json::Bool(false) ==> r == SyncState::Synced,
            !(result@ is Bool) ==> r == (SyncState::Progress {
                current: result@.u64_at("currentBlock"@),
                highest: result@.u64_at("highestBlock"@),
            }),
    {
        match result {
            JsonValue::Bool(true) => SyncState::Syncing,
            JsonValue::Bool(false) => SyncState::Synced,
            _ => SyncState::Progress {
                current: result.u64_at("currentBlock"),
                highest: result.u64_at("highestBlock"),
            },
        }
    }
}

/// A P2P address `host:port` (neither part holding a colon) becomes the
/// listen address `/ip4/host/tcp/port`.
pub proof fn lemma_listen_addr_host_port(h: Seq<char>, p: Seq<char>)
    requires
        !h.contains(':'),
        !p.contains(':'),
    ensures
        listen_multiaddr(h + ":"@ + p) == "/ip4/"@ + h + "/tcp/"@ + p,
{
    reveal_strlit(":");
    let a = h + ":"@ + p;
    assert forall|k: int| 0 <= k < h.len() implies a[k] != ':' by {
        assert(a[k] == h[k]);
        if a[k] == ':' {
            assert(h.contains(':'));
        }
    }
    assert(a[h.len() as int] == ':');
    lemma_find_char(a, ':', h.len() as int);
    assert(a.take(h.len() as int) =~= h);
    let rest = a.skip(h.len() as int + 1);
    assert(rest =~= p);
    assert forall|k: int| 0 <= k < p.len() implies p[k] != ':' by {
        if p[k] == ':' {
            assert(p.contains(':'));
        }
    }
    lemma_find_char(p, ':', p.len() as int);
    assert(p.take(p.len() as int) =~= p);
}

/// A P2P address without a colon is all host, and the port defaults to 30333.
pub proof fn lemma_listen_addr_default_port(h: Seq<char>)
    requires
        !h.contains(':'),
    ensures
        listen_multiaddr(h) == "/ip4/"@ + h + "/tcp/30333"@,
{
    reveal_strlit("/tcp/");
    reveal_strlit("30333");
    reveal_strlit("/tcp/30333");
    assert forall|k: int| 0 <= k < h.len() implies h[k] != ':' by {
        if h[k] == ':' {
            assert(h.contains(':'));
        }
    }
    lemma_find_char(h, ':', h.len() as int);
    assert(h.take(h.len() as int) =~= h);
    assert("/ip4/"@ + h + "/tcp/"@ + "30333"@ =~= "/ip4/"@ + h + "/tcp/30333"@);
}

/// A stop request asks for a forced shutdown exactly when the command says
/// so: its one parameter holds the command's `force` flag and nothing else.
pub proof fn lemma_stop_params(c: &NodeStopCmd)
    ensures
        c.spec_params().param("force"@) == Some(Json::Bool(c.force)),
        c.spec_params()->Arr_0.len() == 1,
        c.spec_params()->Arr_0[0]->Obj_0.len() == 1,
{
    lemma_lookup_finds(c.spec_params()->Arr_0[0]->Obj_0, 0);
}

/// Each option of the status in JSON form: the node's identity as its info
/// gives it (`unknown` where absent), its state, the best block, the block
/// three behind it, the peer count and whether it listens.
pub open spec fn status_json_members(i: StatusInputs, j: Json) -> bool {
    let best = crate::quantity::quantity_value(i.block_number@);
    &&& j.get("node_id"@) == Some(Json::Str(or_else(i.node_info@.str_at("node_id"@), "unknown"@)))
    &&& j.get("role"@) == Some(Json::Str(or_else(i.node_info@.str_at("role"@), "unknown"@)))
    &&& j.get("version"@) == Some(Json::Str(or_else(i.node_info@.str_at("version"@), "unknown"@)))
    &&& j.get("chain"@) == Some(Json::Str(or_else(i.node_info@.str_at("chain"@), "unknown"@)))
    &&& j.get("status"@) == Some(Json::Str(or_else(api_state(i.api_status@), "unknown"@)))
    &&& j.get("best_block"@) == Some(Json::Number(Num::PosInt(best)))
    &&& j.get("finalized_block"@) == Some(Json::Number(Num::PosInt(finalized(best))))
    &&& j.get("peers"@) == Some(
        Json::Number(Num::PosInt(crate::quantity::quantity_value(i.peer_count@))),
    )
    &&& j.get("listening"@) == Some(Json::Bool(i.listening))
}

/// The status in JSON form holds each fact under its own key.
pub proof fn lemma_status_json_members(i: StatusInputs)
    ensures
        status_json_members(i, NodeStatusCmd::spec_json(i)),
{
    reveal_strlit("node_id");
    reveal_strlit("role");
    reveal_strlit("version");
    reveal_strlit("chain");
    reveal_strlit("status");
    reveal_strlit("best_block");
    reveal_strlit("finalized_block");
    reveal_strlit("peers");
    reveal_strlit("listening");
    let es = NodeStatusCmd::spec_json(i)->Obj_0;
    lemma_lookup_finds(es, 0);
    assert(es[0].0[0] != es[1].0[0]);
    lemma_lookup_finds(es, 1);
    assert(es[0].0[0] != es[2].0[0] && es[1].0[0] != es[2].0[0]);
    lemma_lookup_finds(es, 2);
    assert(es[0].0[0] != es[3].0[0] && es[1].0[0] != es[3].0[0] && es[2].0[0] != es[3].0[0]);
    lemma_lookup_finds(es, 3);
    assert(es[0].0[0] != es[4].0[0] && es[1].0[0] != es[4].0[0] && es[2].0[0] != es[4].0[0]
        && es[3].0[0] != es[4].0[0]);
    lemma_lookup_finds(es, 4);
    assert(es[0].0[0] != es[5].0[0] && es[1].0[0] != es[5].0[0] && es[2].0[0] != es[5].0[0]
        && es[3].0[0] != es[5].0[0] && es[4].0[0] != es[5].0[0]);
    lemma_lookup_finds(es, 5);
    assert(es[0].0[0] != es[6].0[0] && es[1].0[0] != es[6].0[0] && es[2].0[0] != es[6].0[0]
        && es[3].0[0] != es[6].0[0] && es[4].0[0] != es[6].0[0] && es[5].0[0] != es[6].0[0]);
    lemma_lookup_finds(es, 6);
    assert(es[0].0[0] != es[7].0[0] && es[1].0[0] != es[7].0[0] && es[2].0[0] != es[7].0[0]
        && es[3].0[0] != es[7].0[0] && es[4].0[0] != es[7].0[0] && es[5].0[0] != es[7].0[0]
        && es[6].0[0] != es[7].0[0]);
    lemma_lookup_finds(es, 7);
    assert(es[0].0[0] != es[8].0[0] && es[1].0[0] != es[8].0[0] && es[2].0[0] != es[8].0[0]
        && es[3].0[0] != es[8].0[0] && es[4].0[0] != es[8].0[0] && es[5].0[0] != es[8].0[0]
        && es[6].0[0] != es[8].0[0] && es[7].0[0] != es[8].0[0]);
    lemma_lookup_finds(es, 8);
}

/// Each option handed to `tenzro-node` is followed by its value: the role as
/// given, the RPC address, the listen address made from the P2P address, the
/// data directory, and the configuration file exactly when one was given.
pub open spec fn node_args_pass_options(c: NodeStartCmd, a: Seq<Seq<char>>) -> bool {
    &&& a.len() == if c.config is Some { 10int } else { 8int }
    &&& a[0] == "--role"@ && a[1] == c.role@
    &&& a[2] == "--rpc-addr"@ && a[3] == c.rpc_addr@
    &&& a[4] == "--listen-addr"@ && a[5] == listen_multiaddr(c.p2p_addr@)
    &&& a[6] == "--data-dir"@ && a[7] == c.data_dir@
    &&& c.config matches Some(f) ==> a[8] == "--config"@ && a[9] == f@
}

/// The program's arguments pass each option of the command under its own
/// flag.
pub proof fn lemma_node_args_pass_options(c: NodeStartCmd)
    ensures
        node_args_pass_options(c, c.spec_node_args()),
{
}

/// The node's state is read from `node_state` whenever the web API gives that
/// member (and is then its text, or nothing when it is not text), and from
/// `status` only when `node_state` is absent.
pub proof fn lemma_api_state_prefers_node_state(api: Json)
    ensures
        api.get("node_state"@) matches Some(v) ==> api_state(api) == v.as_str(),
        api.get("node_state"@) is None ==> api_state(api) == api.str_at("status"@),
{
}

/// The finalized block is never above the best block and at most three
/// blocks behind it.
pub proof fn lemma_finalized_trails_best(best: u64)
    ensures
        finalized(best) <= best,
        best - finalized(best) <= 3,
        best >= 3 ==> best - finalized(best) == 3,
        best < 3 ==> finalized(best) == 0,
{
}

/// An uptime shown as `h` hours, `m` minutes and `s` seconds.
pub open spec fn uptime_shown(h: nat, m: nat, s: nat) -> Seq<char> {
    decimal(h) + "h "@ + decimal(m) + "m "@ + decimal(s) + "s"@
}

/// An uptime of `h` hours, `m` minutes and `s` seconds (minutes and seconds
/// below 60) is shown with the hours first, then the minutes, then the
/// seconds.
pub proof fn lemma_uptime_shows_parts(secs: u64, h: nat, m: nat, s: nat)
    requires
        h * 3600 + m * 60 + s == secs,
        m < 60,
        s < 60,
    ensures
        uptime_text(secs) == uptime_shown(h, m, s),
{
    let rest: int = (m * 60 + s) as int;
    assert(0 <= rest < 3600) by (nonlinear_arith)
        requires
            rest == m * 60 + s,
            m < 60,
            s < 60,
    ;
    lemma_fundamental_div_mod_converse(secs as int, 3600, h as int, rest);
    lemma_fundamental_div_mod_converse(rest, 60, m as int, s as int);
    assert(secs == (h * 60 + m) * 60 + s) by (nonlinear_arith)
        requires
            secs == h * 3600 + m * 60 + s,
    ;
    lemma_fundamental_div_mod_converse(secs as int, 60, (h * 60 + m) as int, s as int);
}

/// The hours, minutes and seconds shown for an uptime add up to it, with
/// minutes and seconds below 60.
pub proof fn lemma_uptime_parts(secs: u64)
    ensures
        (secs / 3600) * 3600 + ((secs % 3600) / 60) * 60 + secs % 60 == secs,
        (secs % 3600) / 60 < 60,
        secs % 60 < 60,
{
    assert((secs % 3600) / 60 * 60 + secs % 60 == secs % 3600) by (nonlinear_arith);
    assert((secs / 3600) * 3600 + secs % 3600 == secs) by (nonlinear_arith);
    assert((secs % 3600) / 60 < 60) by (nonlinear_arith);
}

} // verus!
