//! The discovery wire messages.
//!
//! Three JSON-over-UDP messages make up the discovery protocol: the periodic
//! `server_announce` broadcast, the peers' `client_discovery` request, and
//! the unicast `server_response` answer. Outgoing text is produced against
//! exact spec-level definitions; incoming datagrams are classified by their
//! JSON `type` field and anything unrecognized is dropped.
use vstd::prelude::*;
use crate::json::collect_string;
use crate::json::dec_digits;
use crate::json::dec_int;
use crate::json::push_i64_dec;
use crate::json::push_literal;
use crate::json::push_quoted;
use crate::json::push_string_array;
use crate::json::lemma_dec_int_injective;
use crate::json::push_u16_dec;
use crate::json::quoted;
use crate::json::string_array;
use crate::registry::ClientRegistry;
use crate::registry::dedup_insert;
use vstd::string::StringExecFns;

verus! {

/// What one discovery session advertises. Captured when the session starts;
/// every outgoing message of the session carries these values, only the
/// timestamp varies from tick to tick.
pub struct AnnounceContext {
    /// The server name peers will display.
    pub name: String,
    /// The HTTP ingestion port, as configured when the session started.
    pub http_port: u16,
    /// The UDP port the discovery listener is bound to.
    pub discovery_port: u16,
    /// The advertised addresses; the first is the primary one.
    pub all_ips: Vec<String>,
}

impl AnnounceContext {
    /// At least one address is advertised.
    pub open spec fn wf(&self) -> bool {
        self.all_ips@.len() >= 1
    }

    /// The primary advertised address.
    pub open spec fn spec_primary_ip(&self) -> Seq<char> {
        self.all_ips.deep_view()[0]
    }

    /// The primary advertised address.
    pub fn primary_ip(&self) -> (r: &String)
        requires
            self.wf(),
        ensures
            r@ == self.spec_primary_ip(),
    {
        &self.all_ips[0]
    }
}

/// The `server_announce` text for context `c` at time `ts`.
pub open spec fn announce_json(c: AnnounceContext, ts: int) -> Seq<char> {
    "{\"type\":\"server_announce\",\"name\":"@ + quoted(c.name@) + ",\"http_port\":"@ + dec_digits(
        c.http_port as nat,
    ) + ",\"discovery_port\":"@ + dec_digits(c.discovery_port as nat) + ",\"ip\":"@ + quoted(
        c.spec_primary_ip(),
    ) + ",\"all_ips\":"@ + string_array(c.all_ips.deep_view()) + ",\"version\":\"1.0\",\"timestamp\":"@
        + dec_int(ts) + "}"@
}

/// The `server_response` text for context `c` at time `ts`.
pub open spec fn response_json(c: AnnounceContext, ts: int) -> Seq<char> {
    "{\"type\":\"server_response\",\"name\":"@ + quoted(c.name@) + ",\"http_port\":"@ + dec_digits(
        c.http_port as nat,
    ) + ",\"ip\":"@ + quoted(c.spec_primary_ip()) + ",\"discovery_port\":"@ + dec_digits(
        c.discovery_port as nat,
    ) + ",\"timestamp\":"@ + dec_int(ts) + "}"@
}

/// Each announcement embeds exactly the clock reading of its own tick, so
/// distinct readings — in particular a strictly increasing clock — give
/// pairwise distinct broadcast messages.
pub proof fn lemma_announce_distinct_timestamps(c: AnnounceContext, t1: int, t2: int)
    requires
        t1 != t2,
    ensures
        announce_json(c, t1) != announce_json(c, t2),
{
    let p = "{\"type\":\"server_announce\",\"name\":"@ + quoted(c.name@) + ",\"http_port\":"@
        + dec_digits(c.http_port as nat) + ",\"discovery_port\":"@ + dec_digits(
        c.discovery_port as nat,
    ) + ",\"ip\":"@ + quoted(c.spec_primary_ip()) + ",\"all_ips\":"@ + string_array(
        c.all_ips.deep_view(),
    ) + ",\"version\":\"1.0\",\"timestamp\":"@;
    let d1 = dec_int(t1);
    let d2 = dec_int(t2);
    reveal_strlit("}");
    assert(announce_json(c, t1) =~= p + d1 + "}"@);
    assert(announce_json(c, t2) =~= p + d2 + "}"@);
    if announce_json(c, t1) == announce_json(c, t2) {
        assert((p + d1 + "}"@).len() == p.len() + d1.len() + 1);
        assert((p + d2 + "}"@).len() == p.len() + d2.len() + 1);
        assert(d1.len() == d2.len());
        assert forall|i: int| 0 <= i < d1.len() implies d1[i] == d2[i] by {
            assert(d1[i] == (p + d1 + "}"@)[p.len() + i]);
            assert(d2[i] == (p + d2 + "}"@)[p.len() + i]);
        }
        assert(d1 =~= d2);
        lemma_dec_int_injective(t1, t2);
        assert(false);
    }
}

/// The `server_announce` message for `c` with timestamp `ts`.
pub fn encode_announcement(c: &AnnounceContext, ts: i64) -> (r: String)
    requires
        c.wf(),
    ensures
        r@ == announce_json(*c, ts as int),
{
    let mut out: Vec<char> = Vec::new();
    push_literal(&mut out, "{\"type\":\"server_announce\",\"name\":");
    push_quoted(&mut out, c.name.as_str());
    push_literal(&mut out, ",\"http_port\":");
    push_u16_dec(&mut out, c.http_port);
    push_literal(&mut out, ",\"discovery_port\":");
    push_u16_dec(&mut out, c.discovery_port);
    push_literal(&mut out, ",\"ip\":");
    push_quoted(&mut out, c.primary_ip().as_str());
    push_literal(&mut out, ",\"all_ips\":");
    push_string_array(&mut out, &c.all_ips);
    push_literal(&mut out, ",\"version\":\"1.0\",\"timestamp\":");
    push_i64_dec(&mut out, ts);
    push_literal(&mut out, "}");
    proof {
        assert(out@ =~= announce_json(*c, ts as int));
    }
    collect_string(&out)
}

/// The `server_response` message for `c` with timestamp `ts`.
pub fn encode_response(c: &AnnounceContext, ts: i64) -> (r: String)
    requires
        c.wf(),
    ensures
        r@ == response_json(*c, ts as int),
{
    let mut out: Vec<char> = Vec::new();
    push_literal(&mut out, "{\"type\":\"server_response\",\"name\":");
    push_quoted(&mut out, c.name.as_str());
    push_literal(&mut out, ",\"http_port\":");
    push_u16_dec(&mut out, c.http_port);
    push_literal(&mut out, ",\"ip\":");
    push_quoted(&mut out, c.primary_ip().as_str());
    push_literal(&mut out, ",\"discovery_port\":");
    push_u16_dec(&mut out, c.discovery_port);
    push_literal(&mut out, ",\"timestamp\":");
    push_i64_dec(&mut out, ts);
    push_literal(&mut out, "}");
    proof {
        assert(out@ =~= response_json(*c, ts as int));
    }
    collect_string(&out)
}

/// The string held by the given field of the JSON document in `b`, when `b`
/// parses as a JSON object and the field holds a string; the JSON grammar
/// fixing it for given bytes is not restated here.
pub uninterp spec fn json_str_field(b: Seq<u8>, key: Seq<char>) -> Option<Seq<char>>;

/// Relies on `serde_json::from_slice`: parses the bytes as a JSON document
/// and hands out the given field's string value when there is one. The result
/// depends on the bytes and the key alone.
#[verifier::external_body]
pub(crate) fn get_json_str_field(buf: &[u8], key: &str) -> (r: Option<String>)
    ensures
        r is Some <==> json_str_field(buf@, key@) is Some,
        r matches Some(s) ==> Some(s@) == json_str_field(buf@, key@),
{
    match serde_json::from_slice::<serde_json::Value>(buf) {
        Ok(v) => match v.get(key) {
            Some(f) => f.as_str().map(|s| s.to_string()),
            None => None,
        },
        Err(_) => None,
    }
}

/// Relies on `chrono::Utc::now`: the current time in milliseconds since the
/// Unix epoch; nothing is promised of the clock.
#[verifier::external_body]
pub(crate) fn now_millis() -> i64 {
    chrono::Utc::now().timestamp_millis()
}

/// The registry after a datagram whose `type` tag is `tag` arrived from
/// `sender`: a `client_discovery` request records the sender, anything else
/// leaves the registry alone.
pub open spec fn registry_after_tag(
    reg: Seq<Seq<char>>,
    tag: Option<Seq<char>>,
    sender: Seq<char>,
) -> Seq<Seq<char>> {
    if tag == Some("client_discovery"@) {
        dedup_insert(reg, sender)
    } else {
        reg
    }
}

/// The reply owed to a datagram whose `type` tag is `tag`: a server response
/// for `client_discovery`, nothing for anything else.
pub open spec fn reply_for_tag(tag: Option<Seq<char>>, c: AnnounceContext, ts: int) -> Option<
    Seq<char>,
> {
    if tag == Some("client_discovery"@) {
        Some(response_json(c, ts))
    } else {
        None
    }
}

/// Applies one already-classified discovery datagram: a `client_discovery`
/// request records the sender in the registry and is answered with a
/// `server_response`; a missing or different tag is silently dropped.
pub fn apply_datagram(
    reg: &mut ClientRegistry,
    c: &AnnounceContext,
    tag: Option<String>,
    sender: &String,
    ts: i64,
) -> (r: Option<String>)
    requires
        c.wf(),
    ensures
        final(reg)@ == registry_after_tag(old(reg)@, tag.deep_view(), sender@),
        r.deep_view() == reply_for_tag(tag.deep_view(), *c, ts as int),
        old(reg).wf() ==> final(reg).wf(),
{
    match tag {
        Some(t) => {
            if t.eq(&String::from_str("client_discovery")) {
                reg.add(sender.clone());
                let resp = encode_response(c, ts);
                Some(resp)
            } else {
                None
            }
        },
        None => None,
    }
}

/// Handles one raw discovery datagram from `sender`: classifies it by its
/// JSON `type` field, then applies it as `apply_datagram` does.
pub fn handle_datagram(
    reg: &mut ClientRegistry,
    c: &AnnounceContext,
    buf: &[u8],
    sender: &String,
    ts: i64,
) -> (r: Option<String>)
    requires
        c.wf(),
    ensures
        final(reg)@ == registry_after_tag(old(reg)@, json_str_field(buf@, "type"@), sender@),
        r.deep_view() == reply_for_tag(json_str_field(buf@, "type"@), *c, ts as int),
        old(reg).wf() ==> final(reg).wf(),
{
    let tag = get_json_str_field(buf, "type");
    proof {
        assert(tag.deep_view() == json_str_field(buf@, "type"@));
    }
    apply_datagram(reg, c, tag, sender, ts)
}

/// Handles one raw discovery datagram, stamping any reply with the clock's
/// current time.
pub fn handle_datagram_now(
    reg: &mut ClientRegistry,
    c: &AnnounceContext,
    buf: &[u8],
    sender: &String,
) -> (r: Option<String>)
    requires
        c.wf(),
    ensures
        final(reg)@ == registry_after_tag(old(reg)@, json_str_field(buf@, "type"@), sender@),
        exists|ts: int| r.deep_view() == #[trigger] reply_for_tag(
            json_str_field(buf@, "type"@),
            *c,
            ts,
        ),
        old(reg).wf() ==> final(reg).wf(),
{
    let ts = now_millis();
    let r = handle_datagram(reg, c, buf, sender, ts);
    proof {
        assert(r.deep_view() == reply_for_tag(json_str_field(buf@, "type"@), *c, ts as int));
    }
    r
}

/// The `server_announce` message for `c`, stamped with the clock's current
/// time; one is broadcast on every tick of the announce loop.
pub fn announcement_now(c: &AnnounceContext) -> (r: String)
    requires
        c.wf(),
    ensures
        exists|ts: int| r@ == #[trigger] announce_json(*c, ts),
{
    let ts = now_millis();
    let r = encode_announcement(c, ts);
    proof {
        assert(r@ == announce_json(*c, ts as int));
    }
    r
}

} // verus!
