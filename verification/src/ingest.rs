//! Ingesting survey data over HTTP.
//!
//! One `POST /api/data` request carries a survey-run header and its
//! measurement points. The run is persisted first; only when the gateway has
//! assigned it an id is every point of the request bound to that id and
//! handed on. A failed run insert yields the error reply at once, with no
//! point handed to the gateway; a failed point insert yields the error reply
//! without rolling back points already stored. Only a fully successful
//! request counts once — never per point — into the session counter.
use vstd::prelude::*;
use crate::json::collect_string;
use crate::json::dec_int;
use crate::json::push_i64_dec;
use crate::json::push_literal;
use crate::json::push_quoted;
use crate::json::quoted;
use vstd::string::StringExecFns;

verus! {

/// Spec-level image of a `Repo`.
pub ghost struct RepoModel {
    pub id: Option<i32>,
    pub name: Seq<char>,
    pub mn_time: Seq<char>,
    pub len: i32,
    pub mine: Seq<char>,
    pub work: Seq<char>,
    pub factory: Seq<char>,
    pub drilling: Seq<char>,
}

/// A survey-run header: one drilling operation. The numeric id is assigned by
/// the persistence gateway on first insert.
pub struct Repo {
    /// Gateway-assigned identifier.
    pub id: Option<i32>,
    /// Run name.
    pub name: String,
    /// Survey start time.
    pub mn_time: String,
    /// Planned length.
    pub len: i32,
    /// Site identifier.
    pub mine: String,
    /// Working-face identifier.
    pub work: String,
    /// Factory identifier.
    pub factory: String,
    /// Drilling identifier.
    pub drilling: String,
}

impl View for Repo {
    type V = RepoModel;

    open spec fn view(&self) -> RepoModel {
        RepoModel {
            id: self.id,
            name: self.name@,
            mn_time: self.mn_time@,
            len: self.len,
            mine: self.mine@,
            work: self.work@,
            factory: self.factory@,
            drilling: self.drilling@,
        }
    }
}

impl DeepView for Repo {
    type V = RepoModel;

    open spec fn deep_view(&self) -> RepoModel {
        self.view()
    }
}

/// Spec-level image of a `DataList` record.
pub ghost struct DataListModel {
    pub id: Option<i32>,
    pub time: Option<Seq<char>>,
    pub depth: Seq<char>,
    pub pitch: Option<Seq<char>>,
    pub roll: Option<Seq<char>>,
    pub heading: Option<Seq<char>>,
    pub repo_id: Option<i64>,
    pub design_pitch: Option<Seq<char>>,
    pub design_heading: Option<Seq<char>>,
}

/// One survey-point measurement belonging to a run. The measurements ride
/// through as decimal text exactly as they arrived: this module only routes
/// them, and its own logic reads nothing of a point but `repo_id`.
pub struct DataList {
    /// Gateway-assigned identifier.
    pub id: Option<i32>,
    /// Measurement time.
    pub time: Option<String>,
    /// Measured depth.
    pub depth: String,
    /// Pitch angle.
    pub pitch: Option<String>,
    /// Roll angle.
    pub roll: Option<String>,
    /// Heading angle.
    pub heading: Option<String>,
    /// The owning run's gateway-assigned id.
    pub repo_id: Option<i64>,
    /// Planned pitch angle.
    pub design_pitch: Option<String>,
    /// Planned heading angle.
    pub design_heading: Option<String>,
}

impl View for DataList {
    type V = DataListModel;

    open spec fn view(&self) -> DataListModel {
        DataListModel {
            id: self.id,
            time: self.time.deep_view(),
            depth: self.depth@,
            pitch: self.pitch.deep_view(),
            roll: self.roll.deep_view(),
            heading: self.heading.deep_view(),
            repo_id: self.repo_id,
            design_pitch: self.design_pitch.deep_view(),
            design_heading: self.design_heading.deep_view(),
        }
    }
}

impl DeepView for DataList {
    type V = DataListModel;

    open spec fn deep_view(&self) -> DataListModel {
        self.view()
    }
}

/// The envelope of one `POST /api/data` request: the run header, its points,
/// and transport metadata that is echoed but not needed for persistence.
pub struct DrillData {
    /// Sender-side timestamp, milliseconds since the Unix epoch.
    pub timestamp: i64,
    /// Sending device.
    pub device_id: String,
    /// Payload kind tag.
    pub data_type: String,
    /// The survey-run header.
    pub values: Repo,
    /// The measurement points of the run.
    pub data_list: Vec<DataList>,
}

/// Spec-level image of an `IngestReply`.
pub ghost enum IngestOutcome {
    /// HTTP 200 with the assigned run id.
    Accepted { id: i64 },
    /// HTTP 500 with the failure message.
    Failed { message: Seq<char> },
}

/// The reply owed to one ingestion request.
pub enum IngestReply {
    /// The run and all its points are stored.
    Accepted { id: i64 },
    /// The run insert or a point insert failed.
    Failed { message: String },
}

impl View for IngestReply {
    type V = IngestOutcome;

    open spec fn view(&self) -> IngestOutcome {
        match self {
            IngestReply::Accepted { id } => IngestOutcome::Accepted { id: *id },
            IngestReply::Failed { message } => IngestOutcome::Failed { message: message@ },
        }
    }
}

/// The body of the 200 reply carrying the assigned run id.
pub open spec fn success_body(id: int) -> Seq<char> {
    "{\"status\":\"success\",\"message\":\"survey run and points stored\",\"id\":"@ + dec_int(id)
        + "}"@
}

/// The body of a 500 reply carrying a failure message.
pub open spec fn error_body(message: Seq<char>) -> Seq<char> {
    "{\"status\":\"error\",\"message\":"@ + quoted(message) + "}"@
}

/// The reply body owed to one outcome.
pub open spec fn reply_body(o: IngestOutcome) -> Seq<char> {
    match o {
        IngestOutcome::Accepted { id } => success_body(id as int),
        IngestOutcome::Failed { message } => error_body(message),
    }
}

/// The message reported when the gateway refuses the run insert.
pub open spec fn run_failure_message(e: Seq<char>) -> Seq<char> {
    "database write failed: "@ + e
}

/// The message reported when the gateway refuses a point insert.
pub open spec fn points_failure_message(e: Seq<char>) -> Seq<char> {
    "point insert failed: "@ + e
}

impl IngestReply {
    /// The HTTP status code of this reply.
    pub fn http_status(&self) -> (c: u16)
        ensures
            c == if self is Accepted {
                200u16
            } else {
                500u16
            },
    {
        match self {
            IngestReply::Accepted { .. } => 200,
            IngestReply::Failed { .. } => 500,
        }
    }

    /// The JSON body of this reply.
    pub fn body_json(&self) -> (r: String)
        ensures
            r@ == reply_body(self@),
    {
        let mut out: Vec<char> = Vec::new();
        match self {
            IngestReply::Accepted { id } => {
                push_literal(
                    &mut out,
                    "{\"status\":\"success\",\"message\":\"survey run and points stored\",\"id\":",
                );
                push_i64_dec(&mut out, *id);
                push_literal(&mut out, "}");
                proof {
                    assert(out@ =~= reply_body(self@));
                }
            },
            IngestReply::Failed { message } => {
                push_literal(&mut out, "{\"status\":\"error\",\"message\":");
                push_quoted(&mut out, message.as_str());
                push_literal(&mut out, "}");
                proof {
                    assert(out@ =~= reply_body(self@));
                }
            },
        }
        collect_string(&out)
    }
}

/// The point as stored: bound to the run id the gateway assigned in the same
/// request.
pub open spec fn with_run_id(d: DataList, id: i64) -> DataList {
    DataList { repo_id: Some(id), ..d }
}

/// What follows the run insert of one request.
pub enum RunInsertStep {
    /// The gateway assigned `id`: hand exactly these points on, every one
    /// bound to `id`.
    InsertPoints { id: i64, points: Vec<DataList> },
    /// The run insert failed: answer with `reply` and hand no point on.
    Reject { reply: IngestReply },
}

/// Decides what follows the run insert: on success every point of the request
/// is bound to the assigned id and handed on for insertion; on failure the
/// 500 reply is produced at once and no point is handed to the gateway.
pub fn after_run_insert(points: Vec<DataList>, res: Result<i64, String>) -> (r: RunInsertStep)
    ensures
        res matches Ok(id) ==> r matches RunInsertStep::InsertPoints { id: rid, points: ps }
            && rid == id && ps@.len() == points@.len() && (forall|i: int|
            0 <= i < points@.len() ==> ps@[i] == with_run_id(#[trigger] points@[i], id)),
        res matches Err(e) ==> r matches RunInsertStep::Reject { reply } && reply@
            == (IngestOutcome::Failed { message: run_failure_message(e@) }),
{
    match res {
        Ok(id) => {
            let ghost orig: Seq<DataList> = points@;
            let mut rest = points;
            let mut stamped: Vec<DataList> = Vec::new();
            while rest.len() > 0
                invariant
                    stamped@.len() + rest@.len() == orig.len(),
                    rest@ == orig.subrange(stamped@.len() as int, orig.len() as int),
                    forall|i: int|
                        0 <= i < stamped@.len() ==> stamped@[i] == with_run_id(
                            #[trigger] orig[i],
                            id,
                        ),
                decreases rest@.len(),
            {
                let mut item = rest.remove(0);
                proof {
                    assert(item == orig[stamped@.len() as int]);
                }
                item.repo_id = Some(id);
                stamped.push(item);
                proof {
                    assert(rest@ =~= orig.subrange(stamped@.len() as int, orig.len() as int));
                }
            }
            RunInsertStep::InsertPoints { id, points: stamped }
        },
        Err(e) => {
            let mut out: Vec<char> = Vec::new();
            push_literal(&mut out, "database write failed: ");
            push_literal(&mut out, e.as_str());
            let message = collect_string(&out);
            RunInsertStep::Reject { reply: IngestReply::Failed { message } }
        },
    }
}

/// Decides the reply once every point insert of the request has come back:
/// full success is acknowledged with the assigned run id; any failed insert
/// yields the 500 reply naming the failure. Points already stored are not
/// rolled back.
pub fn after_points_insert(id: i64, res: Result<(), String>) -> (r: IngestReply)
    ensures
        res is Ok ==> r@ == (IngestOutcome::Accepted { id }),
        res matches Err(e) ==> r@ == (IngestOutcome::Failed {
            message: points_failure_message(e@),
        }),
{
    match res {
        Ok(()) => IngestReply::Accepted { id },
        Err(e) => {
            let mut out: Vec<char> = Vec::new();
            push_literal(&mut out, "point insert failed: ");
            push_literal(&mut out, e.as_str());
            let message = collect_string(&out);
            IngestReply::Failed { message }
        },
    }
}

/// The counter after one reply: a fully successful request counts once,
/// however many points it carried; a failed one does not count.
pub open spec fn count_step(count: nat, success: bool) -> nat {
    if success {
        count + 1
    } else {
        count
    }
}

/// The counter after a sequence of replies.
pub open spec fn count_after(count: nat, successes: Seq<bool>) -> nat
    decreases successes.len(),
{
    if successes.len() == 0 {
        count
    } else {
        count_step(count_after(count, successes.drop_last()), successes.last())
    }
}

/// Counts one reply into the session counter.
pub fn count_reply(count: usize, reply: &IngestReply) -> (r: usize)
    requires
        reply is Accepted ==> count < usize::MAX,
    ensures
        r as nat == count_step(count as nat, reply is Accepted),
{
    match reply {
        IngestReply::Accepted { .. } => count + 1,
        IngestReply::Failed { .. } => count,
    }
}

/// After `K` fully successful requests the counter reads exactly its previous
/// value plus `K` — whatever each request carried — and never more than one
/// per request in any mix of outcomes.
pub proof fn lemma_received_count_accumulates(count: nat, successes: Seq<bool>)
    ensures
        count_after(count, successes) <= count + successes.len(),
        (forall|i: int| 0 <= i < successes.len() ==> successes[i]) ==> count_after(count, successes)
            == count + successes.len(),
    decreases successes.len(),
{
    if successes.len() > 0 {
        lemma_received_count_accumulates(count, successes.drop_last());
    }
}

/// A nullable id as JSON: `null` or the decimal number.
pub open spec fn nullable_i32(v: Option<i32>) -> Seq<char> {
    match v {
        None => "null"@,
        Some(i) => dec_int(i as int),
    }
}

/// The JSON of one stored run, as `/api/data/status` reports it.
pub open spec fn repo_json(m: RepoModel) -> Seq<char> {
    "{\"id\":"@ + nullable_i32(m.id) + ",\"name\":"@ + quoted(m.name) + ",\"mn_time\":"@ + quoted(
        m.mn_time,
    ) + ",\"len\":"@ + dec_int(m.len as int) + ",\"mine\":"@ + quoted(m.mine) + ",\"work\":"@
        + quoted(m.work) + ",\"factory\":"@ + quoted(m.factory) + ",\"drilling\":"@ + quoted(
        m.drilling,
    ) + "}"@
}

/// The comma-separated items of the JSON array of stored runs.
pub open spec fn repo_array_items(rs: Seq<RepoModel>) -> Seq<char>
    decreases rs.len(),
{
    if rs.len() == 0 {
        Seq::empty()
    } else if rs.len() == 1 {
        repo_json(rs[0])
    } else {
        repo_array_items(rs.drop_last()) + seq![','] + repo_json(rs.last())
    }
}

/// The JSON array of stored runs.
pub open spec fn repo_array(rs: Seq<RepoModel>) -> Seq<char> {
    seq!['['] + repo_array_items(rs) + seq![']']
}

/// The message embedded when the gateway cannot list the stored runs.
pub open spec fn fetch_failure_message(e: Seq<char>) -> Seq<char> {
    "failed to fetch data: "@ + e
}

/// The `/api/data/status` body: the stored runs as the gateway listed them,
/// or — still with HTTP 200 — the gateway's failure embedded in the body.
pub open spec fn data_status_body(res: Result<Seq<RepoModel>, Seq<char>>) -> Seq<char> {
    match res {
        Ok(rs) => "{\"status\":\"running\",\"message\":\"data server is running\",\"data\":"@
            + repo_array(rs) + "}"@,
        Err(e) => error_body(fetch_failure_message(e)),
    }
}

/// Appends the nullable id to `out`.
fn push_nullable_i32(out: &mut Vec<char>, v: Option<i32>)
    ensures
        final(out)@ == old(out)@ + nullable_i32(v),
{
    match v {
        None => push_literal(out, "null"),
        Some(i) => push_i64_dec(out, i as i64),
    }
}

/// Appends the JSON of one stored run to `out`.
fn push_repo_json(out: &mut Vec<char>, r: &Repo)
    ensures
        final(out)@ == old(out)@ + repo_json(r@),
{
    push_literal(out, "{\"id\":");
    push_nullable_i32(out, r.id);
    push_literal(out, ",\"name\":");
    push_quoted(out, r.name.as_str());
    push_literal(out, ",\"mn_time\":");
    push_quoted(out, r.mn_time.as_str());
    push_literal(out, ",\"len\":");
    push_i64_dec(out, r.len as i64);
    push_literal(out, ",\"mine\":");
    push_quoted(out, r.mine.as_str());
    push_literal(out, ",\"work\":");
    push_quoted(out, r.work.as_str());
    push_literal(out, ",\"factory\":");
    push_quoted(out, r.factory.as_str());
    push_literal(out, ",\"drilling\":");
    push_quoted(out, r.drilling.as_str());
    push_literal(out, "}");
    proof {
        assert(out@ =~= old(out)@ + repo_json(r@));
    }
}

proof fn lemma_repo_array_items_step(rs: Seq<RepoModel>, i: int)
    requires
        1 <= i < rs.len(),
    ensures
        repo_array_items(rs.subrange(0, i + 1)) == repo_array_items(rs.subrange(0, i)) + seq![',']
            + repo_json(rs[i]),
{
    let pre = rs.subrange(0, i + 1);
    assert(pre.drop_last() =~= rs.subrange(0, i));
    assert(pre.last() == rs[i]);
}

/// Appends the JSON array of stored runs to `out`.
#[verifier::rlimit(50)]
fn push_repo_array(out: &mut Vec<char>, rs: &Vec<Repo>)
    ensures
        final(out)@ == old(out)@ + repo_array(rs.deep_view()),
{
    let ghost dv: Seq<RepoModel> = rs.deep_view();
    out.push('[');
    let mut i: usize = 0;
    while i < rs.len()
        invariant
            i <= rs.len(),
            dv == rs.deep_view(),
            dv.len() == rs@.len(),
            out@ == old(out)@ + seq!['['] + repo_array_items(dv.subrange(0, i as int)),
        decreases rs.len() - i,
    {
        if i > 0 {
            out.push(',');
        }
        proof {
            assert(dv[i as int] == rs@[i as int]@);
        }
        push_repo_json(out, &rs[i]);
        i = i + 1;
        proof {
            if i == 1 {
                assert(dv.subrange(0, 1).len() == 1);
                assert(dv.subrange(0, 1)[0] == dv[0]);
                assert(out@ =~= old(out)@ + seq!['['] + repo_array_items(dv.subrange(0, 1)));
            } else {
                lemma_repo_array_items_step(dv, i - 1);
                assert(out@ =~= old(out)@ + seq!['['] + repo_array_items(dv.subrange(0, i as int)));
            }
        }
    }
    out.push(']');
    proof {
        assert(dv.subrange(0, dv.len() as int) =~= dv);
        assert(out@ =~= old(out)@ + repo_array(dv));
    }
}

/// The `/api/data/status` reply body for what the gateway returned: the runs
/// it listed, or its failure embedded in a 200 body rather than an HTTP
/// error.
pub fn data_status_reply(res: Result<Vec<Repo>, String>) -> (r: String)
    ensures
        res matches Ok(repos) ==> r@ == data_status_body(Ok(repos.deep_view())),
        res matches Err(e) ==> r@ == data_status_body(Err(e@)),
{
    let mut out: Vec<char> = Vec::new();
    match res {
        Ok(repos) => {
            push_literal(
                &mut out,
                "{\"status\":\"running\",\"message\":\"data server is running\",\"data\":",
            );
            push_repo_array(&mut out, &repos);
            push_literal(&mut out, "}");
            proof {
                assert(out@ =~= data_status_body(Ok(repos.deep_view())));
            }
        },
        Err(e) => {
            let mut msg: Vec<char> = Vec::new();
            push_literal(&mut msg, "failed to fetch data: ");
            push_literal(&mut msg, e.as_str());
            let message = collect_string(&msg);
            push_literal(&mut out, "{\"status\":\"error\",\"message\":");
            push_quoted(&mut out, message.as_str());
            push_literal(&mut out, "}");
            proof {
                assert(out@ =~= data_status_body(Err(e@)));
            }
        },
    }
    collect_string(&out)
}

/// The `/api/status` liveness body, independent of ingestion state.
pub open spec fn status_body() -> Seq<char> {
    "{\"status\":\"running\",\"message\":\"data server is running\"}"@
}

/// The `/api/status` reply: always 200 with the static liveness body.
pub fn status_payload() -> (r: String)
    ensures
        r@ == status_body(),
{
    String::from_str("{\"status\":\"running\",\"message\":\"data server is running\"}")
}

} // verus!
