use drilltrack::ingest::{
    after_points_insert, after_run_insert, count_reply, data_status_reply, status_payload,
    DataList, DrillData, IngestReply, Repo, RunInsertStep,
};

fn run(name: &str) -> Repo {
    Repo {
        id: None,
        name: name.to_string(),
        mn_time: "2024-01-01 08:00:00".to_string(),
        len: 120,
        mine: "m1".to_string(),
        work: "w1".to_string(),
        factory: "f1".to_string(),
        drilling: "d1".to_string(),
    }
}

fn point(depth: &str) -> DataList {
    DataList {
        id: None,
        time: Some("2024-01-01 08:05:00".to_string()),
        depth: depth.to_string(),
        pitch: Some("1.5".to_string()),
        roll: None,
        heading: Some("180.0".to_string()),
        repo_id: None,
        design_pitch: None,
        design_heading: None,
    }
}

/// An in-memory stand-in for the persistence gateway.
struct FakeGateway {
    fail_run_insert: bool,
    runs: Vec<Repo>,
    points: Vec<DataList>,
    point_insert_calls: usize,
}

impl FakeGateway {
    fn new() -> FakeGateway {
        FakeGateway { fail_run_insert: false, runs: Vec::new(), points: Vec::new(), point_insert_calls: 0 }
    }

    fn insert_run(&mut self, r: Repo) -> Result<i64, String> {
        if self.fail_run_insert {
            return Err("gateway refused the run".to_string());
        }
        let id = (self.runs.len() + 1) as i64;
        self.runs.push(Repo { id: Some(id as i32), ..r });
        Ok(id)
    }

    fn insert_point(&mut self, p: DataList) -> Result<i64, String> {
        self.point_insert_calls += 1;
        self.points.push(p);
        Ok(self.points.len() as i64)
    }

    fn list_runs(&self) -> Result<Vec<Repo>, String> {
        let mut out = Vec::new();
        for r in &self.runs {
            out.push(Repo {
                id: r.id,
                name: r.name.clone(),
                mn_time: r.mn_time.clone(),
                len: r.len,
                mine: r.mine.clone(),
                work: r.work.clone(),
                factory: r.factory.clone(),
                drilling: r.drilling.clone(),
            });
        }
        Ok(out)
    }
}

#[test]
fn successful_post_stores_run_then_points() {
    let envelope = DrillData {
        timestamp: 1700000000000,
        device_id: "dev-1".to_string(),
        data_type: "survey".to_string(),
        values: run("R1"),
        data_list: vec![point("10.0"), point("20.0")],
    };
    let mut gw = FakeGateway::new();

    // The run insert strictly precedes any point insert.
    let res = gw.insert_run(envelope.values);
    let reply = match after_run_insert(envelope.data_list, res) {
        RunInsertStep::InsertPoints { id, points } => {
            assert!(id >= 1);
            let mut outcome: Result<(), String> = Ok(());
            for p in points {
                assert_eq!(p.repo_id, Some(id));
                if let Err(e) = gw.insert_point(p) {
                    outcome = Err(e);
                    break;
                }
            }
            after_points_insert(id, outcome)
        }
        RunInsertStep::Reject { .. } => panic!("the run insert succeeded"),
    };

    let id = match reply {
        IngestReply::Accepted { id } => id,
        IngestReply::Failed { ref message } => panic!("unexpected failure: {}", message),
    };
    assert!(id >= 1);
    assert_eq!(reply.http_status(), 200);
    assert_eq!(
        reply.body_json(),
        format!("{{\"status\":\"success\",\"message\":\"survey run and points stored\",\"id\":{}}}", id)
    );

    let runs = gw.list_runs().unwrap();
    assert!(runs.iter().any(|r| r.name == "R1"));
    let stored: Vec<&DataList> = gw.points.iter().filter(|p| p.repo_id == Some(id)).collect();
    assert_eq!(stored.len(), 2);
    assert_eq!(stored[0].depth, "10.0");
    assert_eq!(stored[1].depth, "20.0");
}

#[test]
fn failed_run_insert_attempts_no_points() {
    let mut gw = FakeGateway::new();
    gw.fail_run_insert = true;

    let res = gw.insert_run(run("R1"));
    match after_run_insert(vec![point("10.0"), point("20.0")], res) {
        RunInsertStep::InsertPoints { .. } => panic!("a failed run insert must be rejected"),
        RunInsertStep::Reject { reply } => {
            assert_eq!(reply.http_status(), 500);
            assert_eq!(
                reply.body_json(),
                "{\"status\":\"error\",\"message\":\"database write failed: gateway refused the run\"}"
            );
        }
    }
    assert_eq!(gw.point_insert_calls, 0);
    assert!(gw.points.is_empty());
}

#[test]
fn stamping_preserves_points_and_their_order() {
    let points = vec![point("10.0"), point("20.0"), point("30.5")];
    match after_run_insert(points, Ok(7)) {
        RunInsertStep::InsertPoints { id, points } => {
            assert_eq!(id, 7);
            assert_eq!(points.len(), 3);
            assert_eq!(points[0].depth, "10.0");
            assert_eq!(points[1].depth, "20.0");
            assert_eq!(points[2].depth, "30.5");
            for p in &points {
                assert_eq!(p.repo_id, Some(7));
                assert_eq!(p.time, Some("2024-01-01 08:05:00".to_string()));
                assert_eq!(p.pitch, Some("1.5".to_string()));
            }
        }
        RunInsertStep::Reject { .. } => panic!("a successful run insert hands the points on"),
    }
}

#[test]
fn failed_point_insert_names_the_failure() {
    let reply = after_points_insert(3, Err("disk full".to_string()));
    assert_eq!(reply.http_status(), 500);
    assert_eq!(
        reply.body_json(),
        "{\"status\":\"error\",\"message\":\"point insert failed: disk full\"}"
    );
}

#[test]
fn counter_grows_by_one_per_successful_request() {
    let mut count: usize = 0;
    let accepted = IngestReply::Accepted { id: 1 };
    let failed = IngestReply::Failed { message: "x".to_string() };

    // Three successes among failures: the counter counts exactly the
    // successes, once each, however many points the requests carried.
    count = count_reply(count, &accepted);
    count = count_reply(count, &failed);
    count = count_reply(count, &accepted);
    count = count_reply(count, &failed);
    count = count_reply(count, &accepted);
    assert_eq!(count, 3);
}

#[test]
fn status_payload_is_the_static_liveness_body() {
    assert_eq!(
        status_payload(),
        "{\"status\":\"running\",\"message\":\"data server is running\"}"
    );
}

#[test]
fn data_status_reports_the_stored_runs() {
    let mut gw = FakeGateway::new();
    gw.insert_run(run("R1")).unwrap();
    gw.insert_run(run("R2")).unwrap();

    let body = data_status_reply(gw.list_runs());
    let v: serde_json::Value = serde_json::from_str(&body).unwrap();
    assert_eq!(v.get("status").and_then(|s| s.as_str()), Some("running"));
    let data = v.get("data").unwrap().as_array().unwrap();
    assert_eq!(data.len(), 2);
    assert_eq!(data[0].get("name").and_then(|s| s.as_str()), Some("R1"));
    assert_eq!(data[0].get("id").and_then(|s| s.as_i64()), Some(1));
    assert_eq!(data[0].get("len").and_then(|s| s.as_i64()), Some(120));
    assert_eq!(data[1].get("name").and_then(|s| s.as_str()), Some("R2"));
}

#[test]
fn data_status_embeds_a_gateway_failure_in_a_200_body() {
    let body = data_status_reply(Err("no connection".to_string()));
    let v: serde_json::Value = serde_json::from_str(&body).unwrap();
    assert_eq!(v.get("status").and_then(|s| s.as_str()), Some("error"));
    assert_eq!(
        v.get("message").and_then(|s| s.as_str()),
        Some("failed to fetch data: no connection")
    );
    assert!(v.get("data").is_none());
}

#[test]
fn run_with_unassigned_id_serializes_as_null() {
    let body = data_status_reply(Ok(vec![run("R1")]));
    let v: serde_json::Value = serde_json::from_str(&body).unwrap();
    let data = v.get("data").unwrap().as_array().unwrap();
    assert!(data[0].get("id").unwrap().is_null());
    assert_eq!(data[0].get("mn_time").and_then(|s| s.as_str()), Some("2024-01-01 08:00:00"));
    assert_eq!(data[0].get("mine").and_then(|s| s.as_str()), Some("m1"));
    assert_eq!(data[0].get("work").and_then(|s| s.as_str()), Some("w1"));
    assert_eq!(data[0].get("factory").and_then(|s| s.as_str()), Some("f1"));
    assert_eq!(data[0].get("drilling").and_then(|s| s.as_str()), Some("d1"));
}
