use robot_bridge::config::{Config, Stored};
use robot_bridge::bridge::Bridge;
use robot_bridge::json::Json;
use robot_bridge::lifecycle::Lifecycle;
use robot_bridge::manual::{data_id, trim_end_slashes, upload_summary};
use robot_bridge::model::{next_job, DonePayload, Job};

fn s(t: &str) -> String {
    t.to_string()
}

fn obj(members: Vec<(&str, Json)>) -> Json {
    Json::Object(members.into_iter().map(|(k, v)| (s(k), v)).collect())
}

fn jobs(items: Vec<Json>) -> Json {
    obj(vec![("jobs", Json::Array(items))])
}

fn member<'a>(v: &'a Json, key: &str) -> &'a Json {
    match v {
        Json::Object(m) => &m.iter().find(|(k, _)| k == key).expect("member").1,
        _ => panic!("expected an object"),
    }
}

#[test]
fn empty_jobs_array_gives_none() {
    assert!(next_job(&jobs(vec![])).is_none());
}

#[test]
fn missing_jobs_gives_none() {
    assert!(next_job(&obj(vec![])).is_none());
    assert!(next_job(&Json::Null).is_none());
    assert!(next_job(&obj(vec![("jobs", Json::Str(s("J1")))])).is_none());
}

#[test]
fn first_job_is_taken() {
    let reply = jobs(vec![
        obj(vec![("id", Json::Str(s("A"))), ("url", Json::Str(s("https://a")))]),
        obj(vec![("id", Json::Str(s("B")))]),
    ]);
    let job = next_job(&reply).expect("a job");
    assert_eq!(job.id, "A");
    assert_eq!(job.url.as_deref(), Some("https://a"));
}

#[test]
fn malformed_first_job_gives_none() {
    let reply = jobs(vec![
        obj(vec![("id", Json::Number(s("3")))]),
        obj(vec![("id", Json::Str(s("B")))]),
    ]);
    assert!(next_job(&reply).is_none());
    assert!(next_job(&jobs(vec![obj(vec![])])).is_none());
    assert!(next_job(&jobs(vec![obj(vec![("id", Json::Str(s("A"))), ("url", Json::Bool(true))])])).is_none());
}

#[test]
fn job_reads_null_url_and_array_form() {
    let j = Job::from_json(&obj(vec![("id", Json::Str(s("A"))), ("url", Json::Null)])).expect("job");
    assert_eq!(j.id, "A");
    assert!(j.url.is_none());
    let j = Job::from_json(&Json::Array(vec![Json::Str(s("C")), Json::Str(s("u"))])).expect("job");
    assert_eq!(j.id, "C");
    assert_eq!(j.url.as_deref(), Some("u"));
    assert!(Job::from_json(&Json::Array(vec![Json::Str(s("C"))])).is_none());
}

#[test]
fn done_payload_success_and_failure() {
    let ok = DonePayload::new(&s("J1"), true, Some(s("ignored")));
    assert_eq!(ok.id, "J1");
    assert!(ok.error.is_none());
    assert!(matches!(member(ok.result.as_ref().expect("result"), "ok"), Json::Bool(true)));
    let failed = DonePayload::new(&s("J1"), false, Some(s("boom")));
    assert!(failed.result.is_none());
    assert_eq!(failed.error.as_deref(), Some("boom"));
}

#[test]
fn done_payload_json_writes_nulls() {
    let v = DonePayload::new(&s("J9"), false, Some(s("boom"))).to_json();
    assert!(matches!(member(&v, "id"), Json::Str(t) if t == "J9"));
    assert!(matches!(member(&v, "result"), Json::Null));
    assert!(matches!(member(&v, "error"), Json::Str(t) if t == "boom"));
}

#[test]
fn config_defaults_and_environment() {
    let d = Config::default();
    assert_eq!(d.robot_id, "robot-1");
    assert_eq!(d.robot_base, "http://192.168.0.57:31950");
    let c = Config::from_env(Some(s("r2")), None);
    assert_eq!(c.robot_id, "r2");
    assert_eq!(c.robot_base, "http://192.168.0.57:31950");
}

#[test]
fn config_load_prefers_environment_over_saved() {
    let saved = Config { robot_id: s("saved"), robot_base: s("http://saved") };
    let (c, save) = Config::load(Some(s("env")), None, Stored::Found(saved));
    assert_eq!(c.robot_id, "env");
    assert_eq!(c.robot_base, "http://saved");
    assert!(!save);
}

#[test]
fn config_load_without_file_saves_defaults() {
    let (c, save) = Config::load(None, None, Stored::Missing);
    assert_eq!(c.robot_id, "robot-1");
    assert!(save);
    let (c, save) = Config::load(None, Some(s("http://b")), Stored::Malformed);
    assert_eq!(c.robot_base, "http://b");
    assert!(!save);
}

#[test]
fn bridge_settings_from_environment() {
    let cfg = Config { robot_id: s("r"), robot_base: s("http://robot") };
    let b = Bridge::new(cfg, None, None, None);
    assert_eq!(b.base, "");
    assert_eq!(b.secret, "");
    assert_eq!(b.poll_ms, 5000);
    assert_eq!(b.robot_base, "http://robot");
    let cfg = Config { robot_id: s("r"), robot_base: s("http://robot") };
    assert_eq!(Bridge::new(cfg, None, None, Some(s("+1500"))).poll_ms, 1500);
    let cfg = Config { robot_id: s("r"), robot_base: s("http://robot") };
    assert_eq!(Bridge::new(cfg, None, None, Some(s("fast"))).poll_ms, 5000);
    let cfg = Config { robot_id: s("r"), robot_base: s("http://robot") };
    assert_eq!(Bridge::new(cfg, None, None, Some(s("18446744073709551616"))).poll_ms, 5000);
}

#[test]
fn start_is_guarded_and_stop_only_lowers_the_flag() {
    let mut l = Lifecycle::new();
    assert!(l.start());
    assert!(!l.start());
    l.stop();
    assert!(!l.running);
    assert!(l.start());
    assert!(l.restart());
    assert!(l.running);
}

#[test]
fn manual_upload_helpers() {
    assert_eq!(trim_end_slashes(&s("http://robot:31950//")), "http://robot:31950");
    assert_eq!(trim_end_slashes(&s("///")), "");
    assert_eq!(trim_end_slashes(&s("a/b")), "a/b");
    assert_eq!(data_id(&obj(vec![("data", obj(vec![("id", Json::Str(s("P9")))]))])), "P9");
    assert_eq!(data_id(&Json::Null), "");
    assert_eq!(upload_summary(&s("P1"), &s("R1")), "Uploaded. Protocol: P1 | Run: R1");
}
