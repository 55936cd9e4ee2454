use vstd::prelude::*;
use crate::json::{field, member, Json};

verus! {

/// A unit of work handed out by the backend.
pub struct Job {
    pub id: String,
    pub url: Option<String>,
}

/// What the backend is told when a job ends: exactly one of `result` and
/// `error` is present.
pub struct DonePayload {
    pub id: String,
    pub result: Option<Json>,
    pub error: Option<String>,
}

/// How an optional text field reads: `Some(None)` when absent or null,
/// `Some(Some(s))` for a string, `None` for anything else.
pub open spec fn optional_text(v: Option<Json>) -> Option<Option<String>> {
    match v {
        None => Some(None),
        Some(Json::Null) => Some(None),
        Some(Json::Str(s)) => Some(Some(s)),
        _ => None,
    }
}

/// A job read from JSON: an object with a string `id` and an optional
/// `url`, or the array `[id, url]`.
pub open spec fn job_of(v: Json) -> Option<Job> {
    match v {
        Json::Object(m) => match (member(m@, "id"@), optional_text(member(m@, "url"@))) {
            (Some(Json::Str(id)), Some(url)) => Some(Job { id, url }),
            _ => None,
        },
        Json::Array(a) => if a@.len() == 2 {
            match (a@[0], optional_text(Some(a@[1]))) {
                (Json::Str(id), Some(url)) => Some(Job { id, url }),
                _ => None,
            }
        } else {
            None
        },
        _ => None,
    }
}

/// The job that a `jobs-get` reply offers: the first element of its `jobs`
/// array, when that element reads as a job.
pub open spec fn first_job(reply: Json) -> Option<Job> {
    match field(reply, "jobs"@) {
        Some(Json::Array(a)) => if a@.len() > 0 {
            job_of(a@[0])
        } else {
            None
        },
        _ => None,
    }
}

/// The result reported for a job that went through: `{"ok": true}`.
pub open spec fn is_ok_result(v: Json) -> bool {
    match v {
        Json::Object(m) => m@.len() == 1 && m@[0].0@ == "ok"@ && m@[0].1 == Json::Bool(true),
        _ => false,
    }
}

fn optional_text_of(v: Option<&Json>) -> (r: Option<Option<String>>)
    ensures
        r == optional_text(
            match v {
                Some(x) => Some(*x),
                None => None,
            },
        ),
{
    match v {
        None => Some(None),
        Some(Json::Null) => Some(None),
        Some(Json::Str(s)) => Some(Some(s.clone())),
        _ => None,
    }
}

impl Job {
    /// Reads a job the way the backend's JSON encodes one.
    pub fn from_json(v: &Json) -> (r: Option<Job>)
        ensures
            r == job_of(*v),
    {
        match v {
            Json::Object(_) => {
                let id_key = "id".to_owned();
                let url_key = "url".to_owned();
                let id = v.get(&id_key);
                let url = optional_text_of(v.get(&url_key));
                match (id, url) {
                    (Some(Json::Str(id)), Some(url)) => Some(Job { id: id.clone(), url }),
                    _ => None,
                }
            },
            Json::Array(a) => {
                if a.len() == 2 {
                    let url = optional_text_of(Some(&a[1]));
                    match (&a[0], url) {
                        (Json::Str(id), Some(url)) => Some(Job { id: id.clone(), url }),
                        _ => None,
                    }
                } else {
                    None
                }
            },
            _ => None,
        }
    }
}

/// The job offered by a `jobs-get` reply, if any: the first element of the
/// `jobs` array; none for an empty or missing array, or for a first element
/// that does not read as a job.
pub fn next_job(reply: &Json) -> (r: Option<Job>)
    ensures
        r == first_job(*reply),
{
    let key = "jobs".to_owned();
    match reply.get(&key) {
        Some(Json::Array(a)) => {
            if a.len() > 0 {
                Job::from_json(&a[0])
            } else {
                None
            }
        },
        _ => None,
    }
}

impl DonePayload {
    /// The report for job `id`: `{"ok": true}` as result when `success`,
    /// otherwise no result and `message` as error.
    pub fn new(id: &String, success: bool, message: Option<String>) -> (r: DonePayload)
        ensures
            r.id == *id,
            success ==> r.error is None && r.result is Some && is_ok_result(r.result->0),
            !success ==> r.result is None && r.error == message,
    {
        if success {
            let ok = vec![("ok".to_owned(), Json::Bool(true))];
            DonePayload { id: id.clone(), result: Some(Json::Object(ok)), error: None }
        } else {
            DonePayload { id: id.clone(), result: None, error: message }
        }
    }

    /// The JSON body sent to `jobs-done`; an absent field is written as null.
    pub fn to_json(self) -> (r: Json)
        ensures
            r matches Json::Object(m) && m@.len() == 3
                && m@[0].0@ == "id"@ && m@[0].1 == Json::Str(self.id)
                && m@[1].0@ == "result"@ && m@[1].1 == match self.result {
                    Some(v) => v,
                    None => Json::Null,
                }
                && m@[2].0@ == "error"@ && m@[2].1 == match self.error {
                    Some(e) => Json::Str(e),
                    None => Json::Null,
                },
    {
        let result = match self.result {
            Some(v) => v,
            None => Json::Null,
        };
        let error = match self.error {
            Some(e) => Json::Str(e),
            None => Json::Null,
        };
        Json::Object(
            vec![
                ("id".to_owned(), Json::Str(self.id)),
                ("result".to_owned(), result),
                ("error".to_owned(), error),
            ],
        )
    }
}

} // verus!
