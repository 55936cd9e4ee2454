use vstd::prelude::*;
use crate::json::{nested_str_field, Json};

verus! {

/// The length of `s` without its trailing slashes.
pub open spec fn trimmed_len(s: Seq<char>) -> nat
    decreases s.len(),
{
    if s.len() > 0 && s.last() == '/' {
        trimmed_len(s.drop_last())
    } else {
        s.len()
    }
}

/// `s` without its trailing slashes.
pub fn trim_end_slashes(s: &String) -> (r: String)
    ensures
        r@ == s@.subrange(0, trimmed_len(s@) as int),
{
    let text = s.as_str();
    let mut k: usize = text.unicode_len();
    assert(s@.subrange(0, k as int) =~= s@);
    while k > 0 && text.get_char(k - 1) == '/'
        invariant
            0 <= k <= s@.len(),
            text@ == s@,
            trimmed_len(s@) == trimmed_len(s@.subrange(0, k as int)),
        decreases k,
    {
        assert(s@.subrange(0, k as int).drop_last() =~= s@.subrange(0, k - 1));
        k = k - 1;
    }
    text.substring_char(0, k).to_owned()
}

/// `reply.data.id`, or empty when the reply has none.
pub fn data_id(reply: &Json) -> (r: String)
    ensures
        r@ == match nested_str_field(*reply, "data"@, "id"@) {
            Some(id) => id@,
            None => Seq::empty(),
        },
{
    match reply.get_nested_str(&"data".to_owned(), &"id".to_owned()) {
        Some(id) => id,
        None => String::new(),
    }
}

/// The line shown after a manual upload.
pub fn upload_summary(protocol_id: &String, run_id: &String) -> (r: String)
    ensures
        r@ == "Uploaded. Protocol: "@ + protocol_id@ + " | Run: "@ + run_id@,
{
    let mut r = "Uploaded. Protocol: ".to_owned();
    r.append(protocol_id.as_str());
    r.append(" | Run: ");
    r.append(run_id.as_str());
    r
}

} // verus!
