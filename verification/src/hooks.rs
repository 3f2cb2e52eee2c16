//! Delivering lifecycle webhooks: the headers of a delivery (with its
//! HMAC-SHA256 signature when the hook has a secret) and what follows a
//! failed delivery.
use vstd::prelude::*;

use crate::ids::hex_char;
use crate::text::{dec_int, owned, push_i64, push_str};

verus! {

// ---------------------------------------------------------------------------
// Signature
// ---------------------------------------------------------------------------

/// Lower-case hexadecimal of some bytes, two digits per byte.
pub open spec fn hex_of(bytes: Seq<u8>) -> Seq<char>
    decreases bytes.len(),
{
    if bytes.len() == 0 {
        Seq::empty()
    } else {
        hex_of(bytes.drop_last()) + seq![hex_char((bytes.last() / 16) as int), hex_char((bytes.last() % 16) as int)]
    }
}

/// The HMAC-SHA256 authentication code of `message` under `key`.
pub uninterp spec fn hmac_sha256(key: Seq<u8>, message: Seq<u8>) -> Seq<u8>;

/// Computes HMAC-SHA256 with the `hmac` and `sha2` crates:
/// `Hmac::<Sha256>::new_from_slice`, `Mac::update`, then `Mac::finalize`.
/// Keys of any length are accepted (`new_from_slice` of `HmacCore` always
/// returns `Ok`), and the code has the 32 bytes of a SHA-256 output; its
/// value is named `hmac_sha256`, a function of the key and the message.
#[verifier::external_body]
fn hmac_sha256_digest(key: &[u8], message: &[u8]) -> (r: Option<Vec<u8>>)
    ensures
        r is Some,
        r->0@ == hmac_sha256(key@, message@),
        r->0@.len() == 32,
{
    match <hmac::Hmac<sha2::Sha256> as hmac::Mac>::new_from_slice(key) {
        Ok(mut mac) => {
            hmac::Mac::update(&mut mac, message);
            Some(hmac::Mac::finalize(mac).into_bytes().to_vec())
        },
        Err(_) => None,
    }
}

/// Calls `hex::encode`, which writes each byte as two lower-case
/// hexadecimal digits, high nibble first.
#[verifier::external_body]
fn hex_encode(bytes: &[u8]) -> (r: String)
    ensures
        r@ == hex_of(bytes@),
{
    hex::encode(bytes)
}

/// The `X-Qarax-Signature` value of a body signed with a secret.
pub open spec fn signature_text(secret: Seq<char>, body: Seq<char>) -> Seq<char> {
    "sha256="@ + hex_of(hmac_sha256(vstd::utf8::encode_utf8(secret), vstd::utf8::encode_utf8(body)))
}

/// The signature of a delivery: `sha256=` and the hexadecimal HMAC-SHA256
/// of the body under the hook's secret; none without a secret.
pub fn webhook_signature(secret: Option<&str>, body: &str) -> (r: Option<String>)
    ensures
        secret is None ==> r is None,
        secret matches Some(s) ==> (r matches Some(t) && t@ == signature_text(s@, body@)),
{
    match secret {
        Some(s) => match hmac_sha256_digest(s.as_bytes(), body.as_bytes()) {
            Some(code) => {
                let mut t = owned("sha256=");
                let h = hex_encode(code.as_slice());
                push_str(&mut t, h.as_str());
                Some(t)
            },
            None => None,
        },
        None => None,
    }
}

/// The headers of a delivery: JSON content, the event, and the signature
/// when there is one.
pub fn delivery_headers(signature: Option<String>) -> (r: Vec<(String, String)>)
    ensures
        r.len() == if signature is Some {
            3int
        } else {
            2int
        },
        r@[0].0@ == "Content-Type"@ && r@[0].1@ == "application/json"@,
        r@[1].0@ == "X-Qarax-Event"@ && r@[1].1@ == "vm.status_changed"@,
        signature matches Some(s) ==> r@[2].0@ == "X-Qarax-Signature"@ && r@[2].1 == s,
{
    let mut h: Vec<(String, String)> = Vec::new();
    h.push((owned("Content-Type"), owned("application/json")));
    h.push((owned("X-Qarax-Event"), owned("vm.status_changed")));
    match signature {
        Some(s) => {
            h.push((owned("X-Qarax-Signature"), s));
        },
        None => {},
    }
    h
}

// ---------------------------------------------------------------------------
// Failed deliveries
// ---------------------------------------------------------------------------

/// What follows a failed delivery.
#[derive(Debug, PartialEq, Eq, Structural)]
pub enum RetryDecision {
    /// The attempts are used up: the execution fails.
    GiveUp,
    /// Try again after this many seconds.
    RetryAfter(i64),
}

/// Waits between retries: 5 s, 30 s, 2 min, 10 min, then 30 min.
pub open spec fn backoff_secs(i: int) -> i64 {
    if i <= 0 {
        5
    } else if i == 1 {
        30
    } else if i == 2 {
        120
    } else if i == 3 {
        600
    } else {
        1800
    }
}

/// After attempt `attempt_count + 1` failed: give up once that reaches
/// `max_attempts`; else wait by the backoff table for the number of attempts
/// made before this one (the first retry waits 5 s), the last step once
/// past the table.
pub open spec fn retry_decision_of(attempt_count: i32, max_attempts: i32) -> RetryDecision {
    if attempt_count + 1 >= max_attempts {
        RetryDecision::GiveUp
    } else if attempt_count < 0 || attempt_count > 4 {
        RetryDecision::RetryAfter(backoff_secs(4))
    } else {
        RetryDecision::RetryAfter(backoff_secs(attempt_count as int))
    }
}

pub fn after_failed_delivery(attempt_count: i32, max_attempts: i32) -> (r: RetryDecision)
    requires
        attempt_count < i32::MAX,
    ensures
        r == retry_decision_of(attempt_count, max_attempts),
{
    let next = attempt_count + 1;
    if next >= max_attempts {
        return RetryDecision::GiveUp;
    }
    let secs: i64 = if attempt_count == 0 {
        5
    } else if attempt_count == 1 {
        30
    } else if attempt_count == 2 {
        120
    } else if attempt_count == 3 {
        600
    } else {
        1800
    };
    RetryDecision::RetryAfter(secs)
}

/// Waits never shrink from one retry to the next.
pub proof fn lemma_backoff_grows(attempt_count: i32, max_attempts: i32)
    requires
        0 <= attempt_count,
        attempt_count + 2 < max_attempts,
        attempt_count < i32::MAX - 1,
    ensures
        retry_decision_of(attempt_count, max_attempts) matches RetryDecision::RetryAfter(a)
            && retry_decision_of((attempt_count + 1) as i32, max_attempts) matches RetryDecision::RetryAfter(b)
            && a <= b,
{
}

/// The error recorded when the hook answered with a non-success status.
pub fn http_failure_text(status: i32, body: &str) -> (r: String)
    ensures
        r@ == "HTTP "@ + dec_int(status as int) + ": "@ + body@,
{
    let mut m = owned("HTTP ");
    push_i64(&mut m, status as i64);
    push_str(&mut m, ": ");
    push_str(&mut m, body);
    m
}

/// The error recorded when the request could not be made.
pub fn request_failure_text(error: &str) -> (r: String)
    ensures
        r@ == "request error: "@ + error@,
{
    let mut m = owned("request error: ");
    push_str(&mut m, error);
    m
}

/// The error recorded when the execution's hook no longer exists.
pub fn missing_hook_text(error: &str) -> (r: String)
    ensures
        r@ == "hook not found: "@ + error@,
{
    let mut m = owned("hook not found: ");
    push_str(&mut m, error);
    m
}

// ---------------------------------------------------------------------------
// Which hooks fire
// ---------------------------------------------------------------------------

/// What decides whether a lifecycle hook fires.
#[derive(Debug)]
pub struct HookFilter {
    pub scope: crate::model::HookScope,
    pub scope_value: Option<String>,
    /// The statuses it fires on; none means every status.
    pub events: Vec<String>,
    pub active: bool,
}

/// Whether a hook fires when the VM `vm_id` (its id as text), tagged `tags`,
/// enters `new_status`: it must be active; global, or scoped to this VM, or
/// to one of its tags; and list the new status among its events, or list
/// none.
pub open spec fn hook_fires(h: HookFilter, vm_id: Seq<char>, tags: Seq<Seq<char>>, new_status: Seq<char>) -> bool {
    &&& h.active
    &&& match h.scope {
        crate::model::HookScope::Global => true,
        crate::model::HookScope::Vm => h.scope_value matches Some(v) && v@ == vm_id,
        crate::model::HookScope::Tag => h.scope_value matches Some(v) && tags.contains(v@),
    }
    &&& (h.events.len() == 0 || crate::text::views(h.events@).contains(new_status))
}

fn contains_text(v: &Vec<String>, t: &str) -> (r: bool)
    ensures
        r == crate::text::views(v@).contains(t@),
{
    let mut i: usize = 0;
    while i < v.len()
        invariant
            i <= v.len(),
            forall|k: int| 0 <= k < i ==> v@[k]@ != t@,
        decreases v.len() - i,
    {
        if crate::text::str_eq(v[i].as_str(), t) {
            assert(crate::text::views(v@)[i as int] == t@);
            return true;
        }
        i = i + 1;
    }
    proof {
        if crate::text::views(v@).contains(t@) {
            let w = choose|w: int| 0 <= w < crate::text::views(v@).len() && crate::text::views(v@)[w] == t@;
            assert(v@[w]@ == t@);
        }
    }
    false
}

/// Whether a hook's scope covers the VM `vm_id` tagged `tags`.
pub open spec fn in_scope(h: HookFilter, vm_id: Seq<char>, tags: Seq<Seq<char>>) -> bool {
    match h.scope {
        crate::model::HookScope::Global => true,
        crate::model::HookScope::Vm => h.scope_value matches Some(v) && v@ == vm_id,
        crate::model::HookScope::Tag => h.scope_value matches Some(v) && exists|i: int|
            0 <= i < tags.len() && tags[i] == v@,
    }
}

/// An active hook whose scope covers the VM fires for a new status exactly
/// when its event list is empty or names that status at any position; an
/// inactive or out-of-scope hook never fires.
pub proof fn lemma_hook_fires_on_listed_events(
    h: HookFilter,
    vm_id: Seq<char>,
    tags: Seq<Seq<char>>,
    new_status: Seq<char>,
)
    ensures
        hook_fires(h, vm_id, tags, new_status) <==> (h.active && in_scope(h, vm_id, tags) && (h.events.len() == 0
            || exists|i: int| 0 <= i < h.events.len() && (#[trigger] h.events@[i])@ == new_status)),
{
    let ev = crate::text::views(h.events@);
    if exists|i: int| 0 <= i < h.events.len() && (#[trigger] h.events@[i])@ == new_status {
        let i = choose|i: int| 0 <= i < h.events.len() && (#[trigger] h.events@[i])@ == new_status;
        assert(ev[i] == new_status);
    }
    if ev.contains(new_status) {
        let i = choose|i: int| 0 <= i < ev.len() && ev[i] == new_status;
        assert(h.events@[i]@ == new_status);
    }
    if h.scope_value is Some {
        let v = h.scope_value->0;
        if tags.contains(v@) {
            let i = choose|i: int| 0 <= i < tags.len() && tags[i] == v@;
        }
    }
}

/// Decides whether a hook fires for a VM's status change.
pub fn hook_applies(h: &HookFilter, vm_id: &str, tags: &Vec<String>, new_status: &str) -> (r: bool)
    ensures
        r == hook_fires(*h, vm_id@, crate::text::views(tags@), new_status@),
        r <==> (h.active && in_scope(*h, vm_id@, crate::text::views(tags@)) && (h.events.len() == 0 || exists|i: int|
            0 <= i < h.events.len() && (#[trigger] h.events@[i])@ == new_status@)),
{
    proof {
        lemma_hook_fires_on_listed_events(*h, vm_id@, crate::text::views(tags@), new_status@);
    }
    if !h.active {
        return false;
    }
    let scoped = match h.scope {
        crate::model::HookScope::Global => true,
        crate::model::HookScope::Vm => match &h.scope_value {
            Some(v) => crate::text::str_eq(v.as_str(), vm_id),
            None => false,
        },
        crate::model::HookScope::Tag => match &h.scope_value {
            Some(v) => contains_text(tags, v.as_str()),
            None => false,
        },
    };
    scoped && (h.events.len() == 0 || contains_text(&h.events, new_status))
}

} // verus!
