//! Identifiers of relocations, traces, logs and snapshots.

use crate::text::{join2, join3};
use vstd::prelude::*;

verus! {

pub open spec fn is_lower_hex(c: char) -> bool {
    (48 <= c as int && c as int <= 57) || (97 <= c as int && c as int <= 102)
}

/// 32 lower-case hexadecimal digits.
pub open spec fn is_hex32(s: Seq<char>) -> bool {
    s.len() == 32 && forall|i: int| 0 <= i < s.len() ==> is_lower_hex(s[i])
}

/// `s` is `prefix` followed by 32 lower-case hexadecimal digits.
pub open spec fn is_prefixed_id(s: Seq<char>, prefix: Seq<char>) -> bool {
    exists|h: Seq<char>| is_hex32(h) && s == prefix + h
}

/// `uuid::Uuid::new_v4` rendered with `Uuid::simple` (random; 32 lower-case
/// hexadecimal digits, no separators).
#[verifier::external_body]
fn random_hex32() -> (r: String)
    ensures
        is_hex32(r@),
{
    uuid::Uuid::new_v4().simple().to_string()
}

fn prefixed(prefix: &str) -> (r: String)
    ensures
        is_prefixed_id(r@, prefix@),
{
    let h = random_hex32();
    let r = join2(prefix, &h);
    assert(r@ == prefix@ + h@);
    r
}

pub fn new_trace_id() -> (r: String)
    ensures
        is_prefixed_id(r@, "tr_"@),
{
    prefixed("tr_")
}

pub fn new_relocation_id() -> (r: String)
    ensures
        is_prefixed_id(r@, "reloc_"@),
{
    prefixed("reloc_")
}

pub fn new_log_id() -> (r: String)
    ensures
        is_prefixed_id(r@, "log_"@),
{
    prefixed("log_")
}

pub fn new_snapshot_id() -> (r: String)
    ensures
        is_prefixed_id(r@, "snap_"@),
{
    prefixed("snap_")
}

/// Trace identifier of a background health cycle started by `trigger`.
pub fn new_monitor_trace_id(trigger: &str) -> (r: String)
    ensures
        is_prefixed_id(r@, "tr_health_"@ + trigger@ + "_"@),
{
    let p = join3("tr_health_", trigger, "_");
    prefixed(&p)
}

/// Trace identifier of a background reconciliation cycle.
pub fn new_reconcile_trace_id() -> (r: String)
    ensures
        is_prefixed_id(r@, "tr_reconcile_auto_"@),
{
    prefixed("tr_reconcile_auto_")
}

} // verus!
