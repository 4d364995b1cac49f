//! Data exchanged with the user interface: requests, results and errors.

use crate::profiles::LocalizedText;
use crate::text::owned;
use vstd::prelude::*;

verus! {

/// A structured detail value attached to errors, logs and issues.
#[derive(Debug)]
pub enum DetailValue {
    Text(String),
    Number(u64),
    Signed(i64),
    Flag(bool),
    Null,
    Texts(Vec<String>),
    Object(Vec<DetailField>),
}

/// One named detail.
#[derive(Debug)]
pub struct DetailField {
    pub key: String,
    pub value: DetailValue,
}

/// A detail record with named fields, in order.
#[derive(Debug)]
pub struct Details {
    pub fields: Vec<DetailField>,
}

impl Details {
    pub fn empty() -> (d: Details)
        ensures
            d.fields@.len() == 0,
    {
        Details { fields: Vec::new() }
    }

    /// Appends a text field.
    pub fn text(self, key: &str, value: &str) -> (d: Details)
        ensures
            d.fields@.len() == self.fields@.len() + 1,
            d.fields@.drop_last() == self.fields@,
            d.fields@.last().key@ == key@,
            d.fields@.last().value matches DetailValue::Text(t) && t@ == value@,
    {
        let mut fields = self.fields;
        fields.push(DetailField { key: owned(key), value: DetailValue::Text(owned(value)) });
        Details { fields }
    }

    /// Appends a field with any value.
    pub fn with(self, key: &str, value: DetailValue) -> (d: Details)
        ensures
            d.fields@.len() == self.fields@.len() + 1,
            d.fields@.drop_last() == self.fields@,
            d.fields@.last().key@ == key@,
            d.fields@.last().value == value,
    {
        let mut fields = self.fields;
        fields.push(DetailField { key: owned(key), value });
        Details { fields }
    }

    /// Appends an optional text field (`Null` when absent).
    pub fn opt_text(self, key: &str, value: &Option<String>) -> (d: Details)
        ensures
            d.fields@.len() == self.fields@.len() + 1,
            d.fields@.drop_last() == self.fields@,
            d.fields@.last().key@ == key@,
            match value {
                Some(v) => d.fields@.last().value matches DetailValue::Text(t) && t@ == v@,
                None => d.fields@.last().value is Null,
            },
    {
        let v = match value {
            Some(s) => DetailValue::Text(s.clone()),
            None => DetailValue::Null,
        };
        let mut fields = self.fields;
        fields.push(DetailField { key: owned(key), value: v });
        Details { fields }
    }

    /// The fields as a nested detail value.
    pub fn into_value(self) -> (v: DetailValue)
        ensures
            v == DetailValue::Object(self.fields),
    {
        DetailValue::Object(self.fields)
    }
}

/// A deep copy of a detail value.
pub fn copy_value(v: &DetailValue) -> (r: DetailValue)
    ensures
        value_view(r) == value_view(*v),
    decreases v,
{
    match v {
        DetailValue::Text(t) => DetailValue::Text(t.clone()),
        DetailValue::Number(n) => DetailValue::Number(*n),
        DetailValue::Signed(n) => DetailValue::Signed(*n),
        DetailValue::Flag(b) => DetailValue::Flag(*b),
        DetailValue::Null => DetailValue::Null,
        DetailValue::Texts(ts) => DetailValue::Texts(crate::profiles::copy_strings(ts)),
        DetailValue::Object(fs) => {
            let r = copy_fields(fs);
            proof {
                let rv = r@.map_values(|f: DetailField| field_view(f));
                let fv = fs@.map_values(|f: DetailField| field_view(f));
                assert(rv.len() == fv.len());
                assert forall|i: int| 0 <= i < r@.len() implies flat_field_view(r@[i]) == flat_field_view(fs@[i]) by {
                    assert(rv[i] == fv[i]);
                }
                assert(r@.map_values(|f: DetailField| flat_field_view(f)) =~= fs@.map_values(
                    |f: DetailField| flat_field_view(f),
                ));
            }
            DetailValue::Object(r)
        },
    }
}

/// A deep copy of detail fields.
pub fn copy_fields(fs: &Vec<DetailField>) -> (r: Vec<DetailField>)
    ensures
        r@.map_values(|f: DetailField| field_view(f)) == fs@.map_values(|f: DetailField| field_view(f)),
    decreases fs,
{
    let mut out: Vec<DetailField> = Vec::new();
    let mut i: usize = 0;
    while i < fs.len()
        invariant
            i <= fs.len(),
            out@.map_values(|f: DetailField| field_view(f)) == fs@.take(i as int).map_values(
                |f: DetailField| field_view(f),
            ),
        decreases fs.len() - i,
    {
        let f = &fs[i];
        assert(decreases_to!(fs => fs@[i as int]));
        let ghost prev = out@;
        out.push(DetailField { key: f.key.clone(), value: copy_value(&f.value) });
        assert(out@.map_values(|f: DetailField| field_view(f)) =~= prev.map_values(|f: DetailField| field_view(f)).push(
            field_view(fs@[i as int]),
        ));
        assert(fs@.take(i + 1).map_values(|f: DetailField| field_view(f)) =~= fs@.take(i as int).map_values(
            |f: DetailField| field_view(f),
        ).push(field_view(fs@[i as int])));
        i = i + 1;
    }
    assert(fs@.take(i as int) =~= fs@);
    out
}

/// A copy of a detail record with the same fields.
pub fn copy_details(d: &Details) -> (r: Details)
    ensures
        details_view(r) == details_view(*d),
{
    Details { fields: copy_fields(&d.fields) }
}

/// The view of a value nested in a detail record: as `Val`, with a nested
/// record shown only as such.
pub enum Leaf {
    Text(Seq<char>),
    Number(u64),
    Signed(i64),
    Flag(bool),
    Null,
    Texts(Seq<Seq<char>>),
    Object,
}

/// The view of a detail value: text, numbers and flags as they are, a list
/// of texts, and a nested record by its fields.
pub enum Val {
    Text(Seq<char>),
    Number(u64),
    Signed(i64),
    Flag(bool),
    Null,
    Texts(Seq<Seq<char>>),
    Object(Seq<(Seq<char>, Leaf)>),
}

pub open spec fn leaf_view(v: DetailValue) -> Leaf {
    match v {
        DetailValue::Text(t) => Leaf::Text(t@),
        DetailValue::Number(n) => Leaf::Number(n),
        DetailValue::Signed(n) => Leaf::Signed(n),
        DetailValue::Flag(b) => Leaf::Flag(b),
        DetailValue::Null => Leaf::Null,
        DetailValue::Texts(ts) => Leaf::Texts(crate::profiles::strings_view(ts@)),
        DetailValue::Object(_) => Leaf::Object,
    }
}

/// The key and value of a nested detail field.
pub open spec fn flat_field_view(f: DetailField) -> (Seq<char>, Leaf) {
    (f.key@, leaf_view(f.value))
}

/// The view of a nested record with these fields.
pub open spec fn object_view(fields: Seq<DetailField>) -> Val {
    Val::Object(fields.map_values(|f: DetailField| flat_field_view(f)))
}

pub open spec fn value_view(v: DetailValue) -> Val {
    match v {
        DetailValue::Text(t) => Val::Text(t@),
        DetailValue::Number(n) => Val::Number(n),
        DetailValue::Signed(n) => Val::Signed(n),
        DetailValue::Flag(b) => Val::Flag(b),
        DetailValue::Null => Val::Null,
        DetailValue::Texts(ts) => Val::Texts(crate::profiles::strings_view(ts@)),
        DetailValue::Object(fs) => object_view(fs@),
    }
}

/// A value as it shows when nested in a record.
pub open spec fn leaf_of(v: Val) -> Leaf {
    match v {
        Val::Text(t) => Leaf::Text(t),
        Val::Number(n) => Leaf::Number(n),
        Val::Signed(n) => Leaf::Signed(n),
        Val::Flag(b) => Leaf::Flag(b),
        Val::Null => Leaf::Null,
        Val::Texts(ts) => Leaf::Texts(ts),
        Val::Object(_) => Leaf::Object,
    }
}

/// The view of a record with the fields `dv`, nested in another.
pub open spec fn nested_view(dv: Seq<(Seq<char>, Val)>) -> Val {
    Val::Object(dv.map_values(|p: (Seq<char>, Val)| (p.0, leaf_of(p.1))))
}

/// A record nested in another shows its fields' keys and values.
pub proof fn lemma_object_view(d: Details)
    ensures
        object_view(d.fields@) == nested_view(details_view(d)),
{
    assert(d.fields@.map_values(|f: DetailField| flat_field_view(f)) =~= details_view(d).map_values(
        |p: (Seq<char>, Val)| (p.0, leaf_of(p.1)),
    ));
}

/// The text of an optional value, or null.
pub open spec fn opt_val(o: Option<String>) -> Val {
    match o {
        Some(s) => Val::Text(s@),
        None => Val::Null,
    }
}

/// Key and value of a detail field.
pub open spec fn field_view(f: DetailField) -> (Seq<char>, Val) {
    (f.key@, value_view(f.value))
}

/// The fields of a detail record as keys and values.
pub open spec fn details_view(d: Details) -> Seq<(Seq<char>, Val)> {
    d.fields@.map_values(|f: DetailField| field_view(f))
}

pub fn text_field(k: &str, v: &str) -> (f: DetailField)
    ensures
        field_view(f) == (k@, Val::Text(v@)),
{
    DetailField { key: owned(k), value: DetailValue::Text(owned(v)) }
}

/// A text field, or a null field when the value is absent.
pub fn opt_text_field(k: &str, v: &Option<String>) -> (f: DetailField)
    ensures
        field_view(f) == (k@, match v {
            Some(t) => Val::Text(t@),
            None => Val::Null,
        }),
{
    match v {
        Some(t) => DetailField { key: owned(k), value: DetailValue::Text(t.clone()) },
        None => DetailField { key: owned(k), value: DetailValue::Null },
    }
}

/// Details with one text field.
pub fn details1(k1: &str, v1: &str) -> (d: Details)
    ensures
        details_view(d) == seq![(k1@, Val::Text(v1@))],
{
    let d = Details { fields: vec![text_field(k1, v1)] };
    assert(details_view(d) =~= seq![(k1@, Val::Text(v1@))]);
    d
}

/// Details with two text fields.
pub fn details2(k1: &str, v1: &str, k2: &str, v2: &str) -> (d: Details)
    ensures
        details_view(d) == seq![(k1@, Val::Text(v1@)), (k2@, Val::Text(v2@))],
{
    let d = Details { fields: vec![text_field(k1, v1), text_field(k2, v2)] };
    assert(details_view(d) =~= seq![(k1@, Val::Text(v1@)), (k2@, Val::Text(v2@))]);
    d
}

/// Details with three text fields.
pub fn details3(k1: &str, v1: &str, k2: &str, v2: &str, k3: &str, v3: &str) -> (d: Details)
    ensures
        details_view(d) == seq![(k1@, Val::Text(v1@)), (k2@, Val::Text(v2@)), (k3@, Val::Text(v3@))],
{
    let d = Details { fields: vec![text_field(k1, v1), text_field(k2, v2), text_field(k3, v3)] };
    assert(details_view(d) =~= seq![(k1@, Val::Text(v1@)), (k2@, Val::Text(v2@)), (k3@, Val::Text(v3@))]);
    d
}

/// Details with four text fields.
pub fn details4(k1: &str, v1: &str, k2: &str, v2: &str, k3: &str, v3: &str, k4: &str, v4: &str) -> (d: Details)
    ensures
        details_view(d) == seq![(k1@, Val::Text(v1@)), (k2@, Val::Text(v2@)), (k3@, Val::Text(v3@)), (k4@, Val::Text(v4@))],
{
    let d = Details { fields: vec![text_field(k1, v1), text_field(k2, v2), text_field(k3, v3), text_field(k4, v4)] };
    assert(details_view(d) =~= seq![(k1@, Val::Text(v1@)), (k2@, Val::Text(v2@)), (k3@, Val::Text(v3@)), (k4@, Val::Text(v4@))]);
    d
}

/// An error returned to the user interface.
#[derive(Debug)]
pub struct CommandError {
    pub code: String,
    pub message: String,
    pub trace_id: String,
    pub retryable: bool,
    pub details: Details,
}

impl CommandError {
    pub fn new(code: &str, message: &str, trace_id: &str, retryable: bool, details: Details) -> (e:
        CommandError)
        ensures
            e.code@ == code@,
            e.message@ == message@,
            e.trace_id@ == trace_id@,
            e.retryable == retryable,
            e.details == details,
    {
        CommandError {
            code: owned(code),
            message: owned(message),
            trace_id: owned(trace_id),
            retryable,
            details,
        }
    }
}

/// A migration request.
#[derive(Debug)]
pub struct MigrateRequest {
    pub app_id: String,
    pub unit_id: Option<String>,
    pub target_root: String,
    pub mode: String,
    pub trace_id: Option<String>,
    pub confirm_high_risk: bool,
    pub cleanup_backup_after_migrate: bool,
}

/// A rollback request.
#[derive(Debug)]
pub struct RollbackRequest {
    pub relocation_id: String,
    pub force: bool,
    pub trace_id: Option<String>,
}

/// A query for operation logs.
#[derive(Debug)]
pub struct OperationLogsRequest {
    pub relocation_id: Option<String>,
    pub trace_id: Option<String>,
    pub limit: Option<u32>,
}

/// A query for health events.
#[derive(Debug)]
pub struct HealthEventsRequest {
    pub limit: Option<u32>,
}

/// A reconciliation request.
#[derive(Debug)]
pub struct ReconcileRequest {
    pub apply_safe_fixes: Option<bool>,
    pub limit: Option<u32>,
}

/// One detected relocation unit of a scanned application.
#[derive(Debug)]
pub struct AppScanPath {
    pub unit_id: Option<String>,
    pub display_name: Option<String>,
    pub default_enabled: Option<bool>,
    pub enabled: Option<bool>,
    pub risk_level: Option<String>,
    pub requires_confirmation: Option<bool>,
    pub blocked_reason: Option<String>,
    pub allow_bootstrap_if_source_missing: Option<bool>,
    pub category: Option<String>,
    pub path: String,
    pub exists: bool,
    pub is_symlink: bool,
    pub size_bytes: u64,
}

/// One scanned application.
#[derive(Debug)]
pub struct AppScanResult {
    pub app_id: String,
    pub display_name: String,
    pub description_i18n: Vec<LocalizedText>,
    pub icon_path: Option<String>,
    pub icon_data_url: Option<String>,
    pub availability: String,
    pub blocked_reason: Option<String>,
    pub detected_paths: Vec<AppScanPath>,
    pub running: bool,
    pub allow_bootstrap_if_source_missing: bool,
    pub last_verified_at: String,
}

/// Status of one disk.
#[derive(Debug)]
pub struct DiskStatus {
    pub mount_point: String,
    pub display_name: String,
    pub is_mounted: bool,
    pub is_writable: bool,
    pub free_bytes: u64,
    pub total_bytes: u64,
}

/// The outcome of a migration or a rollback.
#[derive(Debug)]
pub struct RelocationResult {
    pub relocation_id: String,
    pub app_id: String,
    pub state: String,
    pub health_state: String,
    pub source_path: String,
    pub target_path: String,
    pub backup_path: Option<String>,
    pub trace_id: String,
    pub started_at: String,
    pub updated_at: String,
}

/// One relocation in a listing.
#[derive(Debug)]
pub struct RelocationSummary {
    pub relocation_id: String,
    pub app_id: String,
    pub state: String,
    pub health_state: String,
    pub source_path: String,
    pub target_path: String,
    pub source_size_bytes: i64,
    pub target_size_bytes: i64,
    pub updated_at: String,
}

/// One health check outcome.
#[derive(Debug)]
pub struct HealthCheck {
    pub code: String,
    pub ok: bool,
    pub message: String,
}

/// The health of one relocation.
#[derive(Debug)]
pub struct HealthStatus {
    pub relocation_id: String,
    pub app_id: String,
    pub state: String,
    pub checks: Vec<HealthCheck>,
    pub observed_at: String,
}

/// One recorded health event.
#[derive(Debug)]
pub struct HealthEvent {
    pub snapshot_id: String,
    pub relocation_id: String,
    pub app_id: String,
    pub state: String,
    pub check_code: String,
    pub message: String,
    pub observed_at: String,
}

/// One drift found by reconciliation.
#[derive(Debug)]
pub struct ReconcileIssue {
    pub relocation_id: String,
    pub app_id: String,
    pub code: String,
    pub severity: String,
    pub message: String,
    pub suggestion: String,
    pub safe_fix_action: Option<String>,
    pub safe_fix_applied: bool,
    pub details: Details,
}

/// The outcome of one reconciliation run.
#[derive(Debug)]
pub struct ReconcileResult {
    pub trace_id: String,
    pub observed_at: String,
    pub scanned: usize,
    pub drift_count: usize,
    pub safe_fixable_count: usize,
    pub fixed_count: usize,
    pub issues: Vec<ReconcileIssue>,
}

} // verus!
