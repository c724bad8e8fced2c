use vstd::prelude::*;
use crate::outcome::{TestResult, TestResults, TestStatus};

verus! {

#[verifier::external_type_specification]
#[verifier::external_body]
pub struct ExTomlValue(toml::Value);

#[verifier::external_type_specification]
#[verifier::external_body]
#[verifier::reject_recursive_types(K)]
#[verifier::reject_recursive_types(V)]
pub struct ExTomlMap<K, V>(toml::map::Map<K, V>);

#[verifier::external_type_specification]
#[verifier::external_body]
pub struct ExTomlSerError(toml::ser::Error);

/// A TOML value as plain data: a string, an array, or a table.
pub enum DocValue {
    Text(Seq<char>),
    List(Seq<DocValue>),
    Table(Map<Seq<char>, DocValue>),
}

/// What a TOML value holds.
pub uninterp spec fn value_doc(v: toml::Value) -> DocValue;

/// What a TOML table holds, key by key.
pub uninterp spec fn table_doc(t: toml::map::Map<String, toml::Value>) -> Map<Seq<char>, DocValue>;

/// The text toml writes for a document.
pub uninterp spec fn toml_text_of(d: DocValue) -> Seq<char>;

/// A table whose values are all strings.
pub open spec fn flat_table(m: Map<Seq<char>, DocValue>) -> bool {
    forall|k: Seq<char>| #[trigger] m.contains_key(k) ==> m[k] is Text
}

/// A value that is a string, or an array of tables of strings.
pub open spec fn simple_entry(d: DocValue) -> bool {
    match d {
        DocValue::Text(_) => true,
        DocValue::List(items) => forall|i: int|
            0 <= i < items.len() ==> (#[trigger] items[i] matches DocValue::Table(m) && flat_table(m)),
        DocValue::Table(_) => false,
    }
}

/// A table of strings and arrays of string tables, which toml writes without error.
pub open spec fn writable_doc(d: DocValue) -> bool {
    d matches DocValue::Table(m) && forall|k: Seq<char>| #[trigger] m.contains_key(k) ==> simple_entry(m[k])
}

pub open spec fn empty_doc() -> Map<Seq<char>, DocValue> {
    Map::empty()
}

/// Relies on toml::map::Map::new: the new table is empty.
#[verifier::external_body]
fn new_table() -> (r: toml::map::Map<String, toml::Value>)
    ensures
        table_doc(r) == empty_doc(),
{
    toml::map::Map::new()
}

/// Relies on toml::map::Map::insert: the key maps to the value afterwards, the
/// other entries are kept.
#[verifier::external_body]
fn table_insert(t: &mut toml::map::Map<String, toml::Value>, k: String, v: toml::Value)
    ensures
        table_doc(*final(t)) == table_doc(*old(t)).insert(k@, value_doc(v)),
{
    t.insert(k, v);
}

/// Wraps a string as a TOML value (the `toml::Value::String` variant).
#[verifier::external_body]
fn string_value(s: String) -> (r: toml::Value)
    ensures
        value_doc(r) == DocValue::Text(s@),
{
    toml::Value::String(s)
}

/// Wraps values as a TOML array (the `toml::Value::Array` variant), in order.
#[verifier::external_body]
fn array_value(items: Vec<toml::Value>) -> (r: toml::Value)
    ensures
        value_doc(r) == DocValue::List(items@.map_values(|x: toml::Value| value_doc(x))),
{
    toml::Value::Array(items)
}

/// Wraps a table as a TOML value (the `toml::Value::Table` variant).
#[verifier::external_body]
fn table_value(t: toml::map::Map<String, toml::Value>) -> (r: toml::Value)
    ensures
        value_doc(r) == DocValue::Table(table_doc(t)),
{
    toml::Value::Table(t)
}

/// Relies on toml::to_string: a table is written with its plain values before
/// its arrays of tables, so a table of strings and arrays of string tables is
/// written without error.
#[verifier::external_body]
fn value_text(v: &toml::Value) -> (r: Result<String, toml::ser::Error>)
    requires
        writable_doc(value_doc(*v)),
    ensures
        r is Ok,
        r matches Ok(s) ==> s@ == toml_text_of(value_doc(*v)),
{
    toml::to_string(v)
}

pub open spec fn status_name(s: TestStatus) -> Seq<char> {
    match s {
        TestStatus::Pass => "Pass"@,
        TestStatus::Fail => "Fail"@,
        TestStatus::Ready => "Ready"@,
        TestStatus::Ignore => "Ignore"@,
    }
}

impl TestStatus {
    /// The name a status is written under.
    pub fn name(&self) -> (r: &'static str)
        ensures
            r@ == status_name(*self),
    {
        match self {
            TestStatus::Pass => "Pass",
            TestStatus::Fail => "Fail",
            TestStatus::Ready => "Ready",
            TestStatus::Ignore => "Ignore",
        }
    }
}

/// One test result as a table: its description and its status name.
pub open spec fn result_map(t: TestResult) -> Map<Seq<char>, DocValue> {
    map!["desc"@ => DocValue::Text(t.desc@), "status"@ => DocValue::Text(status_name(t.status))]
}

pub open spec fn result_doc(t: TestResult) -> DocValue {
    DocValue::Table(result_map(t))
}

/// A list of results as an array of tables, in order.
pub open spec fn list_doc(items: Seq<TestResult>) -> DocValue {
    DocValue::List(items.map_values(|t: TestResult| result_doc(t)))
}

/// The document of a test run: `status` always, each list only when it is
/// not empty.
pub open spec fn results_map(r: TestResults) -> Map<Seq<char>, DocValue> {
    let m = empty_doc();
    let m = if r.passed@.len() > 0 { m.insert("passed"@, list_doc(r.passed@)) } else { m };
    let m = if r.failed@.len() > 0 { m.insert("failed"@, list_doc(r.failed@)) } else { m };
    let m = if r.ignored@.len() > 0 { m.insert("ignored"@, list_doc(r.ignored@)) } else { m };
    m.insert("status"@, DocValue::Text(status_name(r.status)))
}

fn key(k: &str) -> (r: String)
    ensures
        r@ == k@,
{
    String::from_str(k)
}

impl TestResult {
    /// This result as a TOML table with the keys `desc` and `status`.
    pub fn to_table(&self) -> (r: toml::map::Map<String, toml::Value>)
        ensures
            table_doc(r) == result_map(*self),
    {
        let mut t = new_table();
        table_insert(&mut t, key("desc"), string_value(String::from_str(self.desc)));
        table_insert(&mut t, key("status"), string_value(String::from_str(self.status.name())));
        proof {
            assert(table_doc(t) =~= result_map(*self));
        }
        t
    }
}

fn list_value(items: &Vec<TestResult>) -> (r: toml::Value)
    ensures
        value_doc(r) == list_doc(items@),
{
    let mut out: Vec<toml::Value> = Vec::new();
    let mut i: usize = 0;
    while i < items.len()
        invariant
            i <= items@.len(),
            out@.map_values(|x: toml::Value| value_doc(x)) == items@.subrange(0, i as int).map_values(
                |t: TestResult| result_doc(t),
            ),
        decreases items@.len() - i,
    {
        let v = table_value(items[i].to_table());
        let ghost before = out@;
        out.push(v);
        proof {
            assert(out@.map_values(|x: toml::Value| value_doc(x)) =~= before.map_values(
                |x: toml::Value| value_doc(x),
            ).push(value_doc(v)));
            assert(items@.subrange(0, i + 1).map_values(|t: TestResult| result_doc(t))
                =~= items@.subrange(0, i as int).map_values(|t: TestResult| result_doc(t)).push(
                result_doc(items@[i as int]),
            ));
        }
        i = i + 1;
    }
    proof {
        assert(items@.subrange(0, items@.len() as int) =~= items@);
    }
    array_value(out)
}

proof fn lemma_results_writable(r: TestResults)
    ensures
        writable_doc(DocValue::Table(results_map(r))),
{
    let m = results_map(r);
    assert forall|k: Seq<char>| #[trigger] m.contains_key(k) implies simple_entry(m[k]) by {
        if m[k] is List {
            let items = m[k]->List_0;
            assert forall|i: int| 0 <= i < items.len() implies (#[trigger] items[i] matches DocValue::Table(
                t,
            ) && flat_table(t)) by {
                let t = items[i]->Table_0;
                assert forall|k2: Seq<char>| #[trigger] t.contains_key(k2) implies t[k2] is Text by {}
            }
        }
    }
}

impl TestResults {
    /// The document persisted for a test run; empty lists are left out.
    pub fn to_table(&self) -> (r: toml::map::Map<String, toml::Value>)
        ensures
            table_doc(r) == results_map(*self),
    {
        let mut t = new_table();
        if self.passed.len() > 0 {
            table_insert(&mut t, key("passed"), list_value(&self.passed));
        }
        if self.failed.len() > 0 {
            table_insert(&mut t, key("failed"), list_value(&self.failed));
        }
        if self.ignored.len() > 0 {
            table_insert(&mut t, key("ignored"), list_value(&self.ignored));
        }
        table_insert(&mut t, key("status"), string_value(String::from_str(self.status.name())));
        proof {
            assert(table_doc(t) =~= results_map(*self));
        }
        t
    }

    /// The TOML text of `to_table`; writing it cannot fail.
    pub fn to_toml(&self) -> (r: Result<String, toml::ser::Error>)
        ensures
            r matches Ok(s) && s@ == toml_text_of(DocValue::Table(results_map(*self))),
    {
        let v = table_value(self.to_table());
        proof {
            lemma_results_writable(*self);
        }
        value_text(&v)
    }
}

} // verus!
