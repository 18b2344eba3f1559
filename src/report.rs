use vstd::prelude::*;

use crate::metadata::{Metadata, MetadataView};
use crate::text::{decimal, decimal_text};

verus! {

/// The text held by an optional string, if any.
pub open spec fn opt_view(o: Option<String>) -> Option<Seq<char>> {
    match o {
        Some(s) => Some(s@),
        None => None,
    }
}

/// What a fault carries as its payload: a plain text value, or anything else.
pub enum Payload {
    Text(String),
    Other,
}

/// The source location a fault reports.
pub struct Location {
    pub file: String,
    pub line: u32,
    pub column: u32,
}

/// A point in time: whole seconds since the Unix epoch and the nanoseconds
/// past that second.
#[derive(Clone, Copy)]
pub struct Timestamp {
    pub secs: i64,
    pub nanos: u32,
}

/// What the process knows about its surroundings at the moment of a fault.
/// The lookups that may be unavailable are optional.
pub struct HostFacts {
    pub captured_at: Timestamp,
    pub binary_name: Option<String>,
    pub working_dir: Option<String>,
    pub operating_system: String,
}

/// The fault itself: its payload, its location and the captured backtrace.
pub struct Fault {
    pub payload: Payload,
    pub location: Location,
    pub backtrace: String,
}

/// A crash report.
pub struct Report {
    pub captured_at: String,
    pub package_name: String,
    pub package_version: String,
    pub binary_name: Option<String>,
    pub working_dir: Option<String>,
    pub operating_system: String,
    pub panic_message: Option<String>,
    pub panic_location: String,
    pub backtrace: String,
}

/// The message of a fault: its payload's text when the payload is plain
/// text, and nothing otherwise.
pub open spec fn message_of(p: Payload) -> Option<Seq<char>> {
    match p {
        Payload::Text(s) => Some(s@),
        Payload::Other => None,
    }
}

/// The `file:line:column` text of a location.
pub open spec fn location_shape(file: Seq<char>, line: u32, column: u32) -> Seq<char> {
    file + seq![':'] + decimal(line as nat) + seq![':'] + decimal(column as nat)
}

/// The RFC 3339 text of a UTC time, or nothing where the time is out of the
/// representable range or the nanoseconds are invalid.
pub uninterp spec fn rfc3339_of(secs: i64, nanos: u32) -> Option<Seq<char>>;

/// The pretty TOML text of a table of string values whose entries are given in
/// order.
pub uninterp spec fn toml_text_of(entries: Seq<(Seq<char>, Seq<char>)>) -> Seq<char>;

/// `r` is the report of a fault built from `md`, the time text `captured_at`,
/// the host facts and the fault.
pub open spec fn describes(
    r: Report,
    md: MetadataView,
    captured_at: Seq<char>,
    host: HostFacts,
    fault: Fault,
) -> bool {
    &&& r.captured_at@ == captured_at
    &&& r.package_name@ == md.name
    &&& r.package_version@ == md.version
    &&& opt_view(r.binary_name) == opt_view(host.binary_name)
    &&& opt_view(r.working_dir) == opt_view(host.working_dir)
    &&& r.operating_system@ == host.operating_system@
    &&& opt_view(r.panic_message) == message_of(fault.payload)
    &&& r.panic_location@ == location_shape(fault.location.file@, fault.location.line, fault.location.column)
    &&& r.backtrace@ == fault.backtrace@
}

/// An entry when the value is present, none when it is absent.
pub open spec fn opt_entry(key: Seq<char>, value: Option<Seq<char>>) -> Seq<(Seq<char>, Seq<char>)> {
    match value {
        Some(v) => seq![(key, v)],
        None => seq![],
    }
}

/// The document of a report: each present field under its name, in the
/// order of the report's fields; absent fields are left out.
pub open spec fn document_of(r: Report) -> Seq<(Seq<char>, Seq<char>)> {
    seq![
        ("captured_at"@, r.captured_at@),
        ("package_name"@, r.package_name@),
        ("package_version"@, r.package_version@),
    ] + opt_entry("binary_name"@, opt_view(r.binary_name)) + opt_entry(
        "working_dir"@,
        opt_view(r.working_dir),
    ) + seq![("operating_system"@, r.operating_system@)] + opt_entry(
        "panic_message"@,
        opt_view(r.panic_message),
    ) + seq![("panic_location"@, r.panic_location@), ("backtrace"@, r.backtrace@)]
}

/// `doc` holds `value` under `key`.
pub open spec fn holds_entry(doc: Seq<(Seq<char>, Seq<char>)>, key: Seq<char>, value: Seq<char>) -> bool {
    exists|i: int| 0 <= i < doc.len() && doc[i] == (key, value)
}

/// `doc` holds nothing under `key`.
pub open spec fn lacks_key(doc: Seq<(Seq<char>, Seq<char>)>, key: Seq<char>) -> bool {
    forall|i: int| 0 <= i < doc.len() ==> doc[i].0 != key
}

/// An optional field is in the document with its exact value when present,
/// and not at all when absent.
pub open spec fn keeps_optional(doc: Seq<(Seq<char>, Seq<char>)>, key: Seq<char>, value: Option<Seq<char>>) -> bool {
    match value {
        Some(v) => holds_entry(doc, key, v),
        None => lacks_key(doc, key),
    }
}

proof fn lemma_lacks_key_concat(a: Seq<(Seq<char>, Seq<char>)>, b: Seq<(Seq<char>, Seq<char>)>, key: Seq<char>)
    requires
        lacks_key(a, key),
        lacks_key(b, key),
    ensures
        lacks_key(a + b, key),
{
    assert forall|i: int| 0 <= i < (a + b).len() implies (a + b)[i].0 != key by {
        if i >= a.len() {
            assert((a + b)[i] == b[i - a.len()]);
        }
    }
}

/// The document of a report holds every field that is present, under its
/// name and with its exact value, and nothing for a field that is absent.
pub proof fn lemma_document_keeps_fields(r: Report)
    ensures
        holds_entry(document_of(r), "captured_at"@, r.captured_at@),
        holds_entry(document_of(r), "package_name"@, r.package_name@),
        holds_entry(document_of(r), "package_version"@, r.package_version@),
        keeps_optional(document_of(r), "binary_name"@, opt_view(r.binary_name)),
        keeps_optional(document_of(r), "working_dir"@, opt_view(r.working_dir)),
        holds_entry(document_of(r), "operating_system"@, r.operating_system@),
        keeps_optional(document_of(r), "panic_message"@, opt_view(r.panic_message)),
        holds_entry(document_of(r), "panic_location"@, r.panic_location@),
        holds_entry(document_of(r), "backtrace"@, r.backtrace@),
{
    let doc = document_of(r);
    let b: int = opt_entry("binary_name"@, opt_view(r.binary_name)).len() as int;
    let w: int = opt_entry("working_dir"@, opt_view(r.working_dir)).len() as int;
    let m: int = opt_entry("panic_message"@, opt_view(r.panic_message)).len() as int;
    assert(doc[0] == ("captured_at"@, r.captured_at@));
    assert(doc[1] == ("package_name"@, r.package_name@));
    assert(doc[2] == ("package_version"@, r.package_version@));
    assert(doc[3 + b + w] == ("operating_system"@, r.operating_system@));
    assert(doc[4 + b + w + m] == ("panic_location"@, r.panic_location@));
    assert(doc[5 + b + w + m] == ("backtrace"@, r.backtrace@));
    if b == 1 {
        assert(doc[3] == ("binary_name"@, opt_view(r.binary_name)->Some_0));
    }
    if w == 1 {
        assert(doc[3 + b] == ("working_dir"@, opt_view(r.working_dir)->Some_0));
    }
    if m == 1 {
        assert(doc[4 + b + w] == ("panic_message"@, opt_view(r.panic_message)->Some_0));
    }
    reveal_strlit("captured_at");
    reveal_strlit("package_name");
    reveal_strlit("package_version");
    reveal_strlit("binary_name");
    reveal_strlit("working_dir");
    reveal_strlit("operating_system");
    reveal_strlit("panic_message");
    reveal_strlit("panic_location");
    reveal_strlit("backtrace");
    let s1 = seq![
        ("captured_at"@, r.captured_at@),
        ("package_name"@, r.package_name@),
        ("package_version"@, r.package_version@),
    ];
    let eb = opt_entry("binary_name"@, opt_view(r.binary_name));
    let ew = opt_entry("working_dir"@, opt_view(r.working_dir));
    let s2 = seq![("operating_system"@, r.operating_system@)];
    let em = opt_entry("panic_message"@, opt_view(r.panic_message));
    let s3 = seq![("panic_location"@, r.panic_location@), ("backtrace"@, r.backtrace@)];
    assert(doc == s1 + eb + ew + s2 + em + s3);
    let keys = seq!["binary_name"@, "working_dir"@, "panic_message"@];
    let opts = seq![opt_view(r.binary_name), opt_view(r.working_dir), opt_view(r.panic_message)];
    assert forall|j: int| 0 <= j < 3 && opts[j] is None implies lacks_key(doc, #[trigger] keys[j]) by {
        let key = keys[j];
        assert(s1[0].0[0] != key[0]);
        assert(s1[1].0.len() != key.len());
        assert(s1[2].0.len() != key.len());
        assert(lacks_key(s1, key));
        assert(eb.len() == 0 || eb[0].0[0] != key[0]);
        assert(lacks_key(eb, key));
        assert(ew.len() == 0 || ew[0].0[0] != key[0]);
        assert(lacks_key(ew, key));
        assert(s2[0].0.len() != key.len());
        assert(lacks_key(s2, key));
        assert(em.len() == 0 || em[0].0.len() != key.len() || j == 2);
        assert(lacks_key(em, key));
        assert(s3[0].0.len() != key.len());
        assert(s3[1].0.len() != key.len());
        assert(lacks_key(s3, key));
        lemma_lacks_key_concat(s1, eb, key);
        lemma_lacks_key_concat(s1 + eb, ew, key);
        lemma_lacks_key_concat(s1 + eb + ew, s2, key);
        lemma_lacks_key_concat(s1 + eb + ew + s2, em, key);
        lemma_lacks_key_concat(s1 + eb + ew + s2 + em, s3, key);
    }
    assert(keys[0] == "binary_name"@);
    assert(keys[1] == "working_dir"@);
    assert(keys[2] == "panic_message"@);
}

/// Relies on chrono's `DateTime::<Utc>::from_timestamp` (nothing for an
/// out-of-range time) and `DateTime::to_rfc3339` for the text of a UTC time.
#[verifier::external_body]
fn format_rfc3339(secs: i64, nanos: u32) -> (r: Option<String>)
    ensures
        opt_view(r) == rfc3339_of(secs, nanos),
{
    match chrono::DateTime::<chrono::Utc>::from_timestamp(secs, nanos) {
        Some(t) => Some(t.to_rfc3339()),
        None => None,
    }
}

/// Relies on `toml::to_string_pretty` for the text of a `toml::Table` of
/// string values, which keeps the order of insertion. For such a table its
/// serializer has no error path (string keys, string values, a table at the
/// top), so the error arm only converts and is never taken.
#[verifier::external_body]
fn toml_pretty(entries: &Vec<(String, String)>) -> (r: String)
    ensures
        r@ == toml_text_of(entries.deep_view()),
{
    let mut table = toml::Table::new();
    for (k, v) in entries.iter() {
        table.insert(k.clone(), toml::Value::String(v.clone()));
    }
    match toml::to_string_pretty(&table) {
        Ok(text) => text,
        Err(_) => String::new(),
    }
}

fn clone_opt(o: &Option<String>) -> (r: Option<String>)
    ensures
        opt_view(r) == opt_view(*o),
{
    match o {
        Some(s) => Some(s.clone()),
        None => None,
    }
}

/// The message carried by a fault's payload: present exactly when the payload
/// is plain text, and then that text.
pub fn panic_message(payload: &Payload) -> (r: Option<String>)
    ensures
        opt_view(r) == message_of(*payload),
{
    match payload {
        Payload::Text(s) => Some(s.clone()),
        Payload::Other => None,
    }
}

/// The `file:line:column` text of a location.
pub fn location_text(loc: &Location) -> (r: String)
    ensures
        r@ == location_shape(loc.file@, loc.line, loc.column),
{
    let mut s = loc.file.clone();
    s.append(":");
    let line = decimal_text(loc.line as u64);
    s.append(line.as_str());
    s.append(":");
    let column = decimal_text(loc.column as u64);
    s.append(column.as_str());
    proof {
        reveal_strlit(":");
    }
    assert(s@ =~= location_shape(loc.file@, loc.line, loc.column));
    s
}

fn push_entry(v: &mut Vec<(String, String)>, key: &str, value: &String)
    ensures
        final(v).deep_view() == old(v).deep_view().push((key@, value@)),
{
    v.push((String::from_str(key), value.clone()));
    assert(final(v).deep_view() =~= old(v).deep_view().push((key@, value@)));
}

fn push_opt_entry(v: &mut Vec<(String, String)>, key: &str, value: &Option<String>)
    ensures
        final(v).deep_view() == old(v).deep_view() + opt_entry(key@, opt_view(*value)),
{
    match value {
        Some(s) => {
            push_entry(v, key, s);
            assert(final(v).deep_view() =~= old(v).deep_view() + opt_entry(key@, opt_view(*value)));
        },
        None => {
            assert(final(v).deep_view() =~= old(v).deep_view() + opt_entry(key@, opt_view(*value)));
        },
    }
}

impl Report {
    /// Assembles a report from the host metadata, the formatted capture time,
    /// the host facts and the fault.
    pub fn from_parts(metadata: &Metadata, captured_at: String, host: &HostFacts, fault: &Fault) -> (r: Report)
        ensures
            describes(r, metadata@, captured_at@, *host, *fault),
    {
        Report {
            captured_at,
            package_name: String::from_str(metadata.name()),
            package_version: String::from_str(metadata.version()),
            binary_name: clone_opt(&host.binary_name),
            working_dir: clone_opt(&host.working_dir),
            operating_system: host.operating_system.clone(),
            panic_message: panic_message(&fault.payload),
            panic_location: location_text(&fault.location),
            backtrace: fault.backtrace.clone(),
        }
    }

    /// Creates a new crash report, with the capture time written in RFC 3339.
    /// There is none only where that time cannot be written.
    pub fn new(metadata: &Metadata, host: &HostFacts, fault: &Fault) -> (r: Option<Report>)
        ensures
            match rfc3339_of(host.captured_at.secs, host.captured_at.nanos) {
                Some(t) => r is Some && describes(r->Some_0, metadata@, t, *host, *fault),
                None => r is None,
            },
    {
        match format_rfc3339(host.captured_at.secs, host.captured_at.nanos) {
            Some(t) => Some(Report::from_parts(metadata, t, host, fault)),
            None => None,
        }
    }

    /// The report's fields as named text values, in order, absent ones left out.
    pub fn document(&self) -> (r: Vec<(String, String)>)
        ensures
            r.deep_view() == document_of(*self),
    {
        let mut v: Vec<(String, String)> = Vec::new();
        push_entry(&mut v, "captured_at", &self.captured_at);
        push_entry(&mut v, "package_name", &self.package_name);
        push_entry(&mut v, "package_version", &self.package_version);
        push_opt_entry(&mut v, "binary_name", &self.binary_name);
        push_opt_entry(&mut v, "working_dir", &self.working_dir);
        push_entry(&mut v, "operating_system", &self.operating_system);
        push_opt_entry(&mut v, "panic_message", &self.panic_message);
        push_entry(&mut v, "panic_location", &self.panic_location);
        push_entry(&mut v, "backtrace", &self.backtrace);
        assert(v.deep_view() =~= document_of(*self));
        v
    }

    /// The report encoded as a pretty TOML document.
    pub fn to_toml(&self) -> (r: String)
        ensures
            r@ == toml_text_of(document_of(*self)),
    {
        let doc = self.document();
        toml_pretty(&doc)
    }
}

} // verus!
