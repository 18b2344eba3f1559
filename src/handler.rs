use vstd::prelude::*;

use crate::ident::{id_text, lemma_id_text_order, IdGenerator};
use crate::metadata::{Metadata, MetadataView};
use crate::report::{
    describes, document_of, location_shape, message_of, opt_entry, opt_view, rfc3339_of,
    toml_text_of, Fault, HostFacts, Report,
};

verus! {

/// Whether the fault handler is installed: only in a release build, and only
/// when verbose backtraces were not asked for.
pub fn should_register(release_build: bool, verbose_backtrace_set: bool) -> (r: bool)
    ensures
        r == (release_build && !verbose_backtrace_set),
{
    release_build && !verbose_backtrace_set
}

/// A path separator.
pub open spec fn is_separator(c: char) -> bool {
    c == '/' || c == '\\'
}

/// `part` placed under `base`: a separator is put between them unless `base`
/// is empty or already ends with one.
pub open spec fn join_path(base: Seq<char>, part: Seq<char>) -> Seq<char> {
    if base.len() == 0 {
        part
    } else if is_separator(base.last()) {
        base + part
    } else {
        base + seq!['/'] + part
    }
}

/// The directory that holds an application's crash reports:
/// `<temp_dir>/<name>/crash`.
pub open spec fn output_dir_of(temp_dir: Seq<char>, name: Seq<char>) -> Seq<char> {
    join_path(join_path(temp_dir, name), "crash"@)
}

/// The file of the report named `id`: `<temp_dir>/<name>/crash/<id>.toml`.
pub open spec fn report_path_of(temp_dir: Seq<char>, name: Seq<char>, id: Seq<char>) -> Seq<char> {
    join_path(output_dir_of(temp_dir, name), id + ".toml"@)
}

/// The notice shown once a report was saved.
pub open spec fn success_text(name: Seq<char>, path: Seq<char>, repository: Seq<char>) -> Seq<char> {
    name + " has crashed!\n\nA crash report has been saved to "@ + path
        + ". To get support for this problem,\nplease raise an issue on GitHub at "@ + repository
        + "/issues and include the crash\nreport to help us better diagnose the problem.\n"@
}

/// The line that frames the failure detail and the report in the fallback output.
pub open spec fn separator_line() -> Seq<char> {
    "--------------------\n"@
}

/// The fallback output when a report could not be saved: the path that
/// failed, the failure detail, a note that the report follows, and the report
/// itself, each block framed by separator lines.
pub open spec fn failure_text(path: Seq<char>, detail: Seq<char>, content: Seq<char>) -> Seq<char> {
    "error: failed to save crash report to "@ + path + "\n"@ + separator_line() + detail + "\n"@
        + separator_line() + "error: writing crash report directly to stderr\n"@
        + separator_line() + content + "\n"@ + separator_line()
}

/// The document of the report that `md`, the time text, the host facts and
/// the fault give.
pub open spec fn report_document(
    md: MetadataView,
    captured_at: Seq<char>,
    host: HostFacts,
    fault: Fault,
) -> Seq<(Seq<char>, Seq<char>)> {
    seq![("captured_at"@, captured_at), ("package_name"@, md.name), ("package_version"@, md.version)]
        + opt_entry("binary_name"@, opt_view(host.binary_name)) + opt_entry(
        "working_dir"@,
        opt_view(host.working_dir),
    ) + seq![("operating_system"@, host.operating_system@)] + opt_entry(
        "panic_message"@,
        message_of(fault.payload),
    ) + seq![
        ("panic_location"@, location_shape(fault.location.file@, fault.location.line, fault.location.column)),
        ("backtrace"@, fault.backtrace@),
    ]
}

proof fn lemma_document_of_described(
    r: Report,
    md: MetadataView,
    captured_at: Seq<char>,
    host: HostFacts,
    fault: Fault,
)
    requires
        describes(r, md, captured_at, host, fault),
    ensures
        document_of(r) == report_document(md, captured_at, host, fault),
{
}

/// Two faults handled one after the other, with ids taken in turn from one
/// generator, have their reports in the same directory under distinct paths.
pub proof fn lemma_sequential_reports_distinct(temp_dir: Seq<char>, name: Seq<char>, a: u128, b: u128)
    requires
        a < b,
    ensures
        report_path_of(temp_dir, name, id_text(a)) != report_path_of(temp_dir, name, id_text(b)),
{
    lemma_id_text_order(a, b);
    let dir = output_dir_of(temp_dir, name);
    let pa = id_text(a) + ".toml"@;
    let pb = id_text(b) + ".toml"@;
    assert(pa.subrange(0, 26) =~= id_text(a));
    assert(pb.subrange(0, 26) =~= id_text(b));
    assert(pa != pb);
    let head: Seq<char> = if dir.len() == 0 {
        seq![]
    } else if is_separator(dir.last()) {
        dir
    } else {
        dir + seq!['/']
    };
    assert(join_path(dir, pa) =~= head + pa);
    assert(join_path(dir, pb) =~= head + pb);
    assert((head + pa).subrange(head.len() as int, (head + pa).len() as int) =~= pa);
    assert((head + pb).subrange(head.len() as int, (head + pb).len() as int) =~= pb);
}

/// Places `part` under `base`.
pub fn join(base: &str, part: &str) -> (r: String)
    ensures
        r@ == join_path(base@, part@),
{
    let n = base.unicode_len();
    if n == 0 {
        String::from_str(part)
    } else {
        let c = base.get_char(n - 1);
        let mut s = String::from_str(base);
        if c != '/' && c != '\\' {
            s.append("/");
            proof {
                reveal_strlit("/");
            }
        }
        s.append(part);
        assert(s@ =~= join_path(base@, part@));
        s
    }
}

/// The directory that holds the crash reports of the application `name`.
pub fn output_dir(temp_dir: &str, name: &str) -> (r: String)
    ensures
        r@ == output_dir_of(temp_dir@, name@),
{
    let app = join(temp_dir, name);
    join(app.as_str(), "crash")
}

/// The file of the report named `id` of the application `name`.
pub fn report_path(temp_dir: &str, name: &str, id: &str) -> (r: String)
    ensures
        r@ == report_path_of(temp_dir@, name@, id@),
{
    let dir = output_dir(temp_dir, name);
    let mut file = String::from_str(id);
    file.append(".toml");
    join(dir.as_str(), file.as_str())
}

/// The notice shown once the report was saved at `path`.
pub fn success_notice(name: &str, path: &str, repository: &str) -> (r: String)
    ensures
        r@ == success_text(name@, path@, repository@),
{
    let mut s = String::from_str(name);
    s.append(" has crashed!\n\nA crash report has been saved to ");
    s.append(path);
    s.append(". To get support for this problem,\nplease raise an issue on GitHub at ");
    s.append(repository);
    s.append("/issues and include the crash\nreport to help us better diagnose the problem.\n");
    s
}

/// The fallback output when the report could not be saved at `path`.
pub fn failure_notice(path: &str, detail: &str, content: &str) -> (r: String)
    ensures
        r@ == failure_text(path@, detail@, content@),
{
    let mut s = String::from_str("error: failed to save crash report to ");
    s.append(path);
    s.append("\n");
    s.append("--------------------\n");
    s.append(detail);
    s.append("\n");
    s.append("--------------------\n");
    s.append("error: writing crash report directly to stderr\n");
    s.append("--------------------\n");
    s.append(content);
    s.append("\n");
    s.append("--------------------\n");
    s
}

/// What handling one fault comes to: where the report goes, what it holds,
/// and the notice shown once it is saved.
pub struct ReportPlan {
    pub output_dir: String,
    pub report_path: String,
    pub content: String,
    pub notice: String,
}

/// Why no report could be prepared.
#[derive(Clone, Copy, PartialEq, Eq, Debug)]
pub enum PrepareError {
    /// The capture time cannot be written in RFC 3339.
    TimeOutOfRange,
    /// No new id could be generated.
    IdExhausted,
}

/// Prepares the report of one fault: builds it, encodes it, names it with a
/// fresh id and works out its path under `temp_dir` and the notice to show.
/// It fails only where the capture time cannot be written or no new id
/// could be drawn.
pub fn prepare_report(
    metadata: &Metadata,
    host: &HostFacts,
    fault: &Fault,
    temp_dir: &str,
    ids: &mut IdGenerator,
) -> (r: Result<ReportPlan, PrepareError>)
    ensures
        match rfc3339_of(host.captured_at.secs, host.captured_at.nanos) {
            None => r == Err::<ReportPlan, PrepareError>(PrepareError::TimeOutOfRange) && final(ids)@
                == old(ids)@,
            Some(t) => match r {
                Err(e) => e == PrepareError::IdExhausted && final(ids)@ == old(ids)@,
                Ok(plan) => {
                    &&& old(ids)@ < final(ids)@
                    &&& plan.content@ == toml_text_of(report_document(metadata@, t, *host, *fault))
                    &&& plan.output_dir@ == output_dir_of(temp_dir@, metadata@.name)
                    &&& plan.report_path@ == report_path_of(
                        temp_dir@,
                        metadata@.name,
                        id_text(final(ids)@),
                    )
                    &&& plan.notice@ == success_text(
                        metadata@.name,
                        plan.report_path@,
                        metadata@.repository,
                    )
                },
            },
        },
{
    let report = match Report::new(metadata, host, fault) {
        Some(rep) => rep,
        None => {
            return Err(PrepareError::TimeOutOfRange);
        },
    };
    proof {
        let t = rfc3339_of(host.captured_at.secs, host.captured_at.nanos)->Some_0;
        lemma_document_of_described(report, metadata@, t, *host, *fault);
    }
    let content = report.to_toml();
    let id = match ids.next_id() {
        Some(i) => i,
        None => {
            return Err(PrepareError::IdExhausted);
        },
    };
    let dir = output_dir(temp_dir, report.package_name.as_str());
    let path = report_path(temp_dir, report.package_name.as_str(), id.as_str());
    let notice = success_notice(metadata.name(), path.as_str(), metadata.repository());
    Ok(ReportPlan { output_dir: dir, report_path: path, content, notice })
}

/// What is shown after the attempt to save a prepared report: the notice when
/// it was saved, otherwise the fallback output with the failure detail.
pub fn outcome_text(plan: &ReportPlan, saved: Result<(), String>) -> (r: String)
    ensures
        match saved {
            Ok(()) => r@ == plan.notice@,
            Err(detail) => r@ == failure_text(plan.report_path@, detail@, plan.content@),
        },
{
    match saved {
        Ok(()) => plan.notice.clone(),
        Err(detail) => failure_notice(plan.report_path.as_str(), detail.as_str(), plan.content.as_str()),
    }
}

} // verus!
