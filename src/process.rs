use vstd::prelude::*;
use vstd::string::StringExecFns;
use crate::datetime::{chars_of, inferred, infer_datetime, timestamp, Failure};

verus! {

/// What became of one file.
#[derive(Debug, Clone, Copy, PartialEq, Eq, Structural)]
pub enum FileOutcome {
    SkippedAlreadyTagged,
    Written,
    SkippedDryRun,
    Failed(Failure),
}

/// The next thing to do for a file.
pub enum Step {
    /// Read the file's metadata; `timestamp` is what would be written.
    CheckPresence { timestamp: String },
    /// Write `timestamp` into the file's capture-date field.
    Write { timestamp: String },
    /// Nothing more to do; report the outcome.
    Done(FileOutcome),
}

/// A step as the contracts see it.
pub enum StepView {
    CheckPresence(Seq<char>),
    Write(Seq<char>),
    Done(FileOutcome),
}

impl View for Step {
    type V = StepView;

    open spec fn view(&self) -> StepView {
        match self {
            Step::CheckPresence { timestamp } => StepView::CheckPresence(timestamp@),
            Step::Write { timestamp } => StepView::Write(timestamp@),
            Step::Done(o) => StepView::Done(*o),
        }
    }
}

/// First step for a discovered file, from its name (`None`: not valid text).
pub open spec fn discovered_spec(name: Option<Seq<char>>) -> StepView {
    match name {
        None => StepView::Done(FileOutcome::Failed(Failure::InvalidFilenameEncoding)),
        Some(n) => match inferred(n) {
            None => StepView::Done(FileOutcome::Failed(Failure::NoDateFound)),
            Some(d) => StepView::CheckPresence(timestamp(d)),
        },
    }
}

/// Step after the presence check of a file whose date renders as `ts`.
pub open spec fn presence_spec(
    ts: Seq<char>,
    presence: Result<bool, Failure>,
    dry_run: bool,
) -> StepView {
    match presence {
        Err(_) => StepView::Done(FileOutcome::Failed(Failure::UnreadableMetadata)),
        Ok(true) => StepView::Done(FileOutcome::SkippedAlreadyTagged),
        Ok(false) => if dry_run {
            StepView::Done(FileOutcome::SkippedDryRun)
        } else {
            StepView::Write(ts)
        },
    }
}

pub open spec fn written_spec(ok: bool) -> FileOutcome {
    if ok {
        FileOutcome::Written
    } else {
        FileOutcome::Failed(Failure::WriteFailed)
    }
}

/// Whether a file is written, given its name, what the presence check found,
/// and the mode.
pub open spec fn writes(name: Option<Seq<char>>, presence: Result<bool, Failure>, dry_run: bool) -> bool {
    match discovered_spec(name) {
        StepView::CheckPresence(ts) => presence_spec(ts, presence, dry_run) is Write,
        _ => false,
    }
}

/// The outcome of a file, given its name, what the presence check found, the
/// mode, and whether the write succeeded.
pub open spec fn file_outcome(
    name: Option<Seq<char>>,
    presence: Result<bool, Failure>,
    dry_run: bool,
    write_ok: bool,
) -> FileOutcome {
    match discovered_spec(name) {
        StepView::CheckPresence(ts) => match presence_spec(ts, presence, dry_run) {
            StepView::Done(o) => o,
            _ => written_spec(write_ok),
        },
        StepView::Done(o) => o,
        StepView::Write(_) => written_spec(write_ok),
    }
}

/// First step for a file found during traversal.
pub fn on_discovered(name: Option<&str>) -> (r: Step)
    ensures
        r@ == discovered_spec(
            match name {
                Some(n) => Some(n@),
                None => None,
            },
        ),
{
    match name {
        None => Step::Done(FileOutcome::Failed(Failure::InvalidFilenameEncoding)),
        Some(n) => match infer_datetime(n) {
            Ok(d) => Step::CheckPresence { timestamp: d.to_string() },
            Err(e) => Step::Done(FileOutcome::Failed(e)),
        },
    }
}

/// Step after the presence check: skip a tagged file, skip in a dry run,
/// else write.
pub fn on_presence(timestamp: String, presence: Result<bool, Failure>, dry_run: bool) -> (r: Step)
    ensures
        r@ == presence_spec(timestamp@, presence, dry_run),
{
    match presence {
        Err(_) => Step::Done(FileOutcome::Failed(Failure::UnreadableMetadata)),
        Ok(true) => Step::Done(FileOutcome::SkippedAlreadyTagged),
        Ok(false) => if dry_run {
            Step::Done(FileOutcome::SkippedDryRun)
        } else {
            Step::Write { timestamp }
        },
    }
}

/// Outcome after a write that succeeded (`ok`) or failed.
pub fn on_written(ok: bool) -> (r: FileOutcome)
    ensures
        r == written_spec(ok),
{
    if ok {
        FileOutcome::Written
    } else {
        FileOutcome::Failed(Failure::WriteFailed)
    }
}

pub open spec fn junk_name() -> Seq<char> {
    seq!['T', 'h', 'u', 'm', 'b', 's', '.', 'd', 'b']
}

/// A directory entry that traversal leaves out, by its final path segment.
pub open spec fn skipped_name(name: Option<Seq<char>>) -> bool {
    match name {
        None => true,
        Some(n) => (n.len() > 0 && n[0] == '.') || n == junk_name(),
    }
}

/// Whether traversal leaves out the entry named `name` (`None`: not valid
/// text): hidden names and `Thumbs.db`.
pub fn should_skip(name: Option<&str>) -> (r: bool)
    ensures
        r == skipped_name(
            match name {
                Some(n) => Some(n@),
                None => None,
            },
        ),
{
    match name {
        None => true,
        Some(n) => {
            let v = chars_of(n);
            if v.len() > 0 && v[0] == '.' {
                return true;
            }
            let junk = vec!['T', 'h', 'u', 'm', 'b', 's', '.', 'd', 'b'];
            if v.len() != junk.len() {
                assert(v@.len() != junk_name().len());
                return false;
            }
            let mut k: usize = 0;
            while k < v.len()
                invariant
                    name == Some(n),
                    v@ == n@,
                    !(v@.len() > 0 && v@[0] == '.'),
                    v.len() == junk.len(),
                    junk@ == junk_name(),
                    forall|j: int| 0 <= j < k ==> v@[j] == junk@[j],
                decreases v.len() - k,
            {
                if v[k] != junk[k] {
                    assert(v@[k as int] != junk_name()[k as int]);
                    assert(n@ != junk_name());
                    return false;
                }
                k = k + 1;
            }
            assert(v@ =~= junk_name());
            true
        },
    }
}

/// The arguments that make exiftool set the capture date of the file at
/// `path` to `timestamp`, in place.
pub fn exiftool_args(timestamp: &str, path: &str) -> (r: Vec<String>)
    ensures
        r@.len() == 3,
        r@[0]@ == "-overwrite_original"@,
        r@[1]@ == "-datetimeoriginal=\""@ + timestamp@ + "\""@,
        r@[2]@ == path@,
{
    proof {
        reveal_strlit("-overwrite_original");
        reveal_strlit("-datetimeoriginal=\"");
        reveal_strlit("\"");
    }
    let mut tag = String::from_str("-datetimeoriginal=\"");
    tag.append(timestamp);
    tag.append("\"");
    let mut r: Vec<String> = Vec::new();
    r.push(String::from_str("-overwrite_original"));
    r.push(tag);
    r.push(String::from_str(path));
    r
}

} // verus!
