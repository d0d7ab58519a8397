use vstd::prelude::*;
use crate::datetime::{date_at, day_at, first_date_from, inferred, is_digit, DateParts, Failure};
use crate::process::{file_outcome, writes, FileOutcome};

verus! {

proof fn lemma_first_date_from(s: Seq<char>, k: int)
    requires
        0 <= k,
    ensures
        first_date_from(s, k) is None ==> forall|i: int| k <= i ==> !date_at(s, i),
        first_date_from(s, k) matches Some(i) ==> k <= i && date_at(s, i) && forall|j: int|
            k <= j < i ==> !date_at(s, j),
    decreases s.len() - k,
{
    if k + 7 <= s.len() && !date_at(s, k) {
        lemma_first_date_from(s, k + 1);
    }
}

/// The date found is the leftmost one: no date means no position starts one,
/// and a found date starts where no earlier position does.
pub proof fn lemma_leftmost_date(s: Seq<char>)
    ensures
        inferred(s) is None <==> forall|i: int| !date_at(s, i),
        first_date_from(s, 0) matches Some(i) ==> date_at(s, i) && forall|j: int|
            0 <= j < i ==> !date_at(s, j),
{
    lemma_first_date_from(s, 0);
}

/// A name that begins with `YYYY-MM` yields exactly those year and month
/// digits; the day is the two digits after an optional dash, if there are two.
pub proof fn lemma_leading_date(s: Seq<char>)
    requires
        date_at(s, 0),
    ensures
        inferred(s) == Some(
            DateParts { year: s.subrange(0, 4), month: s.subrange(5, 7), day: day_at(s, 0) },
        ),
        s.len() >= 10 && s[7] == '-' && is_digit(s[8]) && is_digit(s[9]) ==> day_at(s, 0)
            == Some(s.subrange(8, 10)),
        s.len() >= 9 && is_digit(s[7]) && is_digit(s[8]) ==> day_at(s, 0) == Some(
            s.subrange(7, 9),
        ),
        s.len() == 7 || (s[7] != '-' && !is_digit(s[7])) ==> day_at(s, 0) is None,
{
}

/// Once a run with writes enabled has written a file or found it tagged, and
/// the write persisted, a later run reports the file as already tagged.
pub proof fn lemma_second_run_skips(
    name: Option<Seq<char>>,
    presence: Result<bool, Failure>,
    write_ok: bool,
    dry_run: bool,
    write_ok_again: bool,
)
    requires
        file_outcome(name, presence, false, write_ok) == FileOutcome::Written || file_outcome(
            name,
            presence,
            false,
            write_ok,
        ) == FileOutcome::SkippedAlreadyTagged,
    ensures
        file_outcome(name, Ok(true), dry_run, write_ok_again) == FileOutcome::SkippedAlreadyTagged,
        !writes(name, Ok(true), dry_run),
{
}

/// A dry run never writes; a file with a date in its name and readable
/// metadata is reported either as already tagged or as skipped for the dry run.
pub proof fn lemma_dry_run(name: Option<Seq<char>>, presence: Result<bool, Failure>, write_ok: bool)
    ensures
        !writes(name, presence, true),
        file_outcome(name, presence, true, write_ok) != FileOutcome::Written,
        file_outcome(name, presence, true, write_ok) != FileOutcome::Failed(Failure::WriteFailed),
        name matches Some(n) && inferred(n) is Some && presence is Ok ==> file_outcome(
            name,
            presence,
            true,
            write_ok,
        ) == FileOutcome::SkippedAlreadyTagged || file_outcome(name, presence, true, write_ok)
            == FileOutcome::SkippedDryRun,
{
}

} // verus!
