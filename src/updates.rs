use std::collections::HashMap;
use vstd::prelude::*;
use crate::messages::{Messages, Severity, same_capture};
use crate::query_count::{decimal, decimal_text};

verus! {

broadcast use vstd::std_specs::hash::group_hash_axioms;

/// Verification of an endpoint that reads rows, changes a field on each and
/// persists the change. `database_verifier` is the backend through which the
/// caller reads counts and snapshots and issues load.
pub struct Updates<D> {
    pub concurrency_levels: Vec<u32>,
    pub database_verifier: D,
}

/// What a finding looks like in a report's view.
pub type Finding = (Severity, Seq<char>, Seq<char>);

/// Distance between two readings of the updated-row count.
pub open spec fn update_delta(before: int, after: int) -> int {
    if after >= before {
        after - before
    } else {
        before - after
    }
}

pub open spec fn too_few_rows_text(updated: nat, expected: nat) -> Seq<char> {
    "Only "@ + decimal(updated) + " executed rows updated in the database out of roughly "@
        + decimal(expected) + " expected."@
}

/// The findings of the updated-row count check: one "Too Few Rows" error
/// when the count grew by less than `expected`, none otherwise.
pub open spec fn rows_count_report(before: int, after: int, expected: int) -> Seq<Finding> {
    let delta = update_delta(before, after);
    if delta < expected {
        seq![
            (
                Severity::Error,
                too_few_rows_text(delta as nat, expected as nat),
                "Too Few Rows"@,
            ),
        ]
    } else {
        seq![]
    }
}

/// Outcome of comparing the number of changed rows against the expectation.
#[derive(Clone, Copy, Debug, PartialEq, Eq, Structural)]
pub enum UpdatesVerdict {
    /// No row changed.
    NoUpdates,
    /// At most 90% of the expected rows changed.
    TooFewUpdates,
    /// More than 90% but at most 95% of the expected rows changed.
    PossiblyTooFewUpdates,
    /// More than 95% of the expected rows changed.
    Enough,
}

/// Error threshold: 90% of `expected`, rounded down.
pub open spec fn error_threshold(expected: int) -> int {
    expected * 9 / 10
}

/// Warning threshold: 95% of `expected`, rounded down.
pub open spec fn warning_threshold(expected: int) -> int {
    expected * 19 / 20
}

pub open spec fn updates_verdict(updates: int, expected: int) -> UpdatesVerdict {
    if updates == 0 {
        UpdatesVerdict::NoUpdates
    } else if updates <= error_threshold(expected) {
        UpdatesVerdict::TooFewUpdates
    } else if updates <= warning_threshold(expected) {
        UpdatesVerdict::PossiblyTooFewUpdates
    } else {
        UpdatesVerdict::Enough
    }
}

/// Verdicts ordered from worst to best.
pub open spec fn verdict_rank(v: UpdatesVerdict) -> int {
    match v {
        UpdatesVerdict::NoUpdates => 0,
        UpdatesVerdict::TooFewUpdates => 1,
        UpdatesVerdict::PossiblyTooFewUpdates => 2,
        UpdatesVerdict::Enough => 3,
    }
}

pub open spec fn too_few_updates_text(updates: nat, expected: nat) -> Seq<char> {
    "Only "@ + decimal(updates) + " items were updated in the database out of roughly "@
        + decimal(expected) + " expected."@
}

pub open spec fn possibly_too_few_updates_text(updates: nat, expected: nat) -> Seq<char> {
    "There may have been an error updating the database. Only "@ + decimal(updates)
        + " items were updated in the database out of the roughly "@ + decimal(expected)
        + " expected."@
}

/// The findings of the row-content check for `updates` changed rows.
pub open spec fn updates_report(updates: nat, expected: nat) -> Seq<Finding> {
    match updates_verdict(updates as int, expected as int) {
        UpdatesVerdict::NoUpdates => seq![
            (Severity::Error, "No items were updated in the database."@, "No Updates"@),
        ],
        UpdatesVerdict::TooFewUpdates => seq![
            (Severity::Error, too_few_updates_text(updates, expected), "Too Few Updates"@),
        ],
        UpdatesVerdict::PossiblyTooFewUpdates => seq![
            (
                Severity::Warning,
                possibly_too_few_updates_text(updates, expected),
                "Too Few Updates"@,
            ),
        ],
        UpdatesVerdict::Enough => seq![],
    }
}

/// Row `id` is in both snapshots and its content differs between them.
pub open spec fn row_changed(before: Map<i32, Vec<u8>>, after: Map<i32, Vec<u8>>, id: int) -> bool {
    &&& before.contains_key(id as i32)
    &&& after.contains_key(id as i32)
    &&& before[id as i32]@ != after[id as i32]@
}

/// Number of changed rows among the identifiers `0 .. n`.
pub open spec fn changed_rows_below(
    before: Map<i32, Vec<u8>>,
    after: Map<i32, Vec<u8>>,
    n: int,
) -> nat
    decreases n,
{
    if n <= 0 {
        0
    } else {
        changed_rows_below(before, after, n - 1) + if row_changed(before, after, n - 1) {
            1nat
        } else {
            0nat
        }
    }
}

/// Largest row identifier plus one.
pub open spec fn id_limit() -> int {
    0x8000_0000
}

/// Number of changed rows among the identifiers from 0 up to, not
/// including, the number of rows in `before`.
pub open spec fn updated_rows(before: Map<i32, Vec<u8>>, after: Map<i32, Vec<u8>>) -> nat {
    let n = before.len() as int;
    changed_rows_below(before, after, if n < id_limit() { n } else { id_limit() })
}

/// The tier that `updates` changed rows fall in, out of `expected_updates`.
pub fn classify_updates(updates: u64, expected_updates: u64) -> (r: UpdatesVerdict)
    ensures
        r == updates_verdict(updates as int, expected_updates as int),
{
    let e = expected_updates as u128;
    let u = updates as u128;
    if updates == 0 {
        UpdatesVerdict::NoUpdates
    } else if u <= e * 9 / 10 {
        UpdatesVerdict::TooFewUpdates
    } else if u <= e * 19 / 20 {
        UpdatesVerdict::PossiblyTooFewUpdates
    } else {
        UpdatesVerdict::Enough
    }
}

/// Counts the rows, among the identifiers from 0 up to the number of rows in
/// `worlds_before`, that are in both snapshots with different content.
pub fn count_updated_rows(
    worlds_before: &HashMap<i32, Vec<u8>>,
    worlds_after: &HashMap<i32, Vec<u8>>,
) -> (r: u64)
    ensures
        r == updated_rows(worlds_before@, worlds_after@),
{
    let len = worlds_before.len();
    let n: u32 = if len < 0x8000_0000 {
        len as u32
    } else {
        0x8000_0000
    };
    let mut updates: u64 = 0;
    let mut index: u32 = 0;
    while index < n
        invariant
            index <= n <= id_limit(),
            n as int == (if worlds_before@.len() < id_limit() {
                worlds_before@.len() as int
            } else {
                id_limit()
            }),
            updates == changed_rows_below(worlds_before@, worlds_after@, index as int),
            updates <= index,
        decreases n - index,
    {
        let id = index as i32;
        let changed = match (worlds_before.get(&id), worlds_after.get(&id)) {
            (Some(b), Some(a)) => !vec_bytes_equal(b, a),
            _ => false,
        };
        assert(changed == row_changed(worlds_before@, worlds_after@, index as int));
        if changed {
            updates = updates + 1;
        }
        index = index + 1;
    }
    updates
}

fn vec_bytes_equal(a: &Vec<u8>, b: &Vec<u8>) -> (r: bool)
    ensures
        r == (a@ == b@),
{
    if a.len() != b.len() {
        return false;
    }
    let mut i: usize = 0;
    while i < a.len()
        invariant
            a@.len() == b@.len(),
            i <= a@.len(),
            forall|j: int| 0 <= j < i ==> a@[j] == b@[j],
        decreases a.len() - i,
    {
        if a[i] != b[i] {
            return false;
        }
        i = i + 1;
    }
    assert(a@ =~= b@);
    true
}

impl<D> Updates<D> {
    /// Checks the updated-row count read before and after a load of
    /// `expected_updates` row updates: records a "Too Few Rows" error when the
    /// count moved by less than that. Over-counting is not reported.
    pub fn verify_updates_count(
        &self,
        updated_before: u32,
        updated_after: u32,
        expected_updates: u32,
        messages: &mut Messages,
    )
        ensures
            final(messages)@ == old(messages)@ + rows_count_report(
                updated_before as int,
                updated_after as int,
                expected_updates as int,
            ),
            same_capture(*final(messages), *old(messages)),
    {
        let updated: u32 = if updated_after >= updated_before {
            updated_after - updated_before
        } else {
            updated_before - updated_after
        };
        if updated < expected_updates {
            let mut text = String::from_str("Only ");
            text.append(decimal_text(updated as u64).as_str());
            text.append(" executed rows updated in the database out of roughly ");
            text.append(decimal_text(expected_updates as u64).as_str());
            text.append(" expected.");
            messages.error(text, "Too Few Rows");
        }
        proof {
            let report = rows_count_report(
                updated_before as int,
                updated_after as int,
                expected_updates as int,
            );
            assert(final(messages)@ =~= old(messages)@ + report);
        }
    }
}

fn updates_text(updates: u64, expected_updates: u64, warning: bool) -> (r: String)
    ensures
        warning ==> r@ == possibly_too_few_updates_text(updates as nat, expected_updates as nat),
        !warning ==> r@ == too_few_updates_text(updates as nat, expected_updates as nat),
{
    let mut text = if warning {
        String::from_str("There may have been an error updating the database. Only ")
    } else {
        String::from_str("Only ")
    };
    text.append(decimal_text(updates).as_str());
    if warning {
        text.append(" items were updated in the database out of the roughly ");
    } else {
        text.append(" items were updated in the database out of roughly ");
    }
    text.append(decimal_text(expected_updates).as_str());
    text.append(" expected.");
    text
}

impl<D> Updates<D> {
    /// Checks the row snapshots taken before and after a load of
    /// `concurrency` requests: the rows that changed are counted and held
    /// against `concurrency * repetitions` expected updates. None changed is
    /// an error, at most 90% of the expectation is an error, at most 95% a
    /// warning; above that nothing is recorded.
    pub fn verify_updates(
        &self,
        worlds_before: &HashMap<i32, Vec<u8>>,
        worlds_after: &HashMap<i32, Vec<u8>>,
        concurrency: u32,
        repetitions: u32,
        messages: &mut Messages,
    )
        ensures
            final(messages)@ == old(messages)@ + updates_report(
                updated_rows(worlds_before@, worlds_after@),
                (concurrency * repetitions) as nat,
            ),
            same_capture(*final(messages), *old(messages)),
    {
        assert(concurrency as int * repetitions as int <= 0xffff_ffff * 0xffff_ffff)
            by (nonlinear_arith)
            requires
                concurrency <= 0xffff_ffff,
                repetitions <= 0xffff_ffff,
        ;
        let expected_updates: u64 = concurrency as u64 * repetitions as u64;
        let updates = count_updated_rows(worlds_before, worlds_after);
        match classify_updates(updates, expected_updates) {
            UpdatesVerdict::NoUpdates => {
                messages.error(
                    String::from_str("No items were updated in the database."),
                    "No Updates",
                );
            },
            UpdatesVerdict::TooFewUpdates => {
                messages.error(updates_text(updates, expected_updates, false), "Too Few Updates");
            },
            UpdatesVerdict::PossiblyTooFewUpdates => {
                messages.warning(
                    updates_text(updates, expected_updates, true),
                    "Too Few Updates",
                );
            },
            UpdatesVerdict::Enough => {},
        }
        proof {
            let report = updates_report(updates as nat, expected_updates as nat);
            assert(final(messages)@ =~= old(messages)@ + report);
        }
    }
}

/// Over a load that moves the updated-row count from `before` to
/// `before + delta`, the count check records nothing when `delta` reaches
/// `expected`, and exactly one "Too Few Rows" error when it falls short.
pub proof fn lemma_rows_count_threshold(before: nat, delta: nat, expected: nat)
    ensures
        delta >= expected ==> rows_count_report(before as int, before + delta as int, expected as int)
            =~= Seq::<Finding>::empty(),
        delta < expected ==> {
            let report = rows_count_report(before as int, before + delta as int, expected as int);
            &&& report.len() == 1
            &&& report[0].0 == Severity::Error
            &&& report[0].2 == "Too Few Rows"@
        },
{
}

/// More changed rows never give a worse verdict; a count with no finding is
/// never followed, at a larger count, by an error.
pub proof fn lemma_updates_verdict_monotonic(u1: nat, u2: nat, expected: nat)
    requires
        u1 <= u2,
    ensures
        verdict_rank(updates_verdict(u1 as int, expected as int)) <= verdict_rank(
            updates_verdict(u2 as int, expected as int),
        ),
        updates_verdict(u1 as int, expected as int) == UpdatesVerdict::Enough
            ==> updates_verdict(u2 as int, expected as int) == UpdatesVerdict::Enough,
{
    assert(error_threshold(expected as int) <= warning_threshold(expected as int))
        by (nonlinear_arith);
}

/// When the snapshots before and after the load are identical, the
/// row-content check records exactly the "No Updates" error and no warning.
pub proof fn lemma_identical_snapshots_report_no_updates(
    worlds_before: Map<i32, Vec<u8>>,
    worlds_after: Map<i32, Vec<u8>>,
    expected: nat,
)
    requires
        worlds_before.dom() == worlds_after.dom(),
        forall|k: i32| #[trigger]
            worlds_before.contains_key(k) ==> worlds_before[k]@ == worlds_after[k]@,
    ensures
        updated_rows(worlds_before, worlds_after) == 0,
        updates_report(updated_rows(worlds_before, worlds_after), expected) == seq![
            (Severity::Error, "No items were updated in the database."@, "No Updates"@),
        ],
{
    assert forall|n: int| #[trigger] changed_rows_below(worlds_before, worlds_after, n) == 0 by {
        lemma_identical_below(worlds_before, worlds_after, n);
    }
}

proof fn lemma_identical_below(
    worlds_before: Map<i32, Vec<u8>>,
    worlds_after: Map<i32, Vec<u8>>,
    n: int,
)
    requires
        forall|k: i32| #[trigger]
            worlds_before.contains_key(k) ==> worlds_before[k]@ == worlds_after[k]@,
    ensures
        changed_rows_below(worlds_before, worlds_after, n) == 0,
    decreases n,
{
    if n > 0 {
        lemma_identical_below(worlds_before, worlds_after, n - 1);
        assert(!row_changed(worlds_before, worlds_after, n - 1));
    }
}

} // verus!
