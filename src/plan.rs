use vstd::prelude::*;
use crate::command::max_level;
use crate::query_count::{translate_query_count, translated_count};
use crate::updates::Updates;

verus! {

/// Fewest rows a request may ask for.
pub const MIN_QUERIES: u32 = 1;

/// Most rows a request may ask for.
pub const MAX_QUERIES: u32 = 500;

/// How many times the load of the database checks is issued.
pub const REPETITIONS: u32 = 2;

/// Rows each request of the database checks updates.
pub const ROWS_PER_REQUEST: u32 = 20;

/// The request suffixes tried, in order: valid, too small, not a number,
/// too large, and empty.
pub open spec fn test_cases() -> Seq<Seq<char>> {
    seq!["2"@, "0"@, "foo"@, "501"@, ""@]
}

/// Parameters of the two database checks run after the largest request.
pub struct DatabaseChecks {
    /// Url whose requests each update 20 rows.
    pub url: String,
    pub table_name: String,
    /// Highest configured concurrency level.
    pub concurrency: u32,
    pub repetitions: u32,
    /// Least number of queries: one per 20 updated rows.
    pub expected_queries: u32,
    /// Rows touched by all the requests: 20 per request.
    pub expected_rows: u32,
    /// Updates expected by the updated-row count check.
    pub expected_updates: u32,
}

/// What to check for one test case: the url to fetch, the number of entries
/// its response must hold, and the database checks to run after it, if any.
pub struct CaseCheck {
    pub url: String,
    pub expected_length: u32,
    pub database_checks: Option<DatabaseChecks>,
}

/// The database checks for a base url and concurrency level are as laid out.
pub open spec fn database_checks_for(c: DatabaseChecks, url: Seq<char>, concurrency: u32) -> bool {
    &&& c.url@ == url + "20"@
    &&& c.table_name@ == "world"@
    &&& c.concurrency == concurrency
    &&& c.repetitions == 2
    &&& c.expected_rows == 20 * 2 * concurrency
    &&& c.expected_queries == 2 * concurrency
    &&& c.expected_updates == 20 * 2 * concurrency
}

fn concat(a: &str, b: &str) -> (r: String)
    ensures
        r@ == a@ + b@,
{
    let mut s = String::from_str(a);
    s.append(b);
    s
}

impl<D> Updates<D> {
    /// The checks of one verification run against `url`, one per test case in
    /// order. Only the case whose expected length is the maximum carries the
    /// database checks, at the highest configured concurrency.
    pub fn verification_plan(&self, url: &str) -> (r: Vec<CaseCheck>)
        requires
            self.concurrency_levels@.len() > 0,
            40 * max_level(self.concurrency_levels@) <= u32::MAX,
        ensures
            r@.len() == test_cases().len(),
            forall|i: int|
                0 <= i < test_cases().len() ==> {
                    let c = #[trigger] r@[i];
                    &&& c.url@ == url@ + test_cases()[i]
                    &&& c.expected_length == translated_count(test_cases()[i], 1, 500)
                    &&& (c.database_checks is Some <==> c.expected_length == 500)
                    &&& c.database_checks matches Some(d) ==> database_checks_for(
                        d,
                        url@,
                        max_level(self.concurrency_levels@),
                    )
                },
    {
        let cases: Vec<&str> = vec!["2", "0", "foo", "501", ""];
        assert(cases@.map_values(|s: &str| s@) =~= test_cases());
        let concurrency = self.max_concurrency();
        let repetitions = REPETITIONS;
        let expected_rows = ROWS_PER_REQUEST * repetitions * concurrency;
        let expected_updates = expected_rows;
        let expected_queries = expected_rows / ROWS_PER_REQUEST;
        let mut plan: Vec<CaseCheck> = Vec::new();
        let mut i: usize = 0;
        while i < cases.len()
            invariant
                cases@.map_values(|s: &str| s@) == test_cases(),
                i <= cases@.len(),
                plan@.len() == i,
                concurrency == max_level(self.concurrency_levels@),
                repetitions == 2,
                expected_rows == 40 * concurrency,
                expected_updates == expected_rows,
                expected_queries == 2 * concurrency,
                forall|j: int|
                    0 <= j < i ==> {
                        let c = #[trigger] plan@[j];
                        &&& c.url@ == url@ + test_cases()[j]
                        &&& c.expected_length == translated_count(test_cases()[j], 1, 500)
                        &&& (c.database_checks is Some <==> c.expected_length == 500)
                        &&& c.database_checks matches Some(d) ==> database_checks_for(
                            d,
                            url@,
                            concurrency,
                        )
                    },
            decreases cases.len() - i,
        {
            let case = cases[i];
            assert(case@ == test_cases()[i as int]);
            let expected_length = translate_query_count(case, MIN_QUERIES, MAX_QUERIES);
            let database_checks = if expected_length == MAX_QUERIES {
                Some(
                    DatabaseChecks {
                        url: concat(url, "20"),
                        table_name: String::from_str("world"),
                        concurrency,
                        repetitions,
                        expected_queries,
                        expected_rows,
                        expected_updates,
                    },
                )
            } else {
                None
            };
            plan.push(CaseCheck { url: concat(url, case), expected_length, database_checks });
            i = i + 1;
        }
        plan
    }
}

} // verus!
