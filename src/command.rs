use vstd::prelude::*;
use crate::query_count::{decimal, decimal_text};
use crate::updates::Updates;

verus! {

/// The load-tool invocations of one benchmark: a short primer, a warmup at
/// the highest concurrency, then one run per configured concurrency level.
pub struct BenchmarkCommands {
    pub primer_command: Vec<String>,
    pub warmup_command: Vec<String>,
    pub benchmark_commands: Vec<Vec<String>>,
}

pub open spec fn strings_view(v: Seq<String>) -> Seq<Seq<char>> {
    v.map_values(|s: String| s@)
}

/// The load tool's arguments: fixed headers, latency reporting, duration,
/// connections, an 8 second timeout, threads, and the target url.
pub open spec fn wrk_args(url: Seq<char>, duration: nat, concurrency: nat, threads: nat) -> Seq<
    Seq<char>,
> {
    seq![
        "wrk"@,
        "-H"@,
        "Host: tfb-server"@,
        "-H"@,
        "Accept: application/json,text/html;q=0.9,application/xhtml+xml;q=0.9,application/xml;q=0.8,*/*;q=0.7"@,
        "-H"@,
        "Connection: keep-alive"@,
        "--latency"@,
        "-d"@,
        decimal(duration),
        "-c"@,
        decimal(concurrency),
        "--timeout"@,
        "8"@,
        "-t"@,
        decimal(threads),
        url,
    ]
}

/// Number of load-tool threads: one per connection, at most one per
/// available processor.
pub open spec fn thread_count(concurrency: nat, parallelism: nat) -> nat {
    if concurrency <= parallelism {
        concurrency
    } else {
        parallelism
    }
}

/// Largest value of `s`, or 0 when `s` is empty.
pub open spec fn max_level(s: Seq<u32>) -> u32
    decreases s.len(),
{
    if s.len() == 0 {
        0
    } else if s.last() > max_level(s.drop_last()) {
        s.last()
    } else {
        max_level(s.drop_last())
    }
}

pub proof fn lemma_max_level(s: Seq<u32>)
    requires
        s.len() > 0,
    ensures
        s.contains(max_level(s)),
        forall|i: int| 0 <= i < s.len() ==> s[i] <= max_level(s),
    decreases s.len(),
{
    if s.len() > 1 {
        lemma_max_level(s.drop_last());
        assert forall|i: int| 0 <= i < s.len() implies s[i] <= max_level(s) by {
            if i < s.len() - 1 {
                assert(s[i] == s.drop_last()[i]);
            }
        }
        if s.last() <= max_level(s.drop_last()) {
            let j = choose|j: int| 0 <= j < s.len() - 1 && s.drop_last()[j] == max_level(s.drop_last());
            assert(s[j] == max_level(s));
        } else {
            assert(s[s.len() - 1] == max_level(s));
        }
    } else {
        assert(s.drop_last().len() == 0);
        assert(max_level(s.drop_last()) == 0);
        assert(s[0] == max_level(s));
    }
}

/// Relies on num_cpus::get: the number of processors this process may use,
/// which its documentation promises is at least 1.
#[verifier::external_body]
fn available_parallelism() -> (r: usize)
    ensures
        r >= 1,
{
    num_cpus::get()
}

fn push_str(v: &mut Vec<String>, s: &str)
    ensures
        strings_view(final(v)@) == strings_view(old(v)@).push(s@),
{
    v.push(String::from_str(s));
    assert(strings_view(final(v)@) =~= strings_view(old(v)@).push(s@));
}

fn push_string(v: &mut Vec<String>, s: String)
    ensures
        strings_view(final(v)@) == strings_view(old(v)@).push(s@),
{
    v.push(s);
    assert(strings_view(final(v)@) =~= strings_view(old(v)@).push(s@));
}

impl<D> Updates<D> {
    /// Highest configured concurrency level.
    pub fn max_concurrency(&self) -> (r: u32)
        requires
            self.concurrency_levels@.len() > 0,
        ensures
            r == max_level(self.concurrency_levels@),
            self.concurrency_levels@.contains(r),
            forall|i: int|
                0 <= i < self.concurrency_levels@.len() ==> #[trigger] self.concurrency_levels@[i]
                    <= r,
    {
        proof {
            lemma_max_level(self.concurrency_levels@);
        }
        let levels = &self.concurrency_levels;
        let mut best: u32 = levels[0];
        let mut i: usize = 1;
        assert(levels@.subrange(0, 1).drop_last() =~= Seq::<u32>::empty());
        assert(max_level(levels@.subrange(0, 1).drop_last()) == 0);
        while i < levels.len()
            invariant
                1 <= i <= levels@.len(),
                best == max_level(levels@.subrange(0, i as int)),
            decreases levels.len() - i,
        {
            assert(levels@.subrange(0, i + 1).drop_last() =~= levels@.subrange(0, i as int));
            if levels[i] > best {
                best = levels[i];
            }
            i = i + 1;
        }
        assert(levels@.subrange(0, levels@.len() as int) =~= levels@);
        best
    }

    /// Arguments for one load-tool run against `url` for `duration` seconds
    /// with `concurrency` connections, on a host with `parallelism`
    /// processors available.
    pub fn get_wrk_command(&self, url: &str, duration: u32, concurrency: u32, parallelism: usize) -> (r:
        Vec<String>)
        ensures
            strings_view(r@) == wrk_args(
                url@,
                duration as nat,
                concurrency as nat,
                thread_count(concurrency as nat, parallelism as nat),
            ),
    {
        let threads: u64 = if concurrency as u64 <= parallelism as u64 {
            concurrency as u64
        } else {
            parallelism as u64
        };
        let mut v: Vec<String> = Vec::new();
        push_str(&mut v, "wrk");
        push_str(&mut v, "-H");
        push_str(&mut v, "Host: tfb-server");
        push_str(&mut v, "-H");
        push_str(
            &mut v,
            "Accept: application/json,text/html;q=0.9,application/xhtml+xml;q=0.9,application/xml;q=0.8,*/*;q=0.7",
        );
        push_str(&mut v, "-H");
        push_str(&mut v, "Connection: keep-alive");
        push_str(&mut v, "--latency");
        push_str(&mut v, "-d");
        push_string(&mut v, decimal_text(duration as u64));
        push_str(&mut v, "-c");
        push_string(&mut v, decimal_text(concurrency as u64));
        push_str(&mut v, "--timeout");
        push_str(&mut v, "8");
        push_str(&mut v, "-t");
        push_string(&mut v, decimal_text(threads));
        push_str(&mut v, url);
        assert(strings_view(v@) =~= wrk_args(
            url@,
            duration as nat,
            concurrency as nat,
            thread_count(concurrency as nat, parallelism as nat),
        ));
        v
    }

    /// The primer (5 seconds, 8 connections), the warmup (15 seconds at the
    /// highest level) and one 15 second run per configured level, in order,
    /// on a host with `parallelism` processors available.
    pub fn benchmark_commands(&self, url: &str, parallelism: usize) -> (r: BenchmarkCommands)
        requires
            self.concurrency_levels@.len() > 0,
        ensures
            strings_view(r.primer_command@) == wrk_args(
                url@,
                5,
                8,
                thread_count(8, parallelism as nat),
            ),
            strings_view(r.warmup_command@) == wrk_args(
                url@,
                15,
                max_level(self.concurrency_levels@) as nat,
                thread_count(max_level(self.concurrency_levels@) as nat, parallelism as nat),
            ),
            r.benchmark_commands@.len() == self.concurrency_levels@.len(),
            forall|i: int|
                0 <= i < self.concurrency_levels@.len() ==> strings_view(
                    #[trigger] r.benchmark_commands@[i]@,
                ) == wrk_args(
                    url@,
                    15,
                    self.concurrency_levels@[i] as nat,
                    thread_count(self.concurrency_levels@[i] as nat, parallelism as nat),
                ),
    {
        let primer_command = self.get_wrk_command(url, 5, 8, parallelism);
        let warmup_command = self.get_wrk_command(url, 15, self.max_concurrency(), parallelism);
        let mut benchmark_commands: Vec<Vec<String>> = Vec::new();
        let mut i: usize = 0;
        while i < self.concurrency_levels.len()
            invariant
                i <= self.concurrency_levels@.len(),
                benchmark_commands@.len() == i,
                forall|j: int|
                    0 <= j < i ==> strings_view(#[trigger] benchmark_commands@[j]@) == wrk_args(
                        url@,
                        15,
                        self.concurrency_levels@[j] as nat,
                        thread_count(self.concurrency_levels@[j] as nat, parallelism as nat),
                    ),
            decreases self.concurrency_levels.len() - i,
        {
            let command = self.get_wrk_command(url, 15, self.concurrency_levels[i], parallelism);
            benchmark_commands.push(command);
            i = i + 1;
        }
        BenchmarkCommands { primer_command, warmup_command, benchmark_commands }
    }

    /// The benchmark's load-tool invocations for `url`, for the number of
    /// processors this host makes available.
    pub fn retrieve_benchmark_commands(&self, url: &str) -> (r: BenchmarkCommands)
        requires
            self.concurrency_levels@.len() > 0,
        ensures
            exists|parallelism: usize|
                parallelism >= 1 && {
                    &&& strings_view(r.primer_command@) == wrk_args(
                        url@,
                        5,
                        8,
                        thread_count(8, parallelism as nat),
                    )
                    &&& strings_view(r.warmup_command@) == wrk_args(
                        url@,
                        15,
                        max_level(self.concurrency_levels@) as nat,
                        thread_count(
                            max_level(self.concurrency_levels@) as nat,
                            parallelism as nat,
                        ),
                    )
                    &&& r.benchmark_commands@.len() == self.concurrency_levels@.len()
                    &&& forall|i: int|
                        0 <= i < self.concurrency_levels@.len() ==> strings_view(
                            #[trigger] r.benchmark_commands@[i]@,
                        ) == wrk_args(
                            url@,
                            15,
                            self.concurrency_levels@[i] as nat,
                            thread_count(self.concurrency_levels@[i] as nat, parallelism as nat),
                        )
                },
    {
        let parallelism = available_parallelism();
        self.benchmark_commands(url, parallelism)
    }
}

} // verus!
