//! The suite of stress tests: which ones it runs, and the table of their
//! results.
use crate::json;
use crate::stress::{LargePayloadConfig, StressTally, StressTestConfig};
use crate::text::{self, join2, join3, parse_u64, u64_text, ParsedU64};
use vstd::prelude::*;

verus! {

/// The duration that a command-line argument asks for, or the default where it
/// is missing or no number.
pub fn duration_or(argument: Option<&str>, default_secs: u64) -> (r: u64)
    ensures
        r == (match argument {
            Some(s) => match text::read_u64(s@) {
                ParsedU64::Value(n) => n,
                _ => default_secs,
            },
            None => default_secs,
        }),
{
    match argument {
        Some(s) => match parse_u64(s) {
            ParsedU64::Value(n) => n,
            _ => default_secs,
        },
        None => default_secs,
    }
}

/// How long a test of the suite runs where nothing else is said, in seconds.
pub const DEFAULT_SUITE_SECS: u64 = 30;

/// How long the test with large payloads runs where nothing else is said.
pub const DEFAULT_LARGE_PAYLOAD_SECS: u64 = 10;

/// The configuration of the test with large payloads, for a given duration.
pub fn large_payload_config(duration_secs: u64) -> (r: LargePayloadConfig)
    ensures
        r == (LargePayloadConfig {
            base: StressTestConfig {
                max_concurrent: 5,
                duration_secs,
                tasks_per_instance: 1,
                activity_delay_ms: 5,
                orch_concurrency: 1,
                worker_concurrency: 1,
                wait_timeout_secs: 120,
            },
            small_payload_kb: 10,
            medium_payload_kb: 50,
            large_payload_kb: 100,
            activity_count: 20,
            sub_orch_count: 5,
        }),
{
    let config = LargePayloadConfig::default();
    LargePayloadConfig { base: StressTestConfig { duration_secs, ..config.base }, ..config }
}

/// Makes stores that live in memory.
#[derive(Debug, Clone, Copy, PartialEq, Eq, Structural)]
pub struct InMemorySqliteFactory;

/// Makes stores that live in a file.
#[derive(Debug)]
pub struct FileSqliteFactory {
    db_path: String,
}

impl View for FileSqliteFactory {
    type V = Seq<char>;

    /// The path of the file.
    closed spec fn view(&self) -> Seq<char> {
        self.db_path@
    }
}

impl FileSqliteFactory {
    /// A factory for the process with this ID.
    pub fn new(process_id: u32) -> (r: Self)
        ensures
            r@ == "/tmp/duroxide_stress_"@ + text::decimal(process_id as nat) + ".db"@,
    {
        FileSqliteFactory {
            db_path: join3(
                "/tmp/duroxide_stress_",
                u64_text(process_id as u64).as_str(),
                ".db",
            ),
        }
    }

    /// The path of the file.
    pub fn db_path(&self) -> (r: &str)
        ensures
            r@ == self@,
    {
        self.db_path.as_str()
    }

    /// The address of the store.
    pub fn url(&self) -> (r: String)
        ensures
            r@ == "sqlite:"@ + self@,
    {
        join2("sqlite:", self.db_path.as_str())
    }
}

/// Which stores a test of the suite runs on.
#[derive(Debug, Clone, Copy, PartialEq, Eq, Structural)]
pub enum SuiteStore {
    InMemory,
    File,
}

impl SuiteStore {
    /// The name of the store in the table.
    pub fn name(&self) -> (r: &'static str)
        ensures
            r == (match *self {
                SuiteStore::InMemory => "In-Memory SQLite",
                SuiteStore::File => "File SQLite",
            }),
    {
        match self {
            SuiteStore::InMemory => "In-Memory SQLite",
            SuiteStore::File => "File SQLite",
        }
    }

    /// The name of the store in the heading of its tests.
    pub fn heading(&self) -> (r: &'static str)
        ensures
            r == (match *self {
                SuiteStore::InMemory => "In-Memory SQLite",
                SuiteStore::File => "File-Based SQLite",
            }),
    {
        match self {
            SuiteStore::InMemory => "In-Memory SQLite",
            SuiteStore::File => "File-Based SQLite",
        }
    }
}

/// One test of the suite.
#[derive(Debug, Clone, Copy, PartialEq, Eq, Structural)]
pub struct SuiteTest {
    pub store: SuiteStore,
    pub config: StressTestConfig,
}

/// The configuration that the suite runs at a level of concurrency.
#[verifier::allow_in_spec]
pub fn suite_config(duration_secs: u64, concurrency: usize) -> StressTestConfig
    returns
        (StressTestConfig {
            max_concurrent: 20,
            duration_secs,
            tasks_per_instance: 5,
            activity_delay_ms: 10,
            orch_concurrency: concurrency,
            worker_concurrency: concurrency,
            wait_timeout_secs: 60,
        }),
{
    StressTestConfig {
        max_concurrent: 20,
        duration_secs,
        tasks_per_instance: 5,
        activity_delay_ms: 10,
        orch_concurrency: concurrency,
        worker_concurrency: concurrency,
        wait_timeout_secs: 60,
    }
}

/// The tests of the suite: each store with one and with two dispatchers of
/// each kind.
pub open spec fn suite_tests(duration_secs: u64) -> Seq<SuiteTest> {
    seq![
        SuiteTest { store: SuiteStore::InMemory, config: suite_config(duration_secs, 1) },
        SuiteTest { store: SuiteStore::InMemory, config: suite_config(duration_secs, 2) },
        SuiteTest { store: SuiteStore::File, config: suite_config(duration_secs, 1) },
        SuiteTest { store: SuiteStore::File, config: suite_config(duration_secs, 2) },
    ]
}

/// The name of a configuration in the table.
pub fn concurrency_label(config: &StressTestConfig) -> (r: String)
    ensures
        r@ == text::decimal(config.orch_concurrency as nat) + "/"@ + text::decimal(
            config.worker_concurrency as nat,
        ),
{
    join3(
        u64_text(config.orch_concurrency as u64).as_str(),
        "/",
        u64_text(config.worker_concurrency as u64).as_str(),
    )
}

/// What a test came to: the counts, and the rates as texts.
#[derive(Debug)]
pub struct Measured {
    pub tally: StressTally,
    /// How many of a hundred completed.
    pub success_rate: String,
    /// How many orchestrations completed in a second.
    pub orch_throughput: String,
    /// How many activities did.
    pub activity_throughput: String,
    /// How many milliseconds passed for each orchestration.
    pub avg_latency_ms: String,
}

/// A text filled up with spaces to a width.
pub open spec fn padded(s: Seq<char>, width: nat) -> Seq<char> {
    if s.len() < width {
        s + Seq::new((width - s.len()) as nat, |i: int| ' ')
    } else {
        s
    }
}

/// Fills a text up with spaces to a width.
pub fn pad(s: &str, width: usize) -> (r: String)
    ensures
        r@ == padded(s@, width as nat),
{
    let mut out = s.to_string();
    let mut n: usize = s.unicode_len();
    proof {
        reveal_strlit(" ");
    }
    while n < width
        invariant
            s@.len() <= n,
            n <= width || n == s@.len(),
            n <= usize::MAX,
            out@ == s@ + Seq::new((n - s@.len()) as nat, |i: int| ' '),
            " "@ == seq![' '],
        decreases width - n,
    {
        out.append(" ");
        n += 1;
        assert(out@ =~= s@ + Seq::new((n - s@.len()) as nat, |i: int| ' '));
    }
    assert(s@.len() >= width ==> out@ =~= s@);
    out
}

/// The widths of the columns of the table.
pub open spec fn widths() -> Seq<nat> {
    seq![20nat, 10nat, 10nat, 10nat, 8nat, 8nat, 8nat, 10nat, 15nat, 15nat, 15nat]
}

/// The first `n` cells, each filled up to its column, with spaces between.
pub open spec fn laid_out(cells: Seq<Seq<char>>, n: nat) -> Seq<char>
    decreases n,
{
    if n == 0 {
        Seq::empty()
    } else if n == 1 {
        padded(cells[0], widths()[0])
    } else {
        laid_out(cells, (n - 1) as nat) + " "@ + padded(cells[n - 1], widths()[n - 1])
    }
}

/// A line of the table.
fn lay_out(cells: &Vec<String>) -> (r: String)
    requires
        cells@.len() == 11,
    ensures
        r@ == laid_out(json::views(cells@), 11),
{
    let columns: Vec<usize> = vec![20, 10, 10, 10, 8, 8, 8, 10, 15, 15, 15];
    let mut line = pad(cells[0].as_str(), columns[0]);
    let mut i: usize = 1;
    assert(laid_out(json::views(cells@), 1) == padded(cells@[0]@, 20));
    while i < 11
        invariant
            1 <= i <= 11,
            cells@.len() == 11,
            columns@.len() == 11,
            forall|k: int| 0 <= k < 11 ==> #[trigger] columns@[k] == widths()[k],
            line@ == laid_out(json::views(cells@), i as nat),
        decreases 11 - i,
    {
        line.append(" ");
        line.append(pad(cells[i].as_str(), columns[i]).as_str());
        assert(json::views(cells@)[i as int] == cells@[i as int]@);
        i += 1;
    }
    line
}

/// The titles of the columns.
pub open spec fn titles() -> Seq<Seq<char>> {
    seq![
        "Provider"@,
        "Config"@,
        "Completed"@,
        "Failed"@,
        "Infra"@,
        "Config"@,
        "App"@,
        "Success %"@,
        "Orch/sec"@,
        "Activity/sec"@,
        "Avg Latency"@,
    ]
}

/// The first line of the table.
pub fn header() -> (r: String)
    ensures
        r@ == laid_out(titles(), 11),
{
    let cells: Vec<String> = vec![
        "Provider".to_string(),
        "Config".to_string(),
        "Completed".to_string(),
        "Failed".to_string(),
        "Infra".to_string(),
        "Config".to_string(),
        "App".to_string(),
        "Success %".to_string(),
        "Orch/sec".to_string(),
        "Activity/sec".to_string(),
        "Avg Latency".to_string(),
    ];
    assert(json::views(cells@) =~= titles());
    lay_out(&cells)
}

/// The line under the titles.
pub fn rule() -> (r: String)
    ensures
        r@ == Seq::new(150, |i: int| '-'),
{
    let mut s = String::new();
    let mut i: usize = 0;
    proof {
        reveal_strlit("-");
    }
    while i < 150
        invariant
            i <= 150,
            s@ == Seq::new(i as nat, |k: int| '-'),
            "-"@ == seq!['-'],
        decreases 150 - i,
    {
        s.append("-");
        i += 1;
        assert(s@ =~= Seq::new(i as nat, |k: int| '-'));
    }
    s
}

/// The cells of a test's line.
pub open spec fn row_cells(test: SuiteTest, m: Measured) -> Seq<Seq<char>> {
    seq![
        match test.store {
            SuiteStore::InMemory => "In-Memory SQLite"@,
            SuiteStore::File => "File SQLite"@,
        },
        text::decimal(test.config.orch_concurrency as nat) + "/"@ + text::decimal(
            test.config.worker_concurrency as nat,
        ),
        text::decimal(m.tally.completed as nat),
        text::decimal(m.tally.failed as nat),
        text::decimal(m.tally.failed_infrastructure as nat),
        text::decimal(m.tally.failed_configuration as nat),
        text::decimal(m.tally.failed_application as nat),
        m.success_rate@,
        m.orch_throughput@,
        m.activity_throughput@,
        m.avg_latency_ms@,
    ]
}

/// The line of a test, which ends in the unit of the last column.
pub fn row(test: &SuiteTest, m: &Measured) -> (r: String)
    ensures
        r@ == laid_out(row_cells(*test, *m), 11) + "ms"@,
{
    let cells: Vec<String> = vec![
        test.store.name().to_string(),
        concurrency_label(&test.config),
        u64_text(m.tally.completed as u64),
        u64_text(m.tally.failed as u64),
        u64_text(m.tally.failed_infrastructure as u64),
        u64_text(m.tally.failed_configuration as u64),
        u64_text(m.tally.failed_application as u64),
        m.success_rate.clone(),
        m.orch_throughput.clone(),
        m.activity_throughput.clone(),
        m.avg_latency_ms.clone(),
    ];
    assert(json::views(cells@) =~= row_cells(*test, *m));
    let mut line = lay_out(&cells);
    line.append("ms");
    line
}

/// A suite as it runs.
#[derive(Debug)]
pub struct Suite {
    tests: Vec<SuiteTest>,
    at: usize,
    results: Vec<(SuiteTest, Measured)>,
}

/// What a suite stands for.
#[verifier::ext_equal]
pub struct SuiteModel {
    /// The tests that were not run yet.
    pub left: Seq<SuiteTest>,
    /// The tests that came to a result.
    pub results: Seq<(SuiteTest, Measured)>,
}

impl View for Suite {
    type V = SuiteModel;

    closed spec fn view(&self) -> SuiteModel {
        SuiteModel { left: self.tests@.skip(self.at as int), results: self.results@ }
    }
}

impl Suite {
    /// The invariant of a suite.
    pub closed spec fn wf(&self) -> bool {
        self.at <= self.tests@.len()
    }

    /// A suite of tests that each run for this long.
    pub fn new(duration_secs: u64) -> (r: Self)
        ensures
            r.wf(),
            r@ == (SuiteModel { left: suite_tests(duration_secs), results: Seq::empty() }),
    {
        let tests: Vec<SuiteTest> = vec![
            SuiteTest { store: SuiteStore::InMemory, config: suite_config(duration_secs, 1) },
            SuiteTest { store: SuiteStore::InMemory, config: suite_config(duration_secs, 2) },
            SuiteTest { store: SuiteStore::File, config: suite_config(duration_secs, 1) },
            SuiteTest { store: SuiteStore::File, config: suite_config(duration_secs, 2) },
        ];
        let r = Suite { tests, at: 0, results: Vec::new() };
        assert(r@.left =~= suite_tests(duration_secs));
        r
    }

    /// The test that comes next.
    pub fn next_test(&self) -> (r: Option<SuiteTest>)
        requires
            self.wf(),
        ensures
            r == (if self@.left.len() == 0 {
                None
            } else {
                Some(self@.left[0])
            }),
    {
        if self.at < self.tests.len() {
            Some(self.tests[self.at])
        } else {
            None
        }
    }

    /// Takes what the test that came next came to. One that could not be run
    /// leaves no result.
    pub fn record(&mut self, measured: Option<Measured>)
        requires
            old(self).wf(),
            old(self)@.left.len() > 0,
        ensures
            final(self).wf(),
            final(self)@ == (SuiteModel {
                left: old(self)@.left.drop_first(),
                results: match measured {
                    Some(m) => old(self)@.results.push((old(self)@.left[0], m)),
                    None => old(self)@.results,
                },
            }),
    {
        assert(self.at < self.tests.len());
        if let Some(m) = measured {
            self.results.push((self.tests[self.at], m));
        }
        self.at = self.at + 1;
        assert(self@.left =~= old(self)@.left.drop_first());
    }

    /// The lines of the table.
    pub fn table(&self) -> (r: Vec<String>)
        ensures
            r@.len() == self@.results.len() + 3,
            r@[0]@ == "\n=== Comparison Table ==="@,
            r@[1]@ == laid_out(titles(), 11),
            r@[2]@ == Seq::new(150, |i: int| '-'),
            forall|i: int|
                0 <= i < self@.results.len() ==> (#[trigger] r@[i + 3])@ == laid_out(
                    row_cells(self@.results[i].0, self@.results[i].1),
                    11,
                ) + "ms"@,
    {
        let title = "\n=== Comparison Table ===".to_string();
        let mut lines: Vec<String> = vec![title, header(), rule()];
        let mut i: usize = 0;
        while i < self.results.len()
            invariant
                i <= self.results@.len(),
                lines@.len() == i + 3,
                lines@[0]@ == "\n=== Comparison Table ==="@,
                lines@[1]@ == laid_out(titles(), 11),
                lines@[2]@ == Seq::new(150, |k: int| '-'),
                forall|k: int|
                    0 <= k < i ==> (#[trigger] lines@[k + 3])@ == laid_out(
                        row_cells(self.results@[k].0, self.results@[k].1),
                        11,
                    ) + "ms"@,
            decreases self.results@.len() - i,
        {
            lines.push(row(&self.results[i].0, &self.results[i].1));
            i += 1;
        }
        lines
    }
}

/// A cell never makes its column narrower than it is.
pub proof fn law_columns_keep_their_width(s: Seq<char>, width: nat)
    ensures
        padded(s, width).len() >= width,
        s.len() <= width ==> padded(s, width).len() == width,
        padded(s, width).take(s.len() as int) == s,
{
    assert(padded(s, width).take(s.len() as int) =~= s);
}

/// A text is filled up with spaces behind it, and only as far as its column goes.
pub proof fn law_texts_are_filled_up_with_spaces(s: &str, width: usize, r: String, i: int)
    requires
        call_ensures(pad, (s, width), r),
        0 <= i < r@.len(),
    ensures
        r@.len() == if s@.len() < width {
            width as nat
        } else {
            s@.len()
        },
        i < s@.len() ==> r@[i] == s@[i],
        i >= s@.len() ==> r@[i] == ' ',
{
}

/// The suite runs each store with one and with two dispatchers of each kind, for as
/// long as it was told to.
pub proof fn law_the_suite_has_four_tests(duration_secs: u64, suite: Suite)
    requires
        call_ensures(Suite::new, (duration_secs,), suite),
    ensures
        suite@.results.len() == 0,
        suite@.left.len() == 4,
        suite@.left[0].store is InMemory && suite@.left[1].store is InMemory,
        suite@.left[2].store is File && suite@.left[3].store is File,
        suite@.left[0].config.orch_concurrency == 1 && suite@.left[0].config.worker_concurrency
            == 1,
        suite@.left[1].config.orch_concurrency == 2 && suite@.left[1].config.worker_concurrency
            == 2,
        suite@.left[2].config == suite@.left[0].config,
        suite@.left[3].config == suite@.left[1].config,
        forall|i: int|
            0 <= i < 4 ==> (#[trigger] suite@.left[i]).config.duration_secs == duration_secs
                && suite@.left[i].config.max_concurrent == 20
                && suite@.left[i].config.tasks_per_instance == 5
                && suite@.left[i].config.activity_delay_ms == 10
                && suite@.left[i].config.wait_timeout_secs == 60,
{
}

/// Tests are run in their order, each once, and what one came to is kept with it; one
/// that could not be run leaves no result.
pub proof fn law_tests_are_run_once_each(
    before: &Suite,
    suite: &mut Suite,
    measured: Option<Measured>,
    after: &Suite,
    was: Option<SuiteTest>,
    next: Option<SuiteTest>,
)
    requires
        before@ == old(suite)@,
        old(suite)@.left.len() > 0,
        call_ensures(Suite::record, (suite, measured), ()),
        after@ == final(suite)@,
        call_ensures(Suite::next_test, (before,), was),
        call_ensures(Suite::next_test, (after,), next),
    ensures
        was == Some(old(suite)@.left[0]),
        final(suite)@.left.len() == old(suite)@.left.len() - 1,
        old(suite)@.left.len() > 1 ==> next == Some(old(suite)@.left[1]),
        old(suite)@.left.len() == 1 ==> next is None,
        measured matches Some(m) ==> final(suite)@.results.drop_last() == old(suite)@.results
            && final(suite)@.results.last() == (was->0, m),
        measured is None ==> final(suite)@.results == old(suite)@.results,
{
    if measured is Some {
        assert(final(suite)@.results.drop_last() =~= old(suite)@.results);
    }
}

/// The line of a test names its store and its dispatchers, then has the counts in
/// the order of the titles, and then the rates, in columns of fixed width.
pub proof fn law_a_line_follows_the_titles(
    test: &SuiteTest,
    m: &Measured,
    line: String,
    titled: String,
)
    requires
        call_ensures(row, (test, m), line),
        call_ensures(header, (), titled),
    ensures
        line@ == padded(
            if test.store is InMemory {
                "In-Memory SQLite"@
            } else {
                "File SQLite"@
            },
            20,
        ) + " "@ + padded(
            text::decimal(test.config.orch_concurrency as nat) + "/"@ + text::decimal(
                test.config.worker_concurrency as nat,
            ),
            10,
        ) + " "@ + padded(text::decimal(m.tally.completed as nat), 10) + " "@ + padded(
            text::decimal(m.tally.failed as nat),
            10,
        ) + " "@ + padded(text::decimal(m.tally.failed_infrastructure as nat), 8) + " "@ + padded(
            text::decimal(m.tally.failed_configuration as nat),
            8,
        ) + " "@ + padded(text::decimal(m.tally.failed_application as nat), 8) + " "@ + padded(
            m.success_rate@,
            10,
        ) + " "@ + padded(m.orch_throughput@, 15) + " "@ + padded(m.activity_throughput@, 15)
            + " "@ + padded(m.avg_latency_ms@, 15) + "ms"@,
        titled@ == padded("Provider"@, 20) + " "@ + padded("Config"@, 10) + " "@ + padded(
            "Completed"@,
            10,
        ) + " "@ + padded("Failed"@, 10) + " "@ + padded("Infra"@, 8) + " "@ + padded("Config"@, 8)
            + " "@ + padded("App"@, 8) + " "@ + padded("Success %"@, 10) + " "@ + padded(
            "Orch/sec"@,
            15,
        ) + " "@ + padded("Activity/sec"@, 15) + " "@ + padded("Avg Latency"@, 15),
{
    reveal_with_fuel(laid_out, 12);
}

/// The table has a line for each result, in the order in which the tests were run,
/// behind its heading, the titles and a rule.
pub proof fn law_the_table_has_a_line_for_each_result(
    suite: &Suite,
    lines: Vec<String>,
    i: int,
    line: String,
    titled: String,
    ruled: String,
)
    requires
        call_ensures(Suite::table, (suite,), lines),
        0 <= i < suite@.results.len(),
        call_ensures(row, (&suite@.results[i].0, &suite@.results[i].1), line),
        call_ensures(header, (), titled),
        call_ensures(rule, (), ruled),
    ensures
        lines@.len() == suite@.results.len() + 3,
        lines@[1]@ == titled@,
        lines@[2]@ == ruled@,
        ruled@.len() == 150,
        forall|k: int| 0 <= k < 150 ==> #[trigger] ruled@[k] == '-',
        lines@[i + 3]@ == line@,
{
}

/// A duration on the command line counts where it is a number, and else the default.
pub proof fn law_durations_are_read_or_defaulted(
    argument: &str,
    n: u64,
    default_secs: u64,
    read: u64,
    missing: u64,
)
    requires
        call_ensures(duration_or, (Some(argument), default_secs), read),
        call_ensures(duration_or, (None, default_secs), missing),
    ensures
        argument@ == text::decimal(n as nat) ==> read == n,
        argument@.len() == 0 ==> read == default_secs,
        missing == default_secs,
{
    if argument@ == text::decimal(n as nat) {
        text::law_decimal_reads_back(n as nat);
    }
}

/// The test with large payloads runs for as long as it is told to, and a store in a
/// file has an address of its own in each process.
pub proof fn law_suite_settings(
    duration_secs: u64,
    config: LargePayloadConfig,
    process_id: u32,
    factory: FileSqliteFactory,
    path: &str,
    url: String,
)
    requires
        call_ensures(large_payload_config, (duration_secs,), config),
        call_ensures(FileSqliteFactory::new, (process_id,), factory),
        call_ensures(FileSqliteFactory::db_path, (&factory,), path),
        call_ensures(FileSqliteFactory::url, (&factory,), url),
    ensures
        config.base.duration_secs == duration_secs,
        config.base.max_concurrent == 5 && config.base.tasks_per_instance == 1,
        config.small_payload_kb == 10 && config.medium_payload_kb == 50 && config.large_payload_kb
            == 100,
        config.activity_count == 20 && config.sub_orch_count == 5,
        path@ == "/tmp/duroxide_stress_"@ + text::decimal(process_id as nat) + ".db"@,
        url@ == "sqlite:"@ + path@,
{
}

/// A configuration is named after its two levels of concurrency, which the suite
/// sets alike, and a store after what it keeps its data in.
pub proof fn law_names_in_the_table(
    duration_secs: u64,
    concurrency: usize,
    config: StressTestConfig,
    label: String,
    store: &SuiteStore,
    name: &'static str,
    heading: &'static str,
)
    requires
        call_ensures(suite_config, (duration_secs, concurrency), config),
        call_ensures(concurrency_label, (&config,), label),
        call_ensures(SuiteStore::name, (store,), name),
        call_ensures(SuiteStore::heading, (store,), heading),
    ensures
        config.duration_secs == duration_secs,
        config.orch_concurrency == concurrency && config.worker_concurrency == concurrency,
        config.max_concurrent == 20 && config.tasks_per_instance == 5,
        config.activity_delay_ms == 10 && config.wait_timeout_secs == 60,
        label@ == text::decimal(concurrency as nat) + "/"@ + text::decimal(concurrency as nat),
        *store is InMemory ==> name@ == "In-Memory SQLite"@ && heading@ == "In-Memory SQLite"@,
        *store is File ==> name@ == "File SQLite"@ && heading@ == "File-Based SQLite"@,
{
}

} // verus!
