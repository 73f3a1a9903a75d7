//! Stress tests: configuration, the pump that keeps orchestrations going, the
//! tally of outcomes, and the inputs and payloads of what is run.
use crate::error::ErrorDetails;
use crate::json::{self, number_at, number_field, object_text, parse_value};
use crate::text::{self, join2, u64_text};
use crate::time::{Duration, NANOS_PER_SEC};
use vstd::prelude::*;

verus! {

/// What a stress test is to do.
#[derive(Debug, Clone, Copy, PartialEq, Eq, Structural)]
pub struct StressTestConfig {
    /// How many orchestrations may run at once.
    pub max_concurrent: usize,
    /// For how long new ones are launched, in seconds.
    pub duration_secs: u64,
    /// How many tasks each one fans out to.
    pub tasks_per_instance: usize,
    /// How long a task takes, in milliseconds.
    pub activity_delay_ms: u64,
    /// How many orchestration dispatchers run.
    pub orch_concurrency: usize,
    /// How many worker dispatchers run.
    pub worker_concurrency: usize,
    /// How long to wait for an orchestration, in seconds.
    pub wait_timeout_secs: u64,
}

/// How long to wait for an orchestration where nothing else is said.
pub fn default_wait_timeout_secs() -> (r: u64)
    ensures
        r == 60,
{
    60
}

impl Default for StressTestConfig {
    fn default() -> (r: Self)
        ensures
            r == (StressTestConfig {
                max_concurrent: 20,
                duration_secs: 10,
                tasks_per_instance: 5,
                activity_delay_ms: 10,
                orch_concurrency: 2,
                worker_concurrency: 2,
                wait_timeout_secs: 60,
            }),
    {
        StressTestConfig {
            max_concurrent: 20,
            duration_secs: 10,
            tasks_per_instance: 5,
            activity_delay_ms: 10,
            orch_concurrency: 2,
            worker_concurrency: 2,
            wait_timeout_secs: default_wait_timeout_secs(),
        }
    }
}

/// What a stress test with large payloads is to do.
#[derive(Debug, Clone, Copy, PartialEq, Eq, Structural)]
pub struct LargePayloadConfig {
    /// What any stress test is to do.
    pub base: StressTestConfig,
    /// The size of a small payload, in KB.
    pub small_payload_kb: usize,
    /// The size of a medium payload, in KB.
    pub medium_payload_kb: usize,
    /// The size of a large payload, in KB.
    pub large_payload_kb: usize,
    /// How many activities each orchestration runs.
    pub activity_count: usize,
    /// How many sub-orchestrations it runs.
    pub sub_orch_count: usize,
}

impl Default for LargePayloadConfig {
    fn default() -> (r: Self)
        ensures
            r == (LargePayloadConfig {
                base: StressTestConfig {
                    max_concurrent: 5,
                    duration_secs: 10,
                    tasks_per_instance: 1,
                    activity_delay_ms: 5,
                    orch_concurrency: 1,
                    worker_concurrency: 1,
                    wait_timeout_secs: 120,
                },
                small_payload_kb: 10,
                medium_payload_kb: 50,
                large_payload_kb: 100,
                activity_count: 20,
                sub_orch_count: 5,
            }),
    {
        LargePayloadConfig {
            base: StressTestConfig {
                max_concurrent: 5,
                duration_secs: 10,
                tasks_per_instance: 1,
                activity_delay_ms: 5,
                orch_concurrency: 1,
                worker_concurrency: 1,
                wait_timeout_secs: 120,
            },
            small_payload_kb: 10,
            medium_payload_kb: 50,
            large_payload_kb: 100,
            activity_count: 20,
            sub_orch_count: 5,
        }
    }
}

/// How many orchestrations were launched, run, and came to what end.
#[derive(Debug, Clone, Copy, PartialEq, Eq, Structural)]
pub struct StressTally {
    pub launched: usize,
    pub completed: usize,
    pub failed: usize,
    pub failed_infrastructure: usize,
    pub failed_configuration: usize,
    pub failed_application: usize,
    /// Launched and not yet at an end.
    pub active: usize,
}

/// Every orchestration that was launched is active, completed or failed, and
/// no failure is counted under two causes.
pub open spec fn tally_wf(t: StressTally) -> bool {
    &&& t.launched == t.active + t.completed + t.failed
    &&& t.failed_infrastructure + t.failed_configuration + t.failed_application <= t.failed
}

/// The end of a launched orchestration, as the wait for it shows it.
#[derive(Debug)]
pub enum RunEnd {
    /// It could not be started.
    NotStarted,
    /// It completed.
    Completed,
    /// It failed.
    Failed(ErrorDetails),
    /// Waiting for it failed.
    WaitFailed,
    /// It was in some other state when the wait ended.
    Unfinished,
}

/// The tally after one more launch.
pub open spec fn launched(t: StressTally) -> StressTally {
    StressTally { launched: (t.launched + 1) as usize, active: (t.active + 1) as usize, ..t }
}

/// The tally after a launched orchestration came to an end. A poisoned message
/// counts as an infrastructure failure.
pub open spec fn ended(t: StressTally, end: RunEnd) -> StressTally {
    let left = StressTally { active: (t.active - 1) as usize, ..t };
    match end {
        RunEnd::Completed => StressTally { completed: (t.completed + 1) as usize, ..left },
        RunEnd::Failed(details) => {
            let failed = StressTally { failed: (t.failed + 1) as usize, ..left };
            match details {
                ErrorDetails::Infrastructure { .. } | ErrorDetails::Poison { .. } => StressTally {
                    failed_infrastructure: (t.failed_infrastructure + 1) as usize,
                    ..failed
                },
                ErrorDetails::Configuration { .. } => StressTally {
                    failed_configuration: (t.failed_configuration + 1) as usize,
                    ..failed
                },
                ErrorDetails::Application { .. } => StressTally {
                    failed_application: (t.failed_application + 1) as usize,
                    ..failed
                },
            }
        },
        _ => StressTally { failed: (t.failed + 1) as usize, ..left },
    }
}

impl StressTally {
    /// Nothing was launched yet.
    pub fn new() -> (r: Self)
        ensures
            tally_wf(r),
            r == (StressTally {
                launched: 0,
                completed: 0,
                failed: 0,
                failed_infrastructure: 0,
                failed_configuration: 0,
                failed_application: 0,
                active: 0,
            }),
    {
        StressTally {
            launched: 0,
            completed: 0,
            failed: 0,
            failed_infrastructure: 0,
            failed_configuration: 0,
            failed_application: 0,
            active: 0,
        }
    }

    /// Counts a launch.
    pub fn launch(&mut self)
        requires
            tally_wf(*old(self)),
            old(self).launched < usize::MAX,
        ensures
            tally_wf(*final(self)),
            *final(self) == launched(*old(self)),
    {
        self.launched = self.launched + 1;
        self.active = self.active + 1;
    }

    /// Counts an end.
    pub fn end(&mut self, end: RunEnd)
        requires
            tally_wf(*old(self)),
            old(self).active > 0,
        ensures
            tally_wf(*final(self)),
            *final(self) == ended(*old(self), end),
    {
        self.active = self.active - 1;
        match end {
            RunEnd::Completed => {
                self.completed = self.completed + 1;
            },
            RunEnd::Failed(details) => {
                self.failed = self.failed + 1;
                match details {
                    ErrorDetails::Infrastructure { .. } => {
                        self.failed_infrastructure = self.failed_infrastructure + 1;
                    },
                    ErrorDetails::Configuration { .. } => {
                        self.failed_configuration = self.failed_configuration + 1;
                    },
                    ErrorDetails::Application { .. } => {
                        self.failed_application = self.failed_application + 1;
                    },
                    ErrorDetails::Poison { .. } => {
                        self.failed_infrastructure = self.failed_infrastructure + 1;
                    },
                }
            },
            RunEnd::NotStarted | RunEnd::WaitFailed | RunEnd::Unfinished => {
                self.failed = self.failed + 1;
            },
        }
    }
}

/// What the pump does next.
#[derive(Debug)]
pub enum PumpStep {
    /// The time is over: launch no more.
    Stop,
    /// As many run as may: sleep for this many milliseconds.
    Pause { sleep_ms: u64 },
    /// Launch this instance, then sleep for this many milliseconds.
    Launch { instance: String, sleep_ms: u64 },
}

/// What the drain does next.
#[derive(Debug, Clone, Copy, PartialEq, Eq, Structural)]
pub enum DrainStep {
    /// Nothing runs any more.
    Done,
    /// Sleep for this many milliseconds, after reporting where that is due.
    Wait { sleep_ms: u64, report: bool },
    /// Enough was waited.
    TimedOut,
}

/// The most waits of a drain: two minutes of them.
pub const MAX_DRAIN_WAITS: u64 = 1200;

/// A stress test as it runs.
#[derive(Debug)]
pub struct StressRun {
    /// What is to be done.
    pub config: StressTestConfig,
    /// What came of it so far.
    pub tally: StressTally,
    /// The number of the last instance.
    pub instance: usize,
    /// How often the drain has waited.
    pub waits: u64,
}

impl StressRun {
    /// The invariant of a run.
    pub open spec fn wf(&self) -> bool {
        &&& tally_wf(self.tally)
        &&& self.instance == self.tally.launched
        &&& self.tally.active <= self.config.max_concurrent
        &&& self.waits <= MAX_DRAIN_WAITS + 1
    }

    /// A run that starts now.
    pub fn new(config: StressTestConfig) -> (r: Self)
        ensures
            r.wf(),
            r.config == config,
            r.tally.launched == 0,
            r.tally.completed == 0,
            r.tally.failed == 0,
            r.tally.active == 0,
            r.waits == 0,
    {
        StressRun { config, tally: StressTally::new(), instance: 0, waits: 0 }
    }

    /// What the pump does after `elapsed`: it stops when the time is over,
    /// pauses while as many run as may, and launches otherwise.
    pub fn pump(&mut self, elapsed: &Duration) -> (r: PumpStep)
        requires
            old(self).wf(),
            old(self).tally.launched < usize::MAX,
        ensures
            final(self).wf(),
            final(self).config == old(self).config,
            final(self).waits == old(self).waits,
            if elapsed@ >= old(self).config.duration_secs * NANOS_PER_SEC {
                r is Stop && *final(self) == *old(self)
            } else if old(self).tally.active >= old(self).config.max_concurrent {
                r == (PumpStep::Pause { sleep_ms: 10 }) && *final(self) == *old(self)
            } else {
                &&& final(self).tally == launched(old(self).tally)
                &&& final(self).instance == old(self).instance + 1
                &&& r matches PumpStep::Launch { instance, sleep_ms } && sleep_ms == 1 && instance@
                    == "stress-test-"@ + text::decimal((old(self).instance + 1) as nat)
            },
    {
        let limit = Duration::from_secs(self.config.duration_secs);
        if elapsed.as_nanos() >= limit.as_nanos() {
            return PumpStep::Stop;
        }
        if self.tally.active >= self.config.max_concurrent {
            return PumpStep::Pause { sleep_ms: 10 };
        }
        self.instance = self.instance + 1;
        self.tally.launch();
        let instance = join2("stress-test-", u64_text(self.instance as u64).as_str());
        PumpStep::Launch { instance, sleep_ms: 1 }
    }

    /// Counts the end of a launched orchestration.
    pub fn end(&mut self, end: RunEnd)
        requires
            old(self).wf(),
            old(self).tally.active > 0,
        ensures
            final(self).wf(),
            *final(self) == (StressRun { tally: ended(old(self).tally, end), ..*old(self) }),
    {
        self.tally.end(end);
    }

    /// What the drain does next: it is done when nothing runs, and waits a
    /// tenth of a second otherwise, with a report every hundred waits. After
    /// two minutes of waits it gives up.
    pub fn drain(&mut self) -> (r: DrainStep)
        requires
            old(self).wf(),
        ensures
            final(self).wf(),
            if old(self).waits > MAX_DRAIN_WAITS {
                r is TimedOut && *final(self) == *old(self)
            } else if old(self).tally.active == 0 {
                r is Done && *final(self) == *old(self)
            } else {
                &&& r == (DrainStep::Wait { sleep_ms: 100, report: old(self).waits % 100 == 0 })
                &&& *final(self) == (StressRun {
                    waits: (old(self).waits + 1) as u64,
                    ..*old(self)
                })
            },
    {
        if self.waits > MAX_DRAIN_WAITS {
            return DrainStep::TimedOut;
        }
        if self.tally.active == 0 {
            return DrainStep::Done;
        }
        let report = self.waits % 100 == 0;
        self.waits = self.waits + 1;
        DrainStep::Wait { sleep_ms: 100, report }
    }
}

/// How a host is started for a stress test.
#[derive(Debug)]
pub struct HostOptions {
    /// The least time between two looks of a dispatcher that finds no work.
    pub dispatcher_min_poll_interval: Duration,
    /// How many orchestration dispatchers run.
    pub orchestration_concurrency: usize,
    /// How many worker dispatchers run.
    pub worker_concurrency: usize,
}

/// How a host is started for a stress test: it looks for work every 100 ms, with
/// as many dispatchers as the configuration says.
pub fn host_options(config: &StressTestConfig) -> (r: HostOptions)
    ensures
        r.dispatcher_min_poll_interval.wf(),
        r.dispatcher_min_poll_interval@ == 100_000_000,
        r.orchestration_concurrency == config.orch_concurrency,
        r.worker_concurrency == config.worker_concurrency,
{
    HostOptions {
        dispatcher_min_poll_interval: Duration::from_millis(100),
        orchestration_concurrency: config.orch_concurrency,
        worker_concurrency: config.worker_concurrency,
    }
}

/// The input of a fanned-out orchestration.
pub fn fanout_input(task_count: usize) -> (r: String)
    ensures
        r@ == json::object(seq![json::field("task_count"@, text::decimal(task_count as nat))]),
{
    let fields = vec![number_field("task_count", task_count as u64)];
    assert(json::field_texts(fields@) =~= seq![
        json::field("task_count"@, text::decimal(task_count as nat)),
    ]);
    object_text(&fields)
}

/// What a text that is to hold an object with a number under a key comes to:
/// the number if there is one, or the text of the error.
pub open spec fn json_number_under(text: Seq<char>, key: Seq<char>) -> Result<
    Option<u64>,
    Seq<char>,
> {
    match json::json_value(text) {
        Ok(numbers) => Ok(json::number_under(numbers, key)),
        Err(e) => Err(e),
    }
}

/// The number of tasks that a parsed input asks for: five where it names none.
pub open spec fn task_count_of(parsed: Result<Option<u64>, Seq<char>>) -> Result<u64, Seq<char>> {
    match parsed {
        Ok(Some(n)) => Ok(n),
        Ok(None) => Ok(5),
        Err(e) => Err("Invalid input: "@ + e),
    }
}

/// The view of a result whose error is a text.
pub open spec fn error_view<T>(r: Result<T, String>) -> Result<T, Seq<char>> {
    match r {
        Ok(v) => Ok(v),
        Err(e) => Err(e@),
    }
}

/// The number of tasks that a parsed input asks for.
pub fn task_count(parsed: Result<Option<u64>, String>) -> (r: Result<u64, String>)
    ensures
        error_view(r) == task_count_of(error_view(parsed)),
{
    match parsed {
        Ok(Some(n)) => Ok(n),
        Ok(None) => Ok(5),
        Err(e) => Err(join2("Invalid input: ", e.as_str())),
    }
}

/// The number of tasks that an input asks for.
pub fn read_task_count(input: &str) -> (r: Result<u64, String>)
    ensures
        error_view(r) == task_count_of(json_number_under(input@, "task_count"@)),
{
    match parse_value(input) {
        Ok(v) => task_count(Ok(number_at(&v, "task_count"))),
        Err(e) => task_count(Err(e)),
    }
}

/// The inputs of the tasks that an orchestration fans out to.
pub fn fanout_task_inputs(task_count: u64) -> (r: Vec<String>)
    requires
        task_count <= usize::MAX,
    ensures
        r@.len() == task_count,
        forall|i: int|
            0 <= i < r@.len() ==> (#[trigger] r@[i])@ == "task-"@ + text::decimal(i as nat),
{
    let mut inputs: Vec<String> = Vec::new();
    let mut i: u64 = 0;
    while i < task_count
        invariant
            i <= task_count,
            inputs@.len() == i,
            forall|k: int|
                0 <= k < i ==> (#[trigger] inputs@[k])@ == "task-"@ + text::decimal(k as nat),
        decreases task_count - i,
    {
        inputs.push(join2("task-", u64_text(i).as_str()));
        i += 1;
    }
    inputs
}

/// The number of successes among results.
pub open spec fn successes(results: Seq<Result<String, String>>) -> nat
    decreases results.len(),
{
    if results.len() == 0 {
        0
    } else {
        successes(results.drop_last()) + if results.last() is Ok {
            1nat
        } else {
            0nat
        }
    }
}

/// The number of successes among results.
pub fn count_successes(results: &Vec<Result<String, String>>) -> (r: usize)
    ensures
        r == successes(results@),
{
    let mut i: usize = 0;
    let mut n: usize = 0;
    assert(results@.take(0) =~= Seq::empty());
    while i < results.len()
        invariant
            i <= results@.len(),
            n <= i,
            n == successes(results@.take(i as int)),
        decreases results@.len() - i,
    {
        assert(results@.take(i + 1).drop_last() =~= results@.take(i as int));
        assert(results@.take(i + 1).last() == results@[i as int]);
        if results[i].is_ok() {
            n += 1;
        }
        i += 1;
    }
    assert(results@.take(i as int) =~= results@);
    n
}

/// There are as many successes as results exactly when every result is one.
pub proof fn law_every_success_counts(results: Seq<Result<String, String>>)
    ensures
        successes(results) <= results.len(),
        successes(results) == results.len() <==> forall|i: int|
            0 <= i < results.len() ==> (#[trigger] results[i]) is Ok,
    decreases results.len(),
{
    if results.len() > 0 {
        let rest = results.drop_last();
        law_every_success_counts(rest);
        if successes(results) == results.len() {
            assert forall|i: int| 0 <= i < results.len() implies (#[trigger] results[i]) is Ok by {
                if i < rest.len() {
                    assert(rest[i] is Ok);
                }
            }
        }
        if forall|i: int| 0 <= i < results.len() ==> (#[trigger] results[i]) is Ok {
            assert(results[results.len() - 1] is Ok);
            assert forall|i: int| 0 <= i < rest.len() implies (#[trigger] rest[i]) is Ok by {
                assert(results[i] is Ok);
            }
        }
    }
}

/// The output of a task.
pub fn processed(input: &str) -> (r: String)
    ensures
        r@ == "processed: "@ + input@,
{
    join2("processed: ", input)
}

/// The characters that payloads repeat.
pub const PAYLOAD_PATTERN: &'static str =
    "0123456789abcdefghijklmnopqrstuvwxyzABCDEFGHIJKLMNOPQRSTUVWXYZ!@#$%^&*()";

/// A payload of `n` characters: the pattern over and over.
pub open spec fn payload(n: nat) -> Seq<char> {
    Seq::new(n, |i: int| PAYLOAD_PATTERN@[i % 72])
}

/// The size in characters of a payload of `kb` KB fits in memory.
pub open spec fn payload_fits(kb: usize) -> bool {
    kb * 1024 + 72 <= isize::MAX
}

/// A payload of `kb` KB, one byte per character.
pub fn generate_payload(kb: usize) -> (r: String)
    requires
        payload_fits(kb),
    ensures
        r@ == payload((kb * 1024) as nat),
{
    proof {
        reveal_strlit("0123456789abcdefghijklmnopqrstuvwxyzABCDEFGHIJKLMNOPQRSTUVWXYZ!@#$%^&*()");
    }
    let target: usize = kb * 1024;
    let mut s = String::new();
    let mut done: usize = 0;
    while target - done >= 72
        invariant
            done <= target,
            done % 72 == 0,
            target <= isize::MAX,
            PAYLOAD_PATTERN@.len() == 72,
            s@.len() == done,
            forall|i: int| 0 <= i < done ==> #[trigger] s@[i] == PAYLOAD_PATTERN@[i % 72],
        decreases target - done,
    {
        s.append(PAYLOAD_PATTERN);
        done += 72;
    }
    let tail = PAYLOAD_PATTERN.substring_ascii(0, target - done);
    s.append(tail);
    assert(s@ =~= payload((kb * 1024) as nat));
    s
}

/// A payload of `kb` KB has that size.
pub proof fn law_payload_size(kb: nat)
    ensures
        payload(kb * 1024).len() == kb * 1024,
{
}

/// The pump stops once its time is over, pauses while as many run as may, and else
/// launches one instance more, numbered on from the last one; and it launches
/// nothing in the first two cases.
pub proof fn law_the_pump_keeps_to_its_limits(run: &mut StressRun, elapsed: &Duration, r: PumpStep)
    requires
        call_ensures(StressRun::pump, (run, elapsed), r),
        old(run).wf(),
        old(run).tally.launched < usize::MAX,
    ensures
        r is Stop <==> elapsed@ >= old(run).config.duration_secs * 1_000_000_000,
        r is Pause <==> !(r is Stop) && old(run).tally.active >= old(run).config.max_concurrent,
        r is Pause ==> r == (PumpStep::Pause { sleep_ms: 10 }),
        r is Stop || r is Pause ==> *final(run) == *old(run),
        r matches PumpStep::Launch { instance, sleep_ms } ==> {
            &&& sleep_ms == 1
            &&& final(run).instance == old(run).instance + 1
            &&& instance@ == "stress-test-"@ + text::decimal(final(run).instance as nat)
            &&& final(run).tally.launched == old(run).tally.launched + 1
            &&& final(run).tally.active == old(run).tally.active + 1
            &&& final(run).tally.active <= old(run).config.max_concurrent
            &&& final(run).tally.completed == old(run).tally.completed
            &&& final(run).tally.failed == old(run).tally.failed
        },
        final(run).config == old(run).config,
        final(run).waits == old(run).waits,
{
}

/// Each end is counted once: a completion as such, everything else as a failure,
/// and a failure with details under its cause, where a poisoned message counts as
/// one of the infrastructure.
pub proof fn law_ends_are_counted_by_their_cause(run: &mut StressRun, end: RunEnd)
    requires
        call_ensures(StressRun::end, (run, end), ()),
        old(run).wf(),
        old(run).tally.active > 0,
    ensures
        ({
            let a = old(run).tally;
            let b = final(run).tally;
            let infrastructure = end matches RunEnd::Failed(d) && (d is Infrastructure
                || d is Poison);
            let configuration = end matches RunEnd::Failed(d) && d is Configuration;
            let application = end matches RunEnd::Failed(d) && d is Application;
            &&& b.active == a.active - 1
            &&& b.launched == a.launched
            &&& b.completed == a.completed + (if end is Completed {
                1int
            } else {
                0
            })
            &&& b.failed == a.failed + (if end is Completed {
                0int
            } else {
                1
            })
            &&& b.failed_infrastructure == a.failed_infrastructure + (if infrastructure {
                1int
            } else {
                0
            })
            &&& b.failed_configuration == a.failed_configuration + (if configuration {
                1int
            } else {
                0
            })
            &&& b.failed_application == a.failed_application + (if application {
                1int
            } else {
                0
            })
        }),
        final(run).config == old(run).config,
        final(run).instance == old(run).instance,
        final(run).waits == old(run).waits,
{
}

/// The drain is done exactly when nothing runs, unless it has given up; it gives up
/// after 1201 waits of a tenth of a second, and reports on every hundredth.
pub proof fn law_the_drain_waits_for_what_runs(run: &mut StressRun, r: DrainStep)
    requires
        call_ensures(StressRun::drain, (run,), r),
    ensures
        r is TimedOut <==> old(run).waits > 1200,
        r is Done <==> old(run).waits <= 1200 && old(run).tally.active == 0,
        r matches DrainStep::Wait { sleep_ms, report } ==> {
            &&& sleep_ms == 100
            &&& report <==> old(run).waits % 100 == 0
            &&& final(run).waits == old(run).waits + 1
        },
        !(r is Wait) ==> final(run).waits == old(run).waits,
        final(run).tally == old(run).tally,
        final(run).config == old(run).config,
        final(run).instance == old(run).instance,
{
}

/// A run starts with nothing launched and nothing counted.
pub proof fn law_a_run_starts_from_nothing(
    config: StressTestConfig,
    run: StressRun,
    tally: StressTally,
)
    requires
        call_ensures(StressRun::new, (config,), run),
        call_ensures(StressTally::new, (), tally),
    ensures
        run.config == config,
        run.instance == 0 && run.waits == 0,
        run.tally.launched == 0 && run.tally.active == 0 && run.tally.completed == 0
            && run.tally.failed == 0,
        tally.launched == 0 && tally.active == 0 && tally.completed == 0 && tally.failed == 0,
        tally.failed_infrastructure == 0 && tally.failed_configuration == 0
            && tally.failed_application == 0,
{
}

/// An input that names a number of tasks asks for that many, one that names none for
/// five, and one that is no JSON is refused with the reason.
pub proof fn law_task_counts(
    n: u64,
    e: String,
    named: Result<u64, String>,
    unnamed: Result<u64, String>,
    refused: Result<u64, String>,
)
    requires
        call_ensures(task_count, (Ok(Some(n)),), named),
        call_ensures(task_count, (Ok(None),), unnamed),
        call_ensures(task_count, (Err(e),), refused),
    ensures
        named == Ok::<u64, String>(n),
        unnamed == Ok::<u64, String>(5),
        refused matches Err(t) && t@ == "Invalid input: "@ + e@,
{
}

/// Tasks are numbered from 0, and the output of a task says what it worked on.
pub proof fn law_tasks_are_numbered(
    n: u64,
    inputs: Vec<String>,
    i: int,
    input: &str,
    output: String,
)
    requires
        call_ensures(fanout_task_inputs, (n,), inputs),
        call_ensures(processed, (input,), output),
        0 <= i < n,
    ensures
        inputs@.len() == n,
        inputs@[i]@ == "task-"@ + text::decimal(i as nat),
        output@ == "processed: "@ + input@,
{
}

/// One more result is one more success exactly if it is one; without results there
/// is none.
pub proof fn law_successes_add_up(
    results: &Vec<Result<String, String>>,
    more: &Vec<Result<String, String>>,
    last: Result<String, String>,
    empty: &Vec<Result<String, String>>,
    a: usize,
    b: usize,
    none: usize,
)
    requires
        call_ensures(count_successes, (results,), a),
        call_ensures(count_successes, (more,), b),
        call_ensures(count_successes, (empty,), none),
        more@ == results@.push(last),
        empty@.len() == 0,
    ensures
        last is Ok ==> b == a + 1,
        last is Err ==> b == a,
        none == 0,
{
    assert(more@.drop_last() =~= results@);
    assert(more@.last() == last);
}

/// A payload has as many characters as its kilobytes ask for, begins with the digits
/// and letters of the pattern, and repeats it.
pub proof fn law_a_payload_repeats_its_pattern(kb: usize, r: String, i: int)
    requires
        call_ensures(generate_payload, (kb,), r),
        0 <= i < kb * 1024,
    ensures
        r@.len() == kb * 1024,
        i < 72 ==> r@[i]
            == "0123456789abcdefghijklmnopqrstuvwxyzABCDEFGHIJKLMNOPQRSTUVWXYZ!@#$%^&*()"@[i],
        i >= 72 ==> r@[i] == r@[i - 72],
{
    if i < 72 {
        assert(i % 72 == i);
    } else {
        assert(i % 72 == (i - 72) % 72);
    }
}

/// A host gets as many dispatchers of each kind as the configuration says.
pub proof fn law_a_host_follows_the_configuration(config: &StressTestConfig, r: HostOptions)
    requires
        call_ensures(host_options, (config,), r),
    ensures
        r.orchestration_concurrency == config.orch_concurrency,
        r.worker_concurrency == config.worker_concurrency,
        r.dispatcher_min_poll_interval@ == 100 * 1_000_000,
{
}

/// A launch counts as launched and as active, and as nothing else; the end of what
/// was launched takes it from the active ones again.
pub proof fn law_a_launch_is_active_until_it_ends(
    t: &mut StressTally,
    u: &mut StressTally,
    end: RunEnd,
)
    requires
        tally_wf(*old(t)),
        old(t).launched < usize::MAX,
        call_ensures(StressTally::launch, (t,), ()),
        *old(u) == *final(t),
        call_ensures(StressTally::end, (u, end), ()),
    ensures
        final(t).launched == old(t).launched + 1,
        final(t).active == old(t).active + 1,
        final(t).completed == old(t).completed && final(t).failed == old(t).failed,
        final(t).failed_infrastructure == old(t).failed_infrastructure,
        final(t).failed_configuration == old(t).failed_configuration,
        final(t).failed_application == old(t).failed_application,
        final(u).launched == old(t).launched + 1,
        final(u).active == old(t).active,
        end is Completed ==> final(u).completed == old(t).completed + 1 && final(u).failed == old(
            t,
        ).failed,
        !(end is Completed) ==> final(u).failed == old(t).failed + 1 && final(u).completed == old(
            t,
        ).completed,
{
}

/// A run ends in its tally as the tally says.
pub proof fn law_a_run_counts_in_its_tally(run: &mut StressRun, t: &mut StressTally, end: RunEnd)
    requires
        *old(t) == old(run).tally,
        call_ensures(StressRun::end, (run, end), ()),
        call_ensures(StressTally::end, (t, end), ()),
    ensures
        final(run).tally == *final(t),
{
}

/// An input that is made for a number of tasks is an object with that number under
/// `task_count`, and what is read of an input is the number that stands there.
pub proof fn law_inputs_name_their_number_of_tasks(
    n: usize,
    written: String,
    input: &str,
    r: Result<u64, String>,
)
    requires
        call_ensures(fanout_input, (n,), written),
        call_ensures(read_task_count, (input,), r),
    ensures
        written@ == json::object(seq![json::field("task_count"@, text::decimal(n as nat))]),
        json::json_value(input@) matches Ok(numbers) ==> r == Ok::<u64, String>(
            if numbers.contains_key("task_count"@) {
                numbers["task_count"@]
            } else {
                5
            },
        ),
        json::json_value(input@) matches Err(e) ==> (r matches Err(t) && t@ == "Invalid input: "@
            + e),
{
}

/// What a run does where nothing else is said: twenty orchestrations at a time for
/// ten seconds, or five of them with large payloads.
pub proof fn law_default_runs(plain: StressTestConfig, large: LargePayloadConfig, secs: u64)
    requires
        call_ensures(StressTestConfig::default, (), plain),
        call_ensures(LargePayloadConfig::default, (), large),
        call_ensures(default_wait_timeout_secs, (), secs),
    ensures
        secs == 60 && plain.wait_timeout_secs == secs && large.base.wait_timeout_secs == 2 * secs,
        plain.max_concurrent == 20 && large.base.max_concurrent == 5,
        plain.duration_secs == 10 && large.base.duration_secs == 10,
        plain.tasks_per_instance == 5 && large.base.tasks_per_instance == 1,
        plain.activity_delay_ms == 10 && large.base.activity_delay_ms == 5,
        plain.orch_concurrency == 2 && plain.worker_concurrency == 2,
        large.base.orch_concurrency == 1 && large.base.worker_concurrency == 1,
        large.small_payload_kb == 10 && large.medium_payload_kb == 50 && large.large_payload_kb
            == 100,
        large.activity_count == 20 && large.sub_orch_count == 5,
{
}

} // verus!
