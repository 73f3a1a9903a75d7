//! The activities and orchestrations that stress tests run.
use crate::json::{self, flag_field, number_field, object_text, parse_value, text_field};
use crate::stress::{
    self, count_successes, fanout_task_inputs, generate_payload, processed, read_task_count,
    LargePayloadConfig,
};
use crate::text::{self, join2, join3, same_text, u64_text};
use crate::workflow::{Step, Work, Workflow};
use vstd::prelude::*;

verus! {

/// What an activity of a stress test does, after a delay.
#[derive(Debug, Clone, Copy, PartialEq, Eq, Structural)]
pub enum Task {
    /// Says that its input was processed.
    Process { delay_ms: u64 },
    /// Answers with a payload of this many KB.
    Payload { delay_ms: u64, kb: usize },
}

/// What an orchestration of a stress test does.
#[derive(Debug, Clone, Copy, PartialEq, Eq, Structural)]
pub enum Workload {
    /// Fans out to activities and waits for all.
    Fanout,
    /// Builds a long history of large payloads.
    LargePayload { config: LargePayloadConfig },
    /// Runs two activities with large payloads.
    LargePayloadSub { small_kb: usize, medium_kb: usize },
}

/// What stands under a name in a list of named things.
pub open spec fn registered<T>(entries: Seq<(&'static str, T)>, name: Seq<char>) -> Option<T>
    decreases entries.len(),
{
    if entries.len() == 0 {
        None
    } else if entries.last().0@ == name {
        Some(entries.last().1)
    } else {
        registered(entries.drop_last(), name)
    }
}

/// Activities by name.
#[derive(Debug)]
pub struct ActivityRegistry {
    pub entries: Vec<(&'static str, Task)>,
}

/// Orchestrations by name.
#[derive(Debug)]
pub struct OrchestrationRegistry {
    pub entries: Vec<(&'static str, Workload)>,
}

/// Looks a name up.
fn look_up<T: Copy>(entries: &Vec<(&'static str, T)>, name: &str) -> (r: Option<T>)
    ensures
        r == registered(entries@, name@),
{
    let mut i: usize = entries.len();
    assert(entries@.take(i as int) =~= entries@);
    while i > 0
        invariant
            i <= entries@.len(),
            registered(entries@.take(i as int), name@) == registered(entries@, name@),
        decreases i,
    {
        i -= 1;
        assert(entries@.take(i + 1).last() == entries@[i as int]);
        assert(entries@.take(i + 1).drop_last() =~= entries@.take(i as int));
        if same_text(entries[i].0, name) {
            return Some(entries[i].1);
        }
    }
    None
}

impl ActivityRegistry {
    /// The activity under a name.
    pub fn get(&self, name: &str) -> (r: Option<Task>)
        ensures
            r == registered(self.entries@, name@),
    {
        look_up(&self.entries, name)
    }
}

impl OrchestrationRegistry {
    /// The orchestration under a name.
    pub fn get(&self, name: &str) -> (r: Option<Workload>)
        ensures
            r == registered(self.entries@, name@),
    {
        look_up(&self.entries, name)
    }
}

/// The activity of the default stress test.
pub fn create_default_activities(delay_ms: u64) -> (r: ActivityRegistry)
    ensures
        r.entries@ == seq![("ProcessTask", Task::Process { delay_ms })],
{
    ActivityRegistry { entries: vec![("ProcessTask", Task::Process { delay_ms })] }
}

/// The orchestration of the default stress test.
pub fn create_default_orchestrations() -> (r: OrchestrationRegistry)
    ensures
        r.entries@ == seq![("FanoutOrchestration", Workload::Fanout)],
{
    OrchestrationRegistry { entries: vec![("FanoutOrchestration", Workload::Fanout)] }
}

/// The activities of the stress test with large payloads.
pub fn create_large_payload_activities(
    delay_ms: u64,
    small_kb: usize,
    medium_kb: usize,
    large_kb: usize,
) -> (r: ActivityRegistry)
    ensures
        r.entries@ == seq![
            ("SmallPayloadTask", Task::Payload { delay_ms, kb: small_kb }),
            ("MediumPayloadTask", Task::Payload { delay_ms, kb: medium_kb }),
            ("LargePayloadTask", Task::Payload { delay_ms, kb: large_kb }),
        ],
{
    ActivityRegistry {
        entries: vec![
            ("SmallPayloadTask", Task::Payload { delay_ms, kb: small_kb }),
            ("MediumPayloadTask", Task::Payload { delay_ms, kb: medium_kb }),
            ("LargePayloadTask", Task::Payload { delay_ms, kb: large_kb }),
        ],
    }
}

/// The orchestrations of the stress test with large payloads. The main one
/// also stands under the name that the runner starts.
pub fn create_large_payload_orchestrations(config: LargePayloadConfig) -> (r: OrchestrationRegistry)
    ensures
        r.entries@ == seq![
            ("FanoutOrchestration", Workload::LargePayload { config }),
            ("LargePayloadOrchestration", Workload::LargePayload { config }),
            (
                "LargePayloadSubOrchestration",
                Workload::LargePayloadSub {
                    small_kb: config.small_payload_kb,
                    medium_kb: config.medium_payload_kb,
                },
            ),
        ],
{
    OrchestrationRegistry {
        entries: vec![
            ("FanoutOrchestration", Workload::LargePayload { config }),
            ("LargePayloadOrchestration", Workload::LargePayload { config }),
            (
                "LargePayloadSubOrchestration",
                Workload::LargePayloadSub {
                    small_kb: config.small_payload_kb,
                    medium_kb: config.medium_payload_kb,
                },
            ),
        ],
    }
}

/// The answer of an activity with a payload.
pub open spec fn payload_answer(input: Seq<char>, kb: usize) -> Seq<char> {
    json::object(
        seq![
            json::field("input"@, json::json_quoted(input)),
            json::field("payload"@, json::json_quoted(stress::payload((kb * 1024) as nat))),
            json::field("size_kb"@, text::decimal(kb as nat)),
        ],
    )
}

impl Task {
    /// How long the activity takes, in milliseconds.
    pub fn delay_ms(&self) -> (r: u64)
        ensures
            r == (match *self {
                Task::Process { delay_ms } => delay_ms,
                Task::Payload { delay_ms, .. } => delay_ms,
            }),
    {
        match self {
            Task::Process { delay_ms } => *delay_ms,
            Task::Payload { delay_ms, .. } => *delay_ms,
        }
    }

    /// What the activity answers to `input`.
    pub fn answer(&self, input: &str) -> (r: String)
        requires
            *self matches Task::Payload { kb, .. } ==> stress::payload_fits(kb),
        ensures
            r@ == (match *self {
                Task::Process { .. } => "processed: "@ + input@,
                Task::Payload { kb, .. } => payload_answer(input@, kb),
            }),
    {
        match self {
            Task::Process { .. } => processed(input),
            Task::Payload { kb, .. } => {
                let fields = vec![
                    text_field("input", input),
                    text_field("payload", generate_payload(*kb).as_str()),
                    number_field("size_kb", *kb as u64),
                ];
                proof {
                    reveal_strlit("input");
                    reveal_strlit("payload");
                    reveal_strlit("size_kb");
                    assert(json::precedes_at("input"@, "payload"@, 0));
                    assert(json::precedes_at("input"@, "size_kb"@, 0));
                    assert(json::precedes_at("payload"@, "size_kb"@, 0));
                }
                assert(json::field_texts(fields@) =~= seq![
                    json::field("input"@, json::json_quoted(input@)),
                    json::field(
                        "payload"@,
                        json::json_quoted(stress::payload((*kb * 1024) as nat)),
                    ),
                    json::field("size_kb"@, text::decimal(*kb as nat)),
                ]);
                object_text(&fields)
            },
        }
    }
}

/// Whether an input is JSON at all, with an explanation where it is not.
pub open spec fn input_checked<T>(parsed: Result<T, Seq<char>>) -> Result<(), Seq<char>> {
    match parsed {
        Ok(_) => Ok(()),
        Err(e) => Err("Invalid input: "@ + e),
    }
}

/// Whether a parsed input was JSON at all.
pub fn explain_input(parsed: Result<(), String>) -> (r: Result<(), String>)
    ensures
        stress::error_view(r) == input_checked(stress::error_view(parsed)),
{
    match parsed {
        Ok(_) => Ok(()),
        Err(e) => Err(join2("Invalid input: ", e.as_str())),
    }
}

/// Whether an input is JSON at all.
pub fn check_input(input: &str) -> (r: Result<(), String>)
    ensures
        stress::error_view(r) == input_checked(json::json_value(input@)),
{
    match parse_value(input) {
        Ok(_) => explain_input(Ok(())),
        Err(e) => explain_input(Err(e)),
    }
}

/// The step waits for one activity.
pub open spec fn awaits_activity(step: Step, name: Seq<char>, input: Seq<char>) -> bool {
    step matches Step::Await { work, name: n, inputs } && work is Activity && n@ == name
        && inputs@.len() == 1 && inputs@[0]@ == input
}

/// The step is a successful end.
pub open spec fn ends_with(step: Step, output: Seq<char>) -> bool {
    step matches Step::Finish(Ok(s)) && s@ == output
}

/// Waits for one activity.
pub fn activity_step(name: &'static str, input: String) -> (r: Step)
    ensures
        awaits_activity(r, name@, input@),
{
    Step::Await { work: Work::Activity, name, inputs: vec![input] }
}

/// An orchestration that fans out to activities and waits for all of them.
#[derive(Debug, Clone, Copy, PartialEq, Eq, Structural)]
pub struct FanoutRun {
    pub task_count: usize,
    /// How many succeeded, once they are over.
    pub succeeded: Option<usize>,
}

/// The output of a fan-out.
pub open spec fn fanout_output(task_count: nat, succeeded: nat) -> Seq<char> {
    "Completed "@ + text::decimal(task_count) + " tasks ("@ + text::decimal(succeeded)
        + " succeeded)"@
}

impl View for FanoutRun {
    type V = FanoutRun;

    open spec fn view(&self) -> FanoutRun {
        *self
    }
}

impl Workflow for FanoutRun {
    open spec fn valid(w: FanoutRun) -> bool {
        true
    }

    /// All activities at once, and then the end.
    open spec fn is_next(w: FanoutRun, step: Step) -> bool {
        match w.succeeded {
            None => step matches Step::Await { work, name, inputs } && work is Activity && name@
                == "ProcessTask"@ && inputs@.len() == w.task_count && forall|i: int|
                0 <= i < inputs@.len() ==> (#[trigger] inputs@[i])@ == "task-"@ + text::decimal(
                    i as nat,
                ),
            Some(n) => ends_with(step, fanout_output(w.task_count as nat, n as nat)),
        }
    }

    open spec fn awaits(w: FanoutRun, n: nat) -> bool {
        w.succeeded is None && n == w.task_count
    }

    open spec fn resumed(w: FanoutRun, results: Seq<Result<String, String>>) -> FanoutRun {
        FanoutRun { succeeded: Some(stress::successes(results) as usize), ..w }
    }

    open spec fn waits_left(w: FanoutRun) -> nat {
        if w.succeeded is None {
            1
        } else {
            0
        }
    }

    fn next_step(&self) -> (r: Step) {
        match self.succeeded {
            None => Step::Await {
                work: Work::Activity,
                name: "ProcessTask",
                inputs: fanout_task_inputs(self.task_count as u64),
            },
            Some(n) => {
                let count = u64_text(self.task_count as u64);
                let mut s = join3("Completed ", count.as_str(), " tasks (");
                s.append(u64_text(n as u64).as_str());
                s.append(" succeeded)");
                Step::Finish(Ok(s))
            },
        }
    }

    fn resume(&mut self, results: Vec<Result<String, String>>) {
        self.succeeded = Some(count_successes(&results));
    }
}

/// The orchestration that fans out to as many activities as its input asks
/// for. An input that is no JSON is refused.
pub fn fanout_orchestration(input: &str) -> (r: Result<FanoutRun, String>)
    ensures
        match stress::task_count_of(stress::json_number_under(input@, "task_count"@)) {
            Ok(n) => r == Ok::<FanoutRun, String>(
                FanoutRun { task_count: n as usize, succeeded: None },
            ),
            Err(e) => r matches Err(text) && text@ == e,
        },
{
    match read_task_count(input) {
        Ok(n) => Ok(FanoutRun { task_count: n as usize, succeeded: None }),
        Err(e) => Err(e),
    }
}

/// The number of activities with small, and with medium, payloads.
pub open spec fn third(activity_count: usize) -> int {
    activity_count as int / 3
}

/// The number of events of a whole run.
pub open spec fn event_estimate(config: LargePayloadConfig) -> int {
    2 * config.activity_count + 4 * config.sub_orch_count + 20
}

/// The payloads fit in memory and the events can be counted.
pub open spec fn workload_fits(config: LargePayloadConfig) -> bool {
    &&& stress::payload_fits(config.small_payload_kb)
    &&& stress::payload_fits(config.medium_payload_kb)
    &&& stress::payload_fits(config.large_payload_kb)
    &&& event_estimate(config) <= i32::MAX
}

/// An indexed input with a payload.
pub open spec fn indexed_input(index: nat, kb: nat) -> Seq<char> {
    json::object(
        seq![
            json::field("data"@, json::json_quoted(stress::payload(kb * 1024))),
            json::field("index"@, text::decimal(index)),
        ],
    )
}

/// The input of the sub-orchestration with this index.
pub open spec fn sub_input(index: nat, kb: nat) -> Seq<char> {
    json::object(
        seq![
            json::field("index"@, text::decimal(index)),
            json::field("payload"@, json::json_quoted(stress::payload(kb * 1024))),
        ],
    )
}

/// The activity with index `step` of the first three phases: small, medium
/// with half-size inputs, and large with quarter-size inputs.
pub open spec fn phase_activity(config: LargePayloadConfig, step: int) -> (Seq<char>, Seq<char>) {
    let n = third(config.activity_count);
    if step < n {
        ("SmallPayloadTask"@, indexed_input(step as nat, config.small_payload_kb as nat))
    } else if step < 2 * n {
        (
            "MediumPayloadTask"@,
            indexed_input((step - n) as nat, config.medium_payload_kb as nat / 2),
        )
    } else {
        (
            "LargePayloadTask"@,
            indexed_input((step - 2 * n) as nat, config.large_payload_kb as nat / 4),
        )
    }
}

/// An orchestration with large payloads as it runs.
#[derive(Debug)]
pub struct LargePayloadRun {
    pub config: LargePayloadConfig,
    /// How many activities of the first three phases are over.
    pub step: usize,
    /// Whether the sub-orchestrations are over.
    pub subs_done: bool,
    /// How many of the ten closing activities are over.
    pub closing: usize,
    pub succeeded: usize,
    pub sub_succeeded: usize,
    pub event_count: usize,
}

/// The output of the whole.
pub open spec fn payload_output(r: LargePayloadRun) -> Seq<char> {
    json::object(
        seq![
            json::field("activities_completed"@, text::decimal(r.succeeded as nat)),
            json::field("estimated_event_count"@, text::decimal(r.event_count as nat)),
            json::field(
                "result_payload"@,
                json::json_quoted(stress::payload((r.config.large_payload_kb * 1024) as nat)),
            ),
            json::field("result_size_kb"@, text::decimal(r.config.large_payload_kb as nat)),
            json::field("sub_orchestrations_completed"@, text::decimal(r.sub_succeeded as nat)),
        ],
    )
}

/// An input with an index and a payload.
fn indexed_text(index: usize, kb: usize) -> (r: String)
    requires
        stress::payload_fits(kb),
    ensures
        r@ == indexed_input(index as nat, kb as nat),
{
    let fields = vec![
        text_field("data", generate_payload(kb).as_str()),
        number_field("index", index as u64),
    ];
    proof {
        reveal_strlit("data");
        reveal_strlit("index");
        assert(json::precedes_at("data"@, "index"@, 0));
    }
    assert(json::field_texts(fields@) =~= seq![
        json::field("data"@, json::json_quoted(stress::payload((kb * 1024) as nat))),
        json::field("index"@, text::decimal(index as nat)),
    ]);
    object_text(&fields)
}

/// A run that has done nothing yet.
pub open spec fn payload_start(config: LargePayloadConfig) -> LargePayloadRun {
    LargePayloadRun {
        config,
        step: 0,
        subs_done: false,
        closing: 0,
        succeeded: 0,
        sub_succeeded: 0,
        event_count: 0,
    }
}

impl LargePayloadRun {
    /// A run that starts.
    pub fn new(config: LargePayloadConfig) -> (r: Self)
        requires
            workload_fits(config),
        ensures
            LargePayloadRun::valid(r),
            r == payload_start(config),
    {
        LargePayloadRun {
            config,
            step: 0,
            subs_done: false,
            closing: 0,
            succeeded: 0,
            sub_succeeded: 0,
            event_count: 0,
        }
    }

    /// The inputs of the sub-orchestrations.
    fn sub_inputs(&self) -> (r: Vec<String>)
        requires
            LargePayloadRun::valid(*self),
        ensures
            r@.len() == self.config.sub_orch_count,
            forall|i: int|
                0 <= i < r@.len() ==> (#[trigger] r@[i])@ == sub_input(
                    i as nat,
                    self.config.medium_payload_kb as nat,
                ),
    {
        let mut inputs: Vec<String> = Vec::new();
        let mut i: usize = 0;
        while i < self.config.sub_orch_count
            invariant
                LargePayloadRun::valid(*self),
                i <= self.config.sub_orch_count,
                inputs@.len() == i,
                forall|k: int|
                    0 <= k < i ==> (#[trigger] inputs@[k])@ == sub_input(
                        k as nat,
                        self.config.medium_payload_kb as nat,
                    ),
            decreases self.config.sub_orch_count - i,
        {
            let kb: usize = self.config.medium_payload_kb;
            let fields = vec![
                number_field("index", i as u64),
                text_field("payload", generate_payload(kb).as_str()),
            ];
            proof {
                reveal_strlit("index");
                reveal_strlit("payload");
                assert(json::precedes_at("index"@, "payload"@, 0));
            }
            assert(json::field_texts(fields@) =~= seq![
                json::field("index"@, text::decimal(i as nat)),
                json::field("payload"@, json::json_quoted(stress::payload((kb * 1024) as nat))),
            ]);
            inputs.push(object_text(&fields));
            i += 1;
        }
        inputs
    }
}

/// The run after one more activity is over.
pub open spec fn activity_counted(r: LargePayloadRun, ok: bool) -> LargePayloadRun {
    let counted = LargePayloadRun {
        succeeded: (r.succeeded + if ok {
            1int
        } else {
            0int
        }) as usize,
        event_count: (r.event_count + 2) as usize,
        ..r
    };
    if r.step < r.config.activity_count {
        LargePayloadRun { step: (r.step + 1) as usize, ..counted }
    } else {
        LargePayloadRun { closing: (r.closing + 1) as usize, ..counted }
    }
}

/// The run after its sub-orchestrations are over.
pub open spec fn subs_counted(
    r: LargePayloadRun,
    results: Seq<Result<String, String>>,
) -> LargePayloadRun {
    LargePayloadRun {
        subs_done: true,
        sub_succeeded: stress::successes(results) as usize,
        event_count: (r.event_count + 4 * r.config.sub_orch_count) as usize,
        ..r
    }
}

/// Whether the sub-orchestrations come next.
pub open spec fn subs_are_next(r: LargePayloadRun) -> bool {
    r.step == r.config.activity_count && !r.subs_done
}

impl View for LargePayloadRun {
    type V = LargePayloadRun;

    open spec fn view(&self) -> LargePayloadRun {
        *self
    }
}

impl Workflow for LargePayloadRun {
    /// What is over is counted.
    open spec fn valid(w: LargePayloadRun) -> bool {
        &&& workload_fits(w.config)
        &&& w.step <= w.config.activity_count
        &&& w.subs_done ==> w.step == w.config.activity_count
        &&& w.closing <= 10
        &&& w.closing > 0 ==> w.subs_done
        &&& w.succeeded <= w.step + w.closing
        &&& w.event_count == 2 * (w.step + w.closing) + if w.subs_done {
            4 * w.config.sub_orch_count
        } else {
            0
        }
    }

    /// The activities of the first three phases one by one, the
    /// sub-orchestrations together, ten closing activities one by one, and
    /// the end.
    open spec fn is_next(w: LargePayloadRun, step: Step) -> bool {
        if w.step < w.config.activity_count {
            let (name, input) = phase_activity(w.config, w.step as int);
            awaits_activity(step, name, input)
        } else if !w.subs_done {
            step matches Step::Await { work, name, inputs } && work is SubOrchestration && name@
                == "LargePayloadSubOrchestration"@ && inputs@.len() == w.config.sub_orch_count
                && forall|i: int|
                0 <= i < inputs@.len() ==> (#[trigger] inputs@[i])@ == sub_input(
                    i as nat,
                    w.config.medium_payload_kb as nat,
                )
        } else if w.closing < 10 {
            awaits_activity(
                step,
                "SmallPayloadTask"@,
                "final-task-"@ + text::decimal(w.closing as nat),
            )
        } else {
            ends_with(step, payload_output(w))
        }
    }

    open spec fn awaits(w: LargePayloadRun, n: nat) -> bool {
        if subs_are_next(w) {
            n == w.config.sub_orch_count
        } else {
            n == 1 && (w.step < w.config.activity_count || w.closing < 10)
        }
    }

    open spec fn resumed(
        w: LargePayloadRun,
        results: Seq<Result<String, String>>,
    ) -> LargePayloadRun {
        if subs_are_next(w) {
            subs_counted(w, results)
        } else {
            activity_counted(w, results[0] is Ok)
        }
    }

    open spec fn waits_left(w: LargePayloadRun) -> nat {
        (w.config.activity_count - w.step + (if w.subs_done {
            0int
        } else {
            1int
        }) + 10 - w.closing) as nat
    }

    fn next_step(&self) -> (r: Step) {
        let n: usize = self.config.activity_count / 3;
        if self.step < self.config.activity_count {
            if self.step < n {
                activity_step(
                    "SmallPayloadTask",
                    indexed_text(self.step, self.config.small_payload_kb),
                )
            } else if self.step < 2 * n {
                activity_step(
                    "MediumPayloadTask",
                    indexed_text(self.step - n, self.config.medium_payload_kb / 2),
                )
            } else {
                activity_step(
                    "LargePayloadTask",
                    indexed_text(self.step - 2 * n, self.config.large_payload_kb / 4),
                )
            }
        } else if !self.subs_done {
            Step::Await {
                work: Work::SubOrchestration,
                name: "LargePayloadSubOrchestration",
                inputs: self.sub_inputs(),
            }
        } else if self.closing < 10 {
            activity_step(
                "SmallPayloadTask",
                join2("final-task-", u64_text(self.closing as u64).as_str()),
            )
        } else {
            let large_kb: usize = self.config.large_payload_kb;
            let fields = vec![
                number_field("activities_completed", self.succeeded as u64),
                number_field("estimated_event_count", self.event_count as u64),
                text_field("result_payload", generate_payload(large_kb).as_str()),
                number_field("result_size_kb", large_kb as u64),
                number_field("sub_orchestrations_completed", self.sub_succeeded as u64),
            ];
            proof {
                reveal_strlit("activities_completed");
                reveal_strlit("estimated_event_count");
                reveal_strlit("result_payload");
                reveal_strlit("result_size_kb");
                reveal_strlit("sub_orchestrations_completed");
                assert(json::precedes_at("activities_completed"@, "estimated_event_count"@, 0));
                assert(json::precedes_at("activities_completed"@, "result_payload"@, 0));
                assert(json::precedes_at("activities_completed"@, "result_size_kb"@, 0));
                assert(json::precedes_at(
                    "activities_completed"@,
                    "sub_orchestrations_completed"@,
                    0,
                ));
                assert(json::precedes_at("estimated_event_count"@, "result_payload"@, 0));
                assert(json::precedes_at("estimated_event_count"@, "result_size_kb"@, 0));
                assert(json::precedes_at(
                    "estimated_event_count"@,
                    "sub_orchestrations_completed"@,
                    0,
                ));
                assert(json::precedes_at("result_payload"@, "result_size_kb"@, 7));
                assert(json::precedes_at("result_payload"@, "sub_orchestrations_completed"@, 0));
                assert(json::precedes_at("result_size_kb"@, "sub_orchestrations_completed"@, 0));
            }
            assert(json::field_texts(fields@) =~= seq![
                json::field("activities_completed"@, text::decimal(self.succeeded as nat)),
                json::field("estimated_event_count"@, text::decimal(self.event_count as nat)),
                json::field(
                    "result_payload"@,
                    json::json_quoted(stress::payload((large_kb * 1024) as nat)),
                ),
                json::field("result_size_kb"@, text::decimal(large_kb as nat)),
                json::field(
                    "sub_orchestrations_completed"@,
                    text::decimal(self.sub_succeeded as nat),
                ),
            ]);
            Step::Finish(Ok(object_text(&fields)))
        }
    }

    fn resume(&mut self, results: Vec<Result<String, String>>) {
        if self.step == self.config.activity_count && !self.subs_done {
            self.sub_succeeded = count_successes(&results);
            self.event_count = self.event_count + 4 * self.config.sub_orch_count;
            self.subs_done = true;
        } else {
            if self.step < self.config.activity_count {
                self.step = self.step + 1;
            } else {
                self.closing = self.closing + 1;
            }
            if results[0].is_ok() {
                self.succeeded = self.succeeded + 1;
            }
            self.event_count = self.event_count + 2;
        }
    }
}

/// The orchestration that builds a long history of large payloads. An input
/// that is no JSON is refused.
pub fn large_payload_orchestration(input: &str, config: LargePayloadConfig) -> (r: Result<
    LargePayloadRun,
    String,
>)
    requires
        workload_fits(config),
    ensures
        match input_checked(json::json_value(input@)) {
            Ok(_) => r == Ok::<LargePayloadRun, String>(payload_start(config)),
            Err(e) => r matches Err(text) && text@ == e,
        },
        r matches Ok(run) ==> LargePayloadRun::valid(run),
{
    match check_input(input) {
        Ok(_) => Ok(LargePayloadRun::new(config)),
        Err(e) => Err(e),
    }
}

/// A run that comes to its end has counted all of its events.
pub proof fn law_event_estimate(r: LargePayloadRun)
    requires
        LargePayloadRun::valid(r),
        r.subs_done,
        r.closing == 10,
    ensures
        r.event_count == event_estimate(r.config),
{
}

/// A sub-orchestration with large payloads: two activities, one after the
/// other.
#[derive(Debug, Clone, Copy, PartialEq, Eq, Structural)]
pub struct LargePayloadSubRun {
    pub small_kb: usize,
    pub medium_kb: usize,
    /// Whether the first activity succeeded, once it is over.
    pub first: Option<bool>,
    /// Whether the second one did.
    pub second: Option<bool>,
}

/// The output of a sub-orchestration.
pub open spec fn sub_output(medium_kb: nat, success: bool) -> Seq<char> {
    json::object(
        seq![
            json::field("result_payload"@, json::json_quoted(stress::payload(medium_kb * 1024))),
            json::field("size_kb"@, text::decimal(medium_kb)),
            json::field("success"@, json::flag(success)),
        ],
    )
}

impl View for LargePayloadSubRun {
    type V = LargePayloadSubRun;

    open spec fn view(&self) -> LargePayloadSubRun {
        *self
    }
}

impl Workflow for LargePayloadSubRun {
    open spec fn valid(w: LargePayloadSubRun) -> bool {
        &&& stress::payload_fits(w.small_kb)
        &&& stress::payload_fits(w.medium_kb)
        &&& w.second is Some ==> w.first is Some
    }

    /// A small payload, half of a medium one, and the end: it succeeds when
    /// both activities did.
    open spec fn is_next(w: LargePayloadSubRun, step: Step) -> bool {
        match (w.first, w.second) {
            (Some(a), Some(b)) => ends_with(step, sub_output(w.medium_kb as nat, a && b)),
            (Some(_), None) => awaits_activity(
                step,
                "MediumPayloadTask"@,
                stress::payload(w.medium_kb as nat / 2 * 1024),
            ),
            (None, _) => awaits_activity(
                step,
                "SmallPayloadTask"@,
                stress::payload(w.small_kb as nat * 1024),
            ),
        }
    }

    open spec fn awaits(w: LargePayloadSubRun, n: nat) -> bool {
        n == 1 && w.second is None
    }

    open spec fn resumed(
        w: LargePayloadSubRun,
        results: Seq<Result<String, String>>,
    ) -> LargePayloadSubRun {
        if w.first is None {
            LargePayloadSubRun { first: Some(results[0] is Ok), ..w }
        } else {
            LargePayloadSubRun { second: Some(results[0] is Ok), ..w }
        }
    }

    open spec fn waits_left(w: LargePayloadSubRun) -> nat {
        if w.first is None {
            2
        } else if w.second is None {
            1
        } else {
            0
        }
    }

    fn next_step(&self) -> (r: Step) {
        match (self.first, self.second) {
            (Some(a), Some(b)) => {
                let fields = vec![
                    text_field("result_payload", generate_payload(self.medium_kb).as_str()),
                    number_field("size_kb", self.medium_kb as u64),
                    flag_field("success", a && b),
                ];
                proof {
                    reveal_strlit("result_payload");
                    reveal_strlit("size_kb");
                    reveal_strlit("success");
                    assert(json::precedes_at("result_payload"@, "size_kb"@, 0));
                    assert(json::precedes_at("result_payload"@, "success"@, 0));
                    assert(json::precedes_at("size_kb"@, "success"@, 1));
                }
                assert(json::field_texts(fields@) =~= seq![
                    json::field(
                        "result_payload"@,
                        json::json_quoted(stress::payload((self.medium_kb * 1024) as nat)),
                    ),
                    json::field("size_kb"@, text::decimal(self.medium_kb as nat)),
                    json::field("success"@, json::flag(a && b)),
                ]);
                Step::Finish(Ok(object_text(&fields)))
            },
            (Some(_), None) => activity_step(
                "MediumPayloadTask",
                generate_payload(self.medium_kb / 2),
            ),
            (None, _) => activity_step("SmallPayloadTask", generate_payload(self.small_kb)),
        }
    }

    fn resume(&mut self, results: Vec<Result<String, String>>) {
        if self.first.is_none() {
            self.first = Some(results[0].is_ok());
        } else {
            self.second = Some(results[0].is_ok());
        }
    }
}

/// The orchestration that runs two activities with large payloads. An input
/// that is no JSON is refused.
pub fn large_payload_sub_orchestration(
    input: &str,
    small_kb: usize,
    medium_kb: usize,
) -> (r: Result<LargePayloadSubRun, String>)
    requires
        stress::payload_fits(small_kb),
        stress::payload_fits(medium_kb),
    ensures
        match input_checked(json::json_value(input@)) {
            Ok(_) => r == Ok::<LargePayloadSubRun, String>(
                LargePayloadSubRun { small_kb, medium_kb, first: None, second: None },
            ),
            Err(e) => r matches Err(text) && text@ == e,
        },
        r matches Ok(run) ==> LargePayloadSubRun::valid(run),
{
    match check_input(input) {
        Ok(_) => Ok(LargePayloadSubRun { small_kb, medium_kb, first: None, second: None }),
        Err(e) => Err(e),
    }
}

/// An orchestration of a stress test as it runs.
#[derive(Debug)]
pub enum Running {
    Fanout(FanoutRun),
    LargePayload(LargePayloadRun),
    LargePayloadSub(LargePayloadSubRun),
}

impl View for Running {
    type V = Running;

    open spec fn view(&self) -> Running {
        *self
    }
}

impl Workflow for Running {
    open spec fn valid(w: Running) -> bool {
        match w {
            Running::Fanout(run) => FanoutRun::valid(run),
            Running::LargePayload(run) => LargePayloadRun::valid(run),
            Running::LargePayloadSub(run) => LargePayloadSubRun::valid(run),
        }
    }

    open spec fn is_next(w: Running, step: Step) -> bool {
        match w {
            Running::Fanout(run) => FanoutRun::is_next(run, step),
            Running::LargePayload(run) => LargePayloadRun::is_next(run, step),
            Running::LargePayloadSub(run) => LargePayloadSubRun::is_next(run, step),
        }
    }

    open spec fn awaits(w: Running, n: nat) -> bool {
        match w {
            Running::Fanout(run) => FanoutRun::awaits(run, n),
            Running::LargePayload(run) => LargePayloadRun::awaits(run, n),
            Running::LargePayloadSub(run) => LargePayloadSubRun::awaits(run, n),
        }
    }

    open spec fn resumed(w: Running, results: Seq<Result<String, String>>) -> Running {
        match w {
            Running::Fanout(run) => Running::Fanout(FanoutRun::resumed(run, results)),
            Running::LargePayload(run) => Running::LargePayload(
                LargePayloadRun::resumed(run, results),
            ),
            Running::LargePayloadSub(run) => Running::LargePayloadSub(
                LargePayloadSubRun::resumed(run, results),
            ),
        }
    }

    open spec fn waits_left(w: Running) -> nat {
        match w {
            Running::Fanout(run) => FanoutRun::waits_left(run),
            Running::LargePayload(run) => LargePayloadRun::waits_left(run),
            Running::LargePayloadSub(run) => LargePayloadSubRun::waits_left(run),
        }
    }

    fn next_step(&self) -> (r: Step) {
        match self {
            Running::Fanout(run) => run.next_step(),
            Running::LargePayload(run) => run.next_step(),
            Running::LargePayloadSub(run) => run.next_step(),
        }
    }

    fn resume(&mut self, results: Vec<Result<String, String>>) {
        match self {
            Running::Fanout(run) => run.resume(results),
            Running::LargePayload(run) => run.resume(results),
            Running::LargePayloadSub(run) => run.resume(results),
        }
    }
}

/// The payloads of the orchestration fit in memory.
pub open spec fn fits(w: Workload) -> bool {
    match w {
        Workload::Fanout => true,
        Workload::LargePayload { config } => workload_fits(config),
        Workload::LargePayloadSub { small_kb, medium_kb } => stress::payload_fits(small_kb)
            && stress::payload_fits(medium_kb),
    }
}

/// What an orchestration starts as, when its input parses to `parsed`.
pub open spec fn started(w: Workload, parsed: Result<Option<u64>, Seq<char>>) -> Result<
    Running,
    Seq<char>,
> {
    match stress::task_count_of(parsed) {
        Err(e) => Err(e),
        Ok(n) => Ok(
            match w {
                Workload::Fanout => Running::Fanout(
                    FanoutRun { task_count: n as usize, succeeded: None },
                ),
                Workload::LargePayload { config } => Running::LargePayload(payload_start(config)),
                Workload::LargePayloadSub { small_kb, medium_kb } => Running::LargePayloadSub(
                    LargePayloadSubRun { small_kb, medium_kb, first: None, second: None },
                ),
            },
        ),
    }
}

impl Workload {
    /// Starts the orchestration on an input.
    pub fn start(&self, input: &str) -> (r: Result<Running, String>)
        requires
            fits(*self),
        ensures
            stress::error_view(r) == started(
                *self,
                stress::json_number_under(input@, "task_count"@),
            ),
            r matches Ok(run) ==> Running::valid(run),
    {
        match self {
            Workload::Fanout => match fanout_orchestration(input) {
                Ok(run) => Ok(Running::Fanout(run)),
                Err(e) => Err(e),
            },
            Workload::LargePayload { config } => match large_payload_orchestration(
                input,
                *config,
            ) {
                Ok(run) => Ok(Running::LargePayload(run)),
                Err(e) => Err(e),
            },
            Workload::LargePayloadSub { small_kb, medium_kb } => {
                match large_payload_sub_orchestration(input, *small_kb, *medium_kb) {
                    Ok(run) => Ok(Running::LargePayloadSub(run)),
                    Err(e) => Err(e),
                }
            },
        }
    }
}

proof fn lemma_registered<T>(entries: Seq<(&'static str, T)>, name: Seq<char>, i: int)
    requires
        0 <= i < entries.len(),
        entries[i].0@ == name,
        forall|j: int| i < j < entries.len() ==> (#[trigger] entries[j]).0@ != name,
    ensures
        registered(entries, name) == Some(entries[i].1),
    decreases entries.len(),
{
    if i < entries.len() - 1 {
        assert(entries[entries.len() - 1].0@ != name);
        let rest = entries.drop_last();
        assert forall|j: int| i < j < rest.len() implies (#[trigger] rest[j]).0@ != name by {
            assert(entries[j].0@ != name);
        }
        lemma_registered(rest, name, i);
    }
}

proof fn lemma_unregistered<T>(entries: Seq<(&'static str, T)>, name: Seq<char>)
    requires
        forall|j: int| 0 <= j < entries.len() ==> (#[trigger] entries[j]).0@ != name,
    ensures
        registered(entries, name) is None,
    decreases entries.len(),
{
    if entries.len() > 0 {
        assert(entries[entries.len() - 1].0@ != name);
        let rest = entries.drop_last();
        assert forall|j: int| 0 <= j < rest.len() implies (#[trigger] rest[j]).0@ != name by {
            assert(entries[j].0@ != name);
        }
        lemma_unregistered(rest, name);
    }
}

/// A registry finds what was registered under a name, the last one if there are
/// several, and nothing under a name that was not registered.
pub proof fn law_a_registry_finds_by_name(
    activities: &ActivityRegistry,
    orchestrations: &OrchestrationRegistry,
    name: &str,
    i: int,
    task: Option<Task>,
    workload: Option<Workload>,
)
    requires
        call_ensures(ActivityRegistry::get, (activities, name), task),
        call_ensures(OrchestrationRegistry::get, (orchestrations, name), workload),
    ensures
        0 <= i < activities.entries@.len() && activities.entries@[i].0@ == name@ && (forall|j: int|
            i < j < activities.entries@.len() ==> (#[trigger] activities.entries@[j]).0@ != name@)
            ==> task == Some(activities.entries@[i].1),
        (forall|j: int|
            0 <= j < activities.entries@.len() ==> (#[trigger] activities.entries@[j]).0@ != name@)
            ==> task is None,
        0 <= i < orchestrations.entries@.len() && orchestrations.entries@[i].0@ == name@ && (forall|
            j: int,
        |
            i < j < orchestrations.entries@.len() ==> (#[trigger] orchestrations.entries@[j]).0@
                != name@) ==> workload == Some(orchestrations.entries@[i].1),
        (forall|j: int|
            0 <= j < orchestrations.entries@.len() ==> (#[trigger] orchestrations.entries@[j]).0@
                != name@) ==> workload is None,
{
    let a = activities.entries@;
    let o = orchestrations.entries@;
    if 0 <= i < a.len() && a[i].0@ == name@ && (forall|j: int|
        i < j < a.len() ==> (#[trigger] a[j]).0@ != name@) {
        lemma_registered(a, name@, i);
    }
    if forall|j: int| 0 <= j < a.len() ==> (#[trigger] a[j]).0@ != name@ {
        lemma_unregistered(a, name@);
    }
    if 0 <= i < o.len() && o[i].0@ == name@ && (forall|j: int|
        i < j < o.len() ==> (#[trigger] o[j]).0@ != name@) {
        lemma_registered(o, name@, i);
    }
    if forall|j: int| 0 <= j < o.len() ==> (#[trigger] o[j]).0@ != name@ {
        lemma_unregistered(o, name@);
    }
}

/// The registries of the stress tests: each name that an orchestration of the test
/// schedules or starts is found in them, with the delay and the sizes that the test
/// was configured with.
pub proof fn law_what_is_scheduled_is_registered(
    delay: u64,
    small: usize,
    medium: usize,
    large: usize,
    config: LargePayloadConfig,
    tasks: ActivityRegistry,
    fanout: OrchestrationRegistry,
    payload_tasks: ActivityRegistry,
    payloads: OrchestrationRegistry,
)
    requires
        call_ensures(create_default_activities, (delay,), tasks),
        call_ensures(create_default_orchestrations, (), fanout),
        call_ensures(
            create_large_payload_activities,
            (delay, small, medium, large),
            payload_tasks,
        ),
        call_ensures(create_large_payload_orchestrations, (config,), payloads),
    ensures
        registered(tasks.entries@, "ProcessTask"@) == Some(Task::Process { delay_ms: delay }),
        registered(fanout.entries@, "FanoutOrchestration"@) == Some(Workload::Fanout),
        registered(payload_tasks.entries@, "SmallPayloadTask"@) == Some(
            Task::Payload { delay_ms: delay, kb: small },
        ),
        registered(payload_tasks.entries@, "MediumPayloadTask"@) == Some(
            Task::Payload { delay_ms: delay, kb: medium },
        ),
        registered(payload_tasks.entries@, "LargePayloadTask"@) == Some(
            Task::Payload { delay_ms: delay, kb: large },
        ),
        registered(payloads.entries@, "FanoutOrchestration"@) == Some(
            Workload::LargePayload { config },
        ),
        registered(payloads.entries@, "LargePayloadOrchestration"@) == Some(
            Workload::LargePayload { config },
        ),
        registered(payloads.entries@, "LargePayloadSubOrchestration"@) == Some(
            Workload::LargePayloadSub {
                small_kb: config.small_payload_kb,
                medium_kb: config.medium_payload_kb,
            },
        ),
{
    reveal_strlit("SmallPayloadTask");
    reveal_strlit("MediumPayloadTask");
    reveal_strlit("LargePayloadTask");
    reveal_strlit("FanoutOrchestration");
    reveal_strlit("LargePayloadOrchestration");
    reveal_strlit("LargePayloadSubOrchestration");
    assert("SmallPayloadTask"@[0] == 'S' && "MediumPayloadTask"@[0] == 'M'
        && "LargePayloadTask"@[0] == 'L' && "FanoutOrchestration"@[0] == 'F');
    assert("LargePayloadOrchestration"@.len() != "LargePayloadSubOrchestration"@.len());
    lemma_registered(tasks.entries@, "ProcessTask"@, 0);
    lemma_registered(fanout.entries@, "FanoutOrchestration"@, 0);
    lemma_registered(payload_tasks.entries@, "SmallPayloadTask"@, 0);
    lemma_registered(payload_tasks.entries@, "MediumPayloadTask"@, 1);
    lemma_registered(payload_tasks.entries@, "LargePayloadTask"@, 2);
    lemma_registered(payloads.entries@, "FanoutOrchestration"@, 0);
    lemma_registered(payloads.entries@, "LargePayloadOrchestration"@, 1);
    lemma_registered(payloads.entries@, "LargePayloadSubOrchestration"@, 2);
}

/// A task takes the delay that it was given. It says that its input was processed, or
/// answers with its input, a payload of its size, and that size.
pub proof fn law_tasks_answer(
    delay: u64,
    kb: usize,
    input: &str,
    slow: u64,
    slower: u64,
    said: String,
    answered: String,
)
    requires
        call_ensures(Task::delay_ms, (&Task::Process { delay_ms: delay },), slow),
        call_ensures(Task::delay_ms, (&Task::Payload { delay_ms: delay, kb },), slower),
        call_ensures(Task::answer, (&Task::Process { delay_ms: delay }, input), said),
        call_ensures(Task::answer, (&Task::Payload { delay_ms: delay, kb }, input), answered),
    ensures
        slow == delay && slower == delay,
        said@ == "processed: "@ + input@,
        answered@ == json::object(
            seq![
                json::field("input"@, json::json_quoted(input@)),
                json::field("payload"@, json::json_quoted(stress::payload((kb * 1024) as nat))),
                json::field("size_kb"@, text::decimal(kb as nat)),
            ],
        ),
{
}

/// A fan-out first waits for as many tasks as it was asked for, numbered from 0, and
/// then ends by saying how many of them succeeded.
pub proof fn law_a_fanout_runs_all_its_tasks(
    n: usize,
    first: Step,
    run: &mut FanoutRun,
    results: Vec<Result<String, String>>,
    k: usize,
    last: Step,
)
    requires
        call_ensures(
            FanoutRun::next_step,
            (&FanoutRun { task_count: n, succeeded: None },),
            first,
        ),
        call_ensures(FanoutRun::resume, (run, results), ()),
        call_ensures(
            FanoutRun::next_step,
            (&FanoutRun { task_count: n, succeeded: Some(k) },),
            last,
        ),
        results@.len() <= usize::MAX,
    ensures
        first matches Step::Await { work, name, inputs } && work is Activity && name@
            == "ProcessTask"@ && inputs@.len() == n && forall|i: int|
            0 <= i < n ==> (#[trigger] inputs@[i])@ == "task-"@ + text::decimal(i as nat),
        final(run).succeeded matches Some(s) && s == stress::successes(results@),
        final(run).task_count == old(run).task_count,
        last matches Step::Finish(Ok(s)) && s@ == "Completed "@ + text::decimal(n as nat)
            + " tasks ("@ + text::decimal(k as nat) + " succeeded)"@,
{
    stress::law_every_success_counts(results@);
}

/// A run with large payloads schedules its activities one by one: a third of them
/// with small payloads, a third with medium ones at half size, and the rest with large
/// ones at a quarter of the size, each numbered from 0.
pub proof fn law_large_payloads_come_in_three_sizes(run: &LargePayloadRun, step: Step)
    requires
        call_ensures(LargePayloadRun::next_step, (run,), step),
        run.step < run.config.activity_count,
    ensures
        ({
            let n = run.config.activity_count as int / 3;
            let (title, index, kb) = if run.step < n {
                ("SmallPayloadTask"@, run.step as int, run.config.small_payload_kb as int)
            } else if run.step < 2 * n {
                ("MediumPayloadTask"@, run.step - n, run.config.medium_payload_kb as int / 2)
            } else {
                ("LargePayloadTask"@, run.step - 2 * n, run.config.large_payload_kb as int / 4)
            };
            step matches Step::Await { work, name, inputs } && work is Activity && name@ == title
                && inputs@.len() == 1 && inputs@[0]@ == json::object(
                seq![
                    json::field(
                        "data"@,
                        json::json_quoted(stress::payload((kb * 1024) as nat)),
                    ),
                    json::field("index"@, text::decimal(index as nat)),
                ],
            )
        }),
{
}

/// After its activities a run with large payloads waits for all its children at once,
/// then for ten closing activities one by one, and then ends with what it counted.
pub proof fn law_large_payloads_go_on_with_children(run: &LargePayloadRun, step: Step)
    requires
        call_ensures(LargePayloadRun::next_step, (run,), step),
        run.step == run.config.activity_count,
    ensures
        !run.subs_done ==> (step matches Step::Await { work, name, inputs }
            && work is SubOrchestration && name@ == "LargePayloadSubOrchestration"@
            && inputs@.len() == run.config.sub_orch_count && forall|i: int|
            0 <= i < inputs@.len() ==> (#[trigger] inputs@[i])@ == json::object(
                seq![
                    json::field("index"@, text::decimal(i as nat)),
                    json::field(
                        "payload"@,
                        json::json_quoted(
                            stress::payload((run.config.medium_payload_kb * 1024) as nat),
                        ),
                    ),
                ],
            )),
        run.subs_done && run.closing < 10 ==> (step matches Step::Await { work, name, inputs }
            && work is Activity && name@ == "SmallPayloadTask"@ && inputs@.len() == 1
            && inputs@[0]@ == "final-task-"@ + text::decimal(run.closing as nat)),
        run.subs_done && run.closing >= 10 ==> (step matches Step::Finish(Ok(s)) && s@
            == json::object(
            seq![
                json::field("activities_completed"@, text::decimal(run.succeeded as nat)),
                json::field("estimated_event_count"@, text::decimal(run.event_count as nat)),
                json::field(
                    "result_payload"@,
                    json::json_quoted(
                        stress::payload((run.config.large_payload_kb * 1024) as nat),
                    ),
                ),
                json::field(
                    "result_size_kb"@,
                    text::decimal(run.config.large_payload_kb as nat),
                ),
                json::field(
                    "sub_orchestrations_completed"@,
                    text::decimal(run.sub_succeeded as nat),
                ),
            ],
        )),
{
}

/// What a run with large payloads counts: each activity once, as a success if it was
/// one, with two events; and its children together, with four events each.
pub proof fn law_large_payloads_are_counted(
    run: &mut LargePayloadRun,
    results: Vec<Result<String, String>>,
)
    requires
        call_ensures(LargePayloadRun::resume, (run, results), ()),
        LargePayloadRun::valid(*old(run)),
        LargePayloadRun::awaits(*old(run), results@.len()),
        results@.len() <= usize::MAX,
    ensures
        old(run).step < old(run).config.activity_count ==> {
            &&& final(run).step == old(run).step + 1
            &&& final(run).closing == old(run).closing
            &&& final(run).subs_done == old(run).subs_done
        },
        old(run).step == old(run).config.activity_count && old(run).subs_done ==> {
            &&& final(run).step == old(run).step
            &&& final(run).closing == old(run).closing + 1
            &&& final(run).subs_done
        },
        old(run).step < old(run).config.activity_count || old(run).subs_done ==> {
            &&& final(run).succeeded == old(run).succeeded + (if results@[0] is Ok {
                1int
            } else {
                0
            })
            &&& final(run).event_count == old(run).event_count + 2
            &&& final(run).sub_succeeded == old(run).sub_succeeded
        },
        old(run).step == old(run).config.activity_count && !old(run).subs_done ==> {
            &&& final(run).subs_done
            &&& final(run).sub_succeeded == stress::successes(results@)
            &&& final(run).event_count == old(run).event_count + 4 * old(run).config.sub_orch_count
            &&& final(run).succeeded == old(run).succeeded
            &&& final(run).step == old(run).step
            &&& final(run).closing == old(run).closing
        },
        final(run).config == old(run).config,
{
    stress::law_every_success_counts(results@);
}

/// A child with large payloads runs a small task and a medium one at half size, one
/// after the other, and ends as a success exactly if both succeeded.
pub proof fn law_a_child_runs_two_tasks(
    run: &LargePayloadSubRun,
    step: Step,
    resumed: &mut LargePayloadSubRun,
    results: Vec<Result<String, String>>,
)
    requires
        call_ensures(LargePayloadSubRun::next_step, (run,), step),
        call_ensures(LargePayloadSubRun::resume, (resumed, results), ()),
    ensures
        run.first is None ==> (step matches Step::Await { work, name, inputs } && work is Activity
            && name@ == "SmallPayloadTask"@ && inputs@.len() == 1 && inputs@[0]@ == stress::payload(
            (run.small_kb * 1024) as nat,
        )),
        run.first is Some && run.second is None ==> (step matches Step::Await {
            work,
            name,
            inputs,
        } && work is Activity && name@ == "MediumPayloadTask"@ && inputs@.len() == 1 && inputs@[0]@
            == stress::payload((run.medium_kb as int / 2 * 1024) as nat)),
        run.first is Some && run.second is Some ==> (step matches Step::Finish(Ok(s)) && s@
            == json::object(
            seq![
                json::field(
                    "result_payload"@,
                    json::json_quoted(stress::payload((run.medium_kb * 1024) as nat)),
                ),
                json::field("size_kb"@, text::decimal(run.medium_kb as nat)),
                json::field(
                    "success"@,
                    if run.first->0 && run.second->0 {
                        "true"@
                    } else {
                        "false"@
                    },
                ),
            ],
        )),
        old(resumed).first is None ==> final(resumed).first == Some(results@[0] is Ok)
            && final(resumed).second == old(resumed).second,
        old(resumed).first is Some ==> final(resumed).second == Some(results@[0] is Ok)
            && final(resumed).first == old(resumed).first,
        final(resumed).small_kb == old(resumed).small_kb,
        final(resumed).medium_kb == old(resumed).medium_kb,
{
}

/// A workload starts as the run that its name stands for, from the beginning and with
/// its own sizes, or refuses an input that is no JSON.
pub proof fn law_a_workload_starts_from_the_beginning(
    w: &Workload,
    input: &str,
    r: Result<Running, String>,
)
    requires
        call_ensures(Workload::start, (w, input), r),
    ensures
        match r {
            Ok(Running::Fanout(run)) => *w is Fanout && run.succeeded is None,
            Ok(Running::LargePayload(run)) => *w == (Workload::LargePayload { config: run.config })
                && run.step == 0 && !run.subs_done && run.closing == 0 && run.succeeded == 0
                && run.sub_succeeded == 0 && run.event_count == 0,
            Ok(Running::LargePayloadSub(run)) => *w == (Workload::LargePayloadSub {
                small_kb: run.small_kb,
                medium_kb: run.medium_kb,
            }) && run.first is None && run.second is None,
            Err(e) => json::json_value(input@) matches Err(t) && e@ == "Invalid input: "@ + t,
        },
        json::json_value(input@) is Ok ==> r is Ok,
        json::json_value(input@) matches Ok(numbers) ==> (r matches Ok(Running::Fanout(run)) ==> (
        numbers.contains_key("task_count"@) && numbers["task_count"@] <= usize::MAX
            ==> run.task_count == numbers["task_count"@]) && (!numbers.contains_key("task_count"@)
            ==> run.task_count == 5)),
{
}

/// Whether an input is JSON is all that is asked of it, and the reason is given where
/// it is not.
pub proof fn law_inputs_are_refused_with_the_reason(
    e: String,
    fine: Result<(), String>,
    refused: Result<(), String>,
    input: &str,
    checked: Result<(), String>,
)
    requires
        call_ensures(explain_input, (Ok(()),), fine),
        call_ensures(explain_input, (Err(e),), refused),
        call_ensures(check_input, (input,), checked),
    ensures
        fine is Ok,
        refused matches Err(t) && t@ == "Invalid input: "@ + e@,
        checked is Ok <==> json::json_value(input@) is Ok,
{
}

/// Each orchestration starts from the beginning, with the sizes that were given,
/// where its input is JSON, and refuses it with the reason where it is not.
pub proof fn law_orchestrations_start_or_refuse(
    input: &str,
    config: LargePayloadConfig,
    small_kb: usize,
    medium_kb: usize,
    fanout: Result<FanoutRun, String>,
    large: Result<LargePayloadRun, String>,
    sub: Result<LargePayloadSubRun, String>,
    new: LargePayloadRun,
)
    requires
        call_ensures(fanout_orchestration, (input,), fanout),
        call_ensures(large_payload_orchestration, (input, config), large),
        call_ensures(large_payload_sub_orchestration, (input, small_kb, medium_kb), sub),
        call_ensures(LargePayloadRun::new, (config,), new),
    ensures
        json::json_value(input@) matches Ok(numbers) ==> {
            &&& fanout is Ok && large is Ok && sub is Ok
            &&& fanout->Ok_0.succeeded is None
            &&& numbers.contains_key("task_count"@) && numbers["task_count"@] <= usize::MAX
                ==> fanout->Ok_0.task_count == numbers["task_count"@]
            &&& !numbers.contains_key("task_count"@) ==> fanout->Ok_0.task_count == 5
            &&& large->Ok_0 == new
            &&& sub->Ok_0.small_kb == small_kb && sub->Ok_0.medium_kb == medium_kb
            &&& sub->Ok_0.first is None && sub->Ok_0.second is None
        },
        json::json_value(input@) matches Err(e) ==> {
            let text = "Invalid input: "@ + e;
            &&& fanout is Err && fanout->Err_0@ == text
            &&& large is Err && large->Err_0@ == text
            &&& sub is Err && sub->Err_0@ == text
        },
        new.config == config,
        new.step == 0 && !new.subs_done && new.closing == 0,
        new.succeeded == 0 && new.sub_succeeded == 0 && new.event_count == 0,
{
}

/// A step for an activity waits for one activity of the name, with the input.
pub proof fn law_a_step_waits_for_its_activity(name: &'static str, input: String, r: Step)
    requires
        call_ensures(activity_step, (name, input), r),
    ensures
        r matches Step::Await { work: Work::Activity, name: n, inputs } && n@ == name@
            && inputs@.len() == 1 && inputs@[0]@ == input@,
{
}

} // verus!
