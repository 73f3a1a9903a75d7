//! What runs a validation script: it says what to ask the store next, takes the
//! reply, and says in the end whether the store passed.
use crate::client;
use crate::provider::WorkItem;
use crate::provider_validation::reply::{
    self, completes_row, error_says, group_number, has_completion_saying, holds_either,
    is_event_of, is_listed, is_message_of, number, turns_all_of, Reply,
};
use crate::provider_validation::script::{
    self, no_metadata, Base, Call, Check, ExecutionMetadata, Item, Num, Operand, Rel,
    ScheduledActivityIdentifier, ScriptEvent, Span, Step, Token, Txt,
};
use crate::text::{self, contains, same_text};
use crate::time::{self, Duration, MAX_NANOS, NANOS_PER_MILLI};
use std::collections::HashMap;
use vstd::prelude::*;

verus! {

broadcast use vstd::std_specs::hash::group_hash_axioms;

/// What goes with the acknowledgement of a turn.
#[derive(Debug)]
pub struct AckBody {
    pub events: Vec<ScriptEvent>,
    pub work: Vec<Item>,
    pub messages: Vec<Item>,
    pub metadata: ExecutionMetadata,
    pub cancelled: Vec<ScheduledActivityIdentifier>,
}

/// What an acknowledgement stands for.
#[verifier::ext_equal]
pub struct AckModel {
    pub events: Seq<ScriptEvent>,
    pub work: Seq<Item>,
    pub messages: Seq<Item>,
    pub metadata: ExecutionMetadata,
    pub cancelled: Seq<ScheduledActivityIdentifier>,
}

impl View for AckBody {
    type V = AckModel;

    open spec fn view(&self) -> AckModel {
        AckModel {
            events: self.events@,
            work: self.work@,
            messages: self.messages@,
            metadata: self.metadata,
            cancelled: self.cancelled@,
        }
    }
}

/// An acknowledgement of nothing.
pub open spec fn empty_ack() -> AckModel {
    AckModel {
        events: Seq::empty(),
        work: Seq::empty(),
        messages: Seq::empty(),
        metadata: no_metadata(),
        cancelled: Seq::empty(),
    }
}

impl AckBody {
    /// An acknowledgement of nothing.
    pub fn new() -> (r: Self)
        ensures
            r@ == empty_ack(),
    {
        AckBody {
            events: Vec::new(),
            work: Vec::new(),
            messages: Vec::new(),
            metadata: no_metadata(),
            cancelled: Vec::new(),
        }
    }
}

/// A request to the store, with all that it refers to.
#[derive(Debug)]
pub struct Request {
    pub call: Call,
    /// The lock token, where the request needs one.
    pub token: Option<String>,
    /// The lock timeout, the delay, or how long to sleep.
    pub span: Duration,
    /// The poll timeout.
    pub poll: Duration,
    /// What goes with an acknowledgement.
    pub ack: AckBody,
    /// The listed instances.
    pub ids: Vec<&'static str>,
    /// The remembered number that the request refers to.
    pub number: Option<u64>,
}

/// A request that is made together with others.
#[derive(Debug)]
pub struct Task {
    /// How long it waits at first.
    pub delay: Duration,
    pub request: Request,
    /// How long it goes on after the request.
    pub hold: Duration,
    /// Whether it is tried again after an error that allows it.
    pub retries: bool,
}

/// What a run does next.
#[derive(Debug)]
pub enum Next {
    /// Take the next step.
    Go,
    /// Make a request, and hand over the reply.
    Ask(Request),
    /// Make requests together, after a common start or not, and hand over the
    /// replies in the order of the requests.
    Together(Vec<Task>, bool),
    /// The script is through.
    Passed,
    /// The store did not do what the script demands.
    Failed,
}

/// What a run stands for.
#[verifier::ext_equal]
pub struct RunModel {
    pub script: Seq<Step>,
    /// The place of the next step.
    pub at: nat,
    /// A reply is awaited.
    pub waiting: bool,
    /// The lock timeout, in nanoseconds.
    pub lock: nat,
    /// The threshold for a store that does not wait, in nanoseconds.
    pub short_poll: nat,
    /// The remembered tokens.
    pub tokens: Map<u64, String>,
    /// The remembered numbers.
    pub numbers: Map<u64, u64>,
    /// What is prepared for the next acknowledgement.
    pub ack: AckModel,
    /// The listed instances.
    pub ids: Seq<&'static str>,
    /// The requests that are prepared to be made together.
    pub tasks: Seq<Task>,
    /// The replies to the requests that were made together, and those put aside.
    pub group: Seq<Reply>,
    /// The one among them that is looked at.
    pub picked: Option<usize>,
    /// The last reply to a single request.
    pub last: Reply,
    /// How long the last request took, in nanoseconds.
    pub elapsed: nat,
}

/// The reply that is looked at.
pub open spec fn current(m: RunModel) -> Reply {
    match m.picked {
        Some(i) => m.group[i as int],
        None => m.last,
    }
}

/// The length of a span, in nanoseconds.
pub open spec fn span_nanos(s: Span, lock: nat, short_poll: nat) -> nat {
    let base = match s.base {
        Base::Zero => 0nat,
        Base::Lock => lock,
        Base::ShortPoll => short_poll,
    };
    let part = (base * s.tenths as nat + 5) / 10;
    let minus = s.minus_ms as nat * 1_000_000;
    let rest = if part >= minus {
        (part - minus) as nat
    } else {
        0
    };
    time::min_nat(rest + s.plus_ms as nat * 1_000_000, MAX_NANOS as nat)
}

/// The span that a request carries: how long to lock, delay or sleep.
pub open spec fn span_of(call: Call) -> Option<Span> {
    match call {
        Call::FetchTurn(s, _) => Some(s),
        Call::FetchWork(s, _) => Some(s),
        Call::AbandonWork(_, s, _) => s,
        Call::RenewTurn(_, s) => Some(s),
        Call::RenewWork(_, s) => Some(s),
        Call::Sleep(s) => Some(s),
        _ => None,
    }
}

/// How long a fetch may wait.
pub open spec fn poll_of(call: Call) -> Option<Span> {
    match call {
        Call::FetchTurn(_, s) => Some(s),
        Call::FetchWork(_, s) => Some(s),
        _ => None,
    }
}

/// The token that a request carries.
pub open spec fn token_of(call: Call) -> Option<Token> {
    match call {
        Call::Ack(t, _) => Some(t),
        Call::AckWork(t, _) => Some(t),
        Call::AckWorkAs(t, _, _, _, _) => Some(t),
        Call::AbandonTurn(t, _) => Some(t),
        Call::AbandonWork(t, _, _) => Some(t),
        Call::RenewTurn(t, _) => Some(t),
        Call::RenewWork(t, _) => Some(t),
        _ => None,
    }
}

/// The register of the number that a request refers to.
pub open spec fn register_of(call: Call) -> Option<u64> {
    match call {
        Call::AckWorkAs(_, _, _, r, _) => Some(r),
        Call::DeleteMatching(_, before, _) => before,
        _ => None,
    }
}

/// A request that takes up the listed instances.
pub open spec fn takes_ids(call: Call) -> bool {
    match call {
        Call::DeleteListed(_) => true,
        Call::DeleteMatching(listed, _, _) => listed,
        Call::PruneListed(_) => true,
        _ => false,
    }
}

/// All that a request refers to was remembered.
pub open spec fn askable(m: RunModel, call: Call) -> bool {
    &&& token_of(call) matches Some(Token::Held(r)) ==> m.tokens.contains_key(r)
    &&& register_of(call) matches Some(r) ==> m.numbers.contains_key(r)
}

/// The length of a span that may be absent.
pub open spec fn optional_nanos(s: Option<Span>, m: RunModel) -> nat {
    match s {
        Some(span) => span_nanos(span, m.lock, m.short_poll),
        None => 0,
    }
}

/// `q` is the request that `call` stands for in the run `m`.
pub open spec fn is_request(q: Request, m: RunModel, call: Call) -> bool {
    &&& q.call == call
    &&& match token_of(call) {
        Some(Token::Held(r)) => q.token == Some(m.tokens[r]),
        Some(Token::Given(t)) => q.token matches Some(s) && s@ == t@,
        None => q.token is None,
    }
    &&& q.span.wf() && q.span@ == optional_nanos(span_of(call), m)
    &&& q.poll.wf() && q.poll@ == optional_nanos(poll_of(call), m)
    &&& q.ack@ == if call is Ack {
        m.ack
    } else {
        empty_ack()
    }
    &&& q.ids@ == if takes_ids(call) {
        m.ids
    } else {
        Seq::empty()
    }
    &&& q.number == match register_of(call) {
        Some(r) => Some(m.numbers[r]),
        None => None,
    }
}

/// The run after a request was put together: what it takes up is used up.
pub open spec fn asked(m: RunModel, call: Call) -> RunModel {
    RunModel {
        ack: if call is Ack {
            empty_ack()
        } else {
            m.ack
        },
        ids: if takes_ids(call) {
            Seq::empty()
        } else {
            m.ids
        },
        ..m
    }
}

/// The number that the reply at hand shows, if it shows it.
pub open spec fn shown_number(m: RunModel, what: Num) -> Option<u64> {
    match reply::number_of(what, current(m)) {
        Some(n) => Some(n),
        None => reply::group_number_of(what, m.group),
    }
}

/// The number to compare with, if there is one.
pub open spec fn value_of(m: RunModel, v: Operand) -> Option<u64> {
    match v {
        Operand::Literal(n) => Some(n),
        Operand::Saved(r) => if m.numbers.contains_key(r) {
            Some(m.numbers[r])
        } else {
            None
        },
        Operand::Shown(what) => shown_number(m, what),
    }
}

/// `a` stands to `b` as it is to.
pub open spec fn related(a: u64, rel: Rel, b: u64) -> bool {
    match rel {
        Rel::Is => a == b,
        Rel::AtLeast => a >= b,
        Rel::MoreThan => a > b,
        Rel::AtMost => a <= b,
    }
}

/// The tokens remembered in the first `n` registers are there and differ from
/// each other.
pub open spec fn tokens_distinct(tokens: Map<u64, String>, n: u64) -> bool {
    &&& forall|i: u64| i < n ==> #[trigger] tokens.contains_key(i)
    &&& forall|i: u64, j: u64|
        i < j < n ==> (#[trigger] tokens[i])@ != (#[trigger] tokens[j])@
}

/// The check holds of the run.
pub open spec fn holds(m: RunModel, check: Check) -> bool {
    let r = current(m);
    match check {
        Check::Failed => r is Failed,
        Check::Permanent => r matches Reply::Failed(e) && !e.retryable,
        Check::Says(a, b, c) => r matches Reply::Failed(e) && reply::says(
            client::lowercased(e.text@),
            a@,
            b@,
            c@,
        ),
        Check::Tells(a, b) => r matches Reply::Failed(e) && (text::has_substring(e.message@, a@)
            || text::has_substring(e.message@, b@)),
        Check::Nothing => r is Nothing,
        Check::Something => reply::succeeded(r) && !(r is Nothing),
        Check::Number(what, rel, v) => match (shown_number(m, what), value_of(m, v)) {
            (Some(a), Some(b)) => related(a, rel, b),
            _ => false,
        },
        Check::Text(what, s) => reply::text_of(what, r) == Some(Some(s@)),
        Check::NoText(what) => reply::text_of(what, r) == Some(None::<Seq<char>>),
        Check::Has(s) => reply::names_of(r) matches Some(names) && reply::lists(names, s@),
        Check::Lacks(s) => reply::names_of(r) matches Some(names) && !reply::lists(names, s@),
        Check::HasExecution(a, b) => r matches Reply::Executions(v) && reply::has_either(v@, a, b),
        Check::EventIs(at, sort) => r matches Reply::History(h) && at < h@.len()
            && reply::event_is(h@[at as int], sort),
        Check::MessageIs(at, sort) => r matches Reply::Turn(item, _, _) && at
            < item.messages@.len() && reply::message_is(item.messages@[at as int], sort),
        Check::Completions(first, last) => r matches Reply::Turn(item, _, _) && first <= last
            < u64::MAX && reply::completed_ids(item.messages@) == reply::row(first, last),
        Check::NoCompletionSaying(s) => r matches Reply::Turn(item, _, _)
            && !reply::completes_saying(item.messages@, s@),
        Check::WorkIsActivity => r matches Reply::Work(WorkItem::ActivityExecute { .. }, _, _),
        Check::ExecutionIfAny(e) => r is Nothing || (r matches Reply::Turn(item, _, _)
            && item.execution_id == e),
        Check::RootOnly(b) => r matches Reply::Tree(t) && (t.all_ids@.len() == 1) == b,
        Check::TokensDiffer(a, b) => m.tokens.contains_key(a) && m.tokens.contains_key(b)
            && m.tokens[a]@ != m.tokens[b]@,
        Check::TokenIsNot(a, s) => m.tokens.contains_key(a) && m.tokens[a]@ != s@,
        Check::TokensDistinct(n) => tokens_distinct(m.tokens, n),
        Check::GroupTurnsAre(s) => reply::turns_are(m.group, s@),
        Check::NumbersDiffer(a, b) => m.numbers.contains_key(a) && m.numbers.contains_key(b)
            && m.numbers[a] != m.numbers[b],
        Check::Faster(s) => m.elapsed < span_nanos(s, m.lock, m.short_poll),
        Check::NotFaster(s) => m.elapsed >= span_nanos(s, m.lock, m.short_poll),
    }
}

/// The run one step further.
pub open spec fn onward(m: RunModel) -> RunModel {
    RunModel { at: m.at + 1, ..m }
}

/// `t` is the task that a fork prepares in the run `m`.
pub open spec fn is_task(
    t: Task,
    m: RunModel,
    delay: Span,
    call: Call,
    hold: Span,
    retries: bool,
) -> bool {
    &&& t.delay.wf() && t.delay@ == span_nanos(delay, m.lock, m.short_poll)
    &&& t.hold.wf() && t.hold@ == span_nanos(hold, m.lock, m.short_poll)
    &&& t.retries == retries
    &&& is_request(t.request, m, call)
}

/// The place after a step, and after those that it skips.
pub open spec fn skipped(m: RunModel, n: u64) -> nat {
    if m.at + 1 + n <= m.script.len() {
        (m.at + 1 + n) as nat
    } else {
        m.script.len()
    }
}

/// What comes of the step `s` in the run `m`: the run after it, and what is
/// done next.
pub open spec fn stepped(m: RunModel, s: Step, after: RunModel, next: Next) -> bool {
    match s {
        Step::Do(c) | Step::Take(c, _) | Step::TakeIfAny(c, _) | Step::Try(c) => if askable(m, c) {
            &&& next matches Next::Ask(q) && is_request(q, m, c)
            &&& after == (RunModel { waiting: true, ..asked(m, c) })
        } else {
            next is Failed && after == m
        },
        Step::Expect(check) => if holds(m, check) {
            next is Go && after == onward(m)
        } else {
            next is Failed && after == m
        },
        Step::Save(r, what) => match shown_number(m, what) {
            Some(n) => next is Go && after == (RunModel {
                numbers: m.numbers.insert(r, n),
                ..onward(m)
            }),
            None => next is Failed && after == m,
        },
        Step::AddEvent(e) => next is Go && after == (RunModel {
            ack: AckModel { events: m.ack.events.push(e), ..m.ack },
            ..onward(m)
        }),
        Step::AddWork(i) => next is Go && after == (RunModel {
            ack: AckModel { work: m.ack.work.push(i), ..m.ack },
            ..onward(m)
        }),
        Step::AddMessage(i) => next is Go && after == (RunModel {
            ack: AckModel { messages: m.ack.messages.push(i), ..m.ack },
            ..onward(m)
        }),
        Step::AddCancelled(a) => next is Go && after == (RunModel {
            ack: AckModel { cancelled: m.ack.cancelled.push(a), ..m.ack },
            ..onward(m)
        }),
        Step::SetMetadata(d) => next is Go && after == (RunModel {
            ack: AckModel { metadata: d, ..m.ack },
            ..onward(m)
        }),
        Step::AddId(s) => next is Go && after == (RunModel { ids: m.ids.push(s), ..onward(m) }),
        Step::SkipIfNothing(n) => next is Go && after == (RunModel {
            at: if current(m) is Nothing {
                skipped(m, n)
            } else {
                m.at + 1
            },
            ..m
        }),
        Step::Fork(delay, c, hold, retries) => if askable(m, c) {
            &&& next is Go
            &&& after.tasks.len() == m.tasks.len() + 1
            &&& is_task(after.tasks.last(), m, delay, c, hold, retries)
            &&& after == (RunModel {
                tasks: m.tasks.push(after.tasks.last()),
                ..onward(asked(m, c))
            })
        } else {
            next is Failed && after == m
        },
        Step::Join(barrier) => {
            &&& next matches Next::Together(tasks, b) && tasks@ == m.tasks && b == barrier
            &&& after == (RunModel { tasks: Seq::empty(), waiting: true, ..m })
        },
        Step::Shelve => next is Go && after == (if m.picked is None {
            RunModel {
                group: m.group.push(m.last),
                picked: Some(m.group.len() as usize),
                last: Reply::Done,
                ..onward(m)
            }
        } else {
            onward(m)
        }),
        Step::Pick(i) => if i < m.group.len() {
            next is Go && after == (RunModel { picked: Some(i as usize), ..onward(m) })
        } else {
            next is Failed && after == m
        },
        Step::Keep(k) => match handed_out(current(m)) {
            Some(token) => next is Go && after == (RunModel {
                tokens: m.tokens.insert(k, token),
                ..onward(m)
            }),
            None => next is Failed && after == m,
        },
    }
}

/// The reply is one that the step `s` accepts. A store without management
/// operations passes no script that needs them.
pub open spec fn accepts(s: Step, r: Reply) -> bool {
    match s {
        Step::Do(_) => reply::succeeded(r),
        Step::Take(_, _) => r is Turn || r is Work,
        Step::TakeIfAny(_, _) => r is Turn || r is Work || r is Nothing,
        Step::Try(_) => !(r is NoManagement),
        _ => false,
    }
}

/// The tokens after a reply to the step `s`.
pub open spec fn tokens_after(tokens: Map<u64, String>, s: Step, r: Reply) -> Map<u64, String> {
    match s {
        Step::Take(_, k) | Step::TakeIfAny(_, k) => match handed_out(r) {
            Some(token) => tokens.insert(k, token),
            None => tokens,
        },
        _ => tokens,
    }
}

/// The token that came with an item.
pub open spec fn handed_out(r: Reply) -> Option<String> {
    match r {
        Reply::Turn(_, token, _) => Some(token),
        Reply::Work(_, token, _) => Some(token),
        _ => None,
    }
}

/// The token that came with an item.
fn token_handed_out(r: &Reply) -> (t: Option<String>)
    ensures
        t == handed_out(*r),
{
    match r {
        Reply::Turn(_, token, _) => Some(token.clone()),
        Reply::Work(_, token, _) => Some(token.clone()),
        _ => None,
    }
}

/// The run after a reply, which took so long.
pub open spec fn replied(m: RunModel, s: Step, r: Reply, elapsed: nat) -> RunModel {
    RunModel {
        at: if accepts(s, r) {
            m.at + 1
        } else {
            m.at
        },
        waiting: false,
        tokens: tokens_after(m.tokens, s, r),
        picked: None,
        last: r,
        elapsed,
        ..m
    }
}

/// A run of a script.
pub struct Run {
    script: Vec<Step>,
    at: usize,
    waiting: bool,
    lock: Duration,
    short_poll: Duration,
    tokens: HashMap<u64, String>,
    numbers: HashMap<u64, u64>,
    ack: AckBody,
    ids: Vec<&'static str>,
    tasks: Vec<Task>,
    group: Vec<Reply>,
    picked: Option<usize>,
    last: Reply,
    elapsed: Duration,
}

impl View for Run {
    type V = RunModel;

    closed spec fn view(&self) -> RunModel {
        RunModel {
            script: self.script@,
            at: self.at as nat,
            waiting: self.waiting,
            lock: self.lock@,
            short_poll: self.short_poll@,
            tokens: self.tokens@,
            numbers: self.numbers@,
            ack: self.ack@,
            ids: self.ids@,
            tasks: self.tasks@,
            group: self.group@,
            picked: self.picked,
            last: self.last,
            elapsed: self.elapsed@,
        }
    }
}

/// The run before its first step.
pub open spec fn begun(script: Seq<Step>, lock: nat, short_poll: nat) -> RunModel {
    RunModel {
        script,
        at: 0,
        waiting: false,
        lock,
        short_poll,
        tokens: Map::empty(),
        numbers: Map::empty(),
        ack: empty_ack(),
        ids: Seq::empty(),
        tasks: Seq::empty(),
        group: Seq::empty(),
        picked: None,
        last: Reply::Done,
        elapsed: 0,
    }
}

/// How long to wait before a request is made again, in milliseconds: an error
/// that allows it is met with two more attempts.
pub fn again(attempt: u64, reply: &Reply) -> (r: Option<u64>)
    ensures
        r == (match *reply {
            Reply::Failed(e) => if e.retryable && attempt < 2 {
                Some((10 * (attempt + 1)) as u64)
            } else {
                None
            },
            _ => None,
        }),
{
    match reply {
        Reply::Failed(e) => if e.retryable && attempt < 2 {
            Some(10 * (attempt + 1))
        } else {
            None
        },
        _ => None,
    }
}

impl Run {
    /// The invariant of a run: it stands at a step or at the end of its script,
    /// and what it looks at is there.
    pub closed spec fn wf(&self) -> bool {
        &&& self.lock.wf()
        &&& self.short_poll.wf()
        &&& self.elapsed.wf()
        &&& run_wf(self@)
    }

    /// A run of a script on a store with this lock timeout, which replies
    /// within this threshold where it does not wait for work.
    pub fn new(script: Vec<Step>, lock: Duration, short_poll: Duration) -> (r: Self)
        requires
            lock.wf(),
            short_poll.wf(),
        ensures
            r.wf(),
            r@ == begun(script@, lock@, short_poll@),
    {
        Run {
            script,
            at: 0,
            waiting: false,
            lock,
            short_poll,
            tokens: HashMap::new(),
            numbers: HashMap::new(),
            ack: AckBody::new(),
            ids: Vec::new(),
            tasks: Vec::new(),
            group: Vec::new(),
            picked: None,
            last: Reply::Done,
            elapsed: Duration::zero(),
        }
    }

    /// Whether a reply is awaited.
    pub fn is_waiting(&self) -> (r: bool)
        ensures
            r == self@.waiting,
    {
        self.waiting
    }

    /// The place of the next step.
    pub fn position(&self) -> (r: usize)
        ensures
            r == self@.at,
    {
        self.at
    }

    fn current(&self) -> (r: &Reply)
        requires
            self.wf(),
        ensures
            *r == current(self@),
    {
        match self.picked {
            Some(i) => &self.group[i],
            None => &self.last,
        }
    }

    fn nanos(&self, s: Span) -> (r: Duration)
        requires
            self.wf(),
        ensures
            r.wf(),
            r@ == span_nanos(s, self@.lock, self@.short_poll),
    {
        let base: u128 = match s.base {
            Base::Zero => 0,
            Base::Lock => self.lock.as_nanos(),
            Base::ShortPoll => self.short_poll.as_nanos(),
        };
        assert(base * s.tenths <= MAX_NANOS * 255) by (nonlinear_arith)
            requires
                base <= MAX_NANOS,
                s.tenths <= 255,
        ;
        let part: u128 = (base * s.tenths as u128 + 5) / 10;
        let minus: u128 = s.minus_ms as u128 * NANOS_PER_MILLI;
        let rest: u128 = if part >= minus {
            part - minus
        } else {
            0
        };
        assert(part == ((base as nat) * (s.tenths as nat) + 5) / 10);
        assert(part <= base * s.tenths + 5);
        Duration::saturating_from_nanos(rest + s.plus_ms as u128 * NANOS_PER_MILLI)
    }

    fn optional_nanos(&self, s: Option<Span>) -> (r: Duration)
        requires
            self.wf(),
        ensures
            r.wf(),
            r@ == optional_nanos(s, self@),
    {
        match s {
            Some(span) => self.nanos(span),
            None => Duration::zero(),
        }
    }

    /// Puts a request together, if all that it refers to was remembered.
    fn request(&mut self, call: Call) -> (r: Option<Request>)
        requires
            old(self).wf(),
        ensures
            final(self).wf(),
            match r {
                Some(q) => askable(old(self)@, call) && is_request(q, old(self)@, call)
                    && final(self)@ == asked(old(self)@, call),
                None => !askable(old(self)@, call) && final(self)@ == old(self)@,
            },
    {
        let token_wanted = match call {
            Call::Ack(t, _) => Some(t),
            Call::AckWork(t, _) => Some(t),
            Call::AckWorkAs(t, _, _, _, _) => Some(t),
            Call::AbandonTurn(t, _) => Some(t),
            Call::AbandonWork(t, _, _) => Some(t),
            Call::RenewTurn(t, _) => Some(t),
            Call::RenewWork(t, _) => Some(t),
            _ => None,
        };
        let token: Option<String> = match token_wanted {
            Some(Token::Held(r)) => match self.tokens.get(&r) {
                Some(t) => Some(t.clone()),
                None => return None,
            },
            Some(Token::Given(t)) => Some(t.to_string()),
            None => None,
        };
        let register: Option<u64> = match call {
            Call::AckWorkAs(_, _, _, r, _) => Some(r),
            Call::DeleteMatching(_, before, _) => before,
            _ => None,
        };
        let number: Option<u64> = match register {
            Some(r) => match self.numbers.get(&r) {
                Some(n) => Some(*n),
                None => return None,
            },
            None => None,
        };
        let span = match call {
            Call::FetchTurn(s, _) => Some(s),
            Call::FetchWork(s, _) => Some(s),
            Call::AbandonWork(_, s, _) => s,
            Call::RenewTurn(_, s) => Some(s),
            Call::RenewWork(_, s) => Some(s),
            Call::Sleep(s) => Some(s),
            _ => None,
        };
        let poll = match call {
            Call::FetchTurn(_, s) => Some(s),
            Call::FetchWork(_, s) => Some(s),
            _ => None,
        };
        let span_for = self.optional_nanos(span);
        let poll_for = self.optional_nanos(poll);
        let mut ack = AckBody::new();
        if matches!(call, Call::Ack(_, _)) {
            std::mem::swap(&mut ack, &mut self.ack);
        }
        let mut ids: Vec<&'static str> = Vec::new();
        let listed = match call {
            Call::DeleteListed(_) => true,
            Call::DeleteMatching(l, _, _) => l,
            Call::PruneListed(_) => true,
            _ => false,
        };
        if listed {
            std::mem::swap(&mut ids, &mut self.ids);
        }
        Some(Request { call, token, span: span_for, poll: poll_for, ack, ids, number })
    }

    fn shown_number(&self, what: Num) -> (r: Option<u64>)
        requires
            self.wf(),
        ensures
            r == shown_number(self@, what),
    {
        match number(what, self.current()) {
            Some(n) => Some(n),
            None => group_number(what, &self.group),
        }
    }

    fn value_of(&self, v: Operand) -> (r: Option<u64>)
        requires
            self.wf(),
        ensures
            r == value_of(self@, v),
    {
        match v {
            Operand::Literal(n) => Some(n),
            Operand::Saved(k) => match self.numbers.get(&k) {
                Some(n) => Some(*n),
                None => None,
            },
            Operand::Shown(what) => self.shown_number(what),
        }
    }

    fn tokens_distinct(&self, n: u64) -> (r: bool)
        requires
            self.wf(),
        ensures
            r == tokens_distinct(self@.tokens, n),
    {
        let mut i: u64 = 0;
        while i < n
            invariant
                self.wf(),
                i <= n,
                tokens_distinct(self@.tokens, i),
            decreases n - i,
        {
            let a = match self.tokens.get(&i) {
                Some(a) => a,
                None => return false,
            };
            let mut j: u64 = 0;
            while j < i
                invariant
                    self.wf(),
                    j <= i < n,
                    tokens_distinct(self@.tokens, i),
                    self@.tokens.contains_key(i),
                    *a == self@.tokens[i],
                    forall|k: u64| k < j ==> (#[trigger] self@.tokens[k])@ != a@,
                decreases i - j,
            {
                match self.tokens.get(&j) {
                    Some(b) => {
                        if same_text(a.as_str(), b.as_str()) {
                            return false;
                        }
                    },
                    None => return false,
                }
                j += 1;
            }
            i += 1;
        }
        true
    }

    fn text_is(&self, what: Txt, s: Option<&str>) -> (r: bool)
        requires
            self.wf(),
        ensures
            r == (reply::text_of(what, current(self@)) == Some(
                match s {
                    Some(t) => Some(t@),
                    None => None,
                },
            )),
    {
        match (reply::text(what, self.current()), s) {
            (Some(Some(a)), Some(b)) => same_text(a, b),
            (Some(None), None) => true,
            _ => false,
        }
    }

    fn lists(&self, s: &str) -> (r: Option<bool>)
        requires
            self.wf(),
        ensures
            r == (match reply::names_of(current(self@)) {
                Some(names) => Some(reply::lists(names, s@)),
                None => None,
            }),
    {
        match self.current() {
            Reply::Names(v) => Some(is_listed(v, s)),
            Reply::Tree(t) => Some(is_listed(&t.all_ids, s)),
            _ => None,
        }
    }

    fn tokens_differ(&self, a: u64, b: u64) -> (r: bool)
        requires
            self.wf(),
        ensures
            r == holds(self@, Check::TokensDiffer(a, b)),
    {
        match (self.tokens.get(&a), self.tokens.get(&b)) {
            (Some(x), Some(y)) => !same_text(x.as_str(), y.as_str()),
            _ => false,
        }
    }

    /// Whether a check holds.
    fn holds(&self, check: Check) -> (r: bool)
        requires
            self.wf(),
        ensures
            r == holds(self@, check),
    {
        let r = self.current();
        match check {
            Check::Failed => matches!(r, Reply::Failed(_)),
            Check::Permanent => match r {
                Reply::Failed(e) => !e.retryable,
                _ => false,
            },
            Check::Says(a, b, c) => match r {
                Reply::Failed(e) => error_says(e, a, b, c),
                _ => false,
            },
            Check::Tells(a, b) => match r {
                Reply::Failed(e) => contains(e.message.as_str(), a) || contains(
                    e.message.as_str(),
                    b,
                ),
                _ => false,
            },
            Check::Nothing => matches!(r, Reply::Nothing),
            Check::Something => !matches!(
                r,
                Reply::Failed(_) | Reply::NoManagement | Reply::Nothing
            ),
            Check::Number(what, rel, v) => match (self.shown_number(what), self.value_of(v)) {
                (Some(a), Some(b)) => match rel {
                    Rel::Is => a == b,
                    Rel::AtLeast => a >= b,
                    Rel::MoreThan => a > b,
                    Rel::AtMost => a <= b,
                },
                _ => false,
            },
            Check::Text(what, s) => self.text_is(what, Some(s)),
            Check::NoText(what) => self.text_is(what, None),
            Check::Has(s) => match self.lists(s) {
                Some(b) => b,
                None => false,
            },
            Check::Lacks(s) => match self.lists(s) {
                Some(b) => !b,
                None => false,
            },
            Check::HasExecution(a, b) => match r {
                Reply::Executions(v) => holds_either(v, a, b),
                _ => false,
            },
            Check::EventIs(at, sort) => match r {
                Reply::History(h) => at < h.len() as u64 && is_event_of(&h[at as usize], sort),
                _ => false,
            },
            Check::MessageIs(at, sort) => match r {
                Reply::Turn(item, _, _) => at < item.messages.len() as u64 && is_message_of(
                    &item.messages[at as usize],
                    sort,
                ),
                _ => false,
            },
            Check::Completions(first, last) => match r {
                Reply::Turn(item, _, _) => first <= last && last < u64::MAX && completes_row(
                    &item.messages,
                    first,
                    last,
                ),
                _ => false,
            },
            Check::NoCompletionSaying(s) => match r {
                Reply::Turn(item, _, _) => !has_completion_saying(&item.messages, s),
                _ => false,
            },
            Check::WorkIsActivity => matches!(
                r,
                Reply::Work(WorkItem::ActivityExecute { .. }, _, _)
            ),
            Check::ExecutionIfAny(e) => match r {
                Reply::Nothing => true,
                Reply::Turn(item, _, _) => item.execution_id == e,
                _ => false,
            },
            Check::RootOnly(b) => match r {
                Reply::Tree(t) => t.is_root_only() == b,
                _ => false,
            },
            Check::TokensDiffer(a, b) => self.tokens_differ(a, b),
            Check::TokenIsNot(a, s) => match self.tokens.get(&a) {
                Some(x) => !same_text(x.as_str(), s),
                None => false,
            },
            Check::TokensDistinct(n) => self.tokens_distinct(n),
            Check::GroupTurnsAre(s) => turns_all_of(&self.group, s),
            Check::NumbersDiffer(a, b) => match (self.numbers.get(&a), self.numbers.get(&b)) {
                (Some(x), Some(y)) => *x != *y,
                _ => false,
            },
            Check::Faster(s) => self.elapsed.as_nanos() < self.nanos(s).as_nanos(),
            Check::NotFaster(s) => self.elapsed.as_nanos() >= self.nanos(s).as_nanos(),
        }
    }

    /// Takes the next step.
    pub fn step(&mut self) -> (r: Next)
        requires
            old(self).wf(),
            !old(self)@.waiting,
        ensures
            final(self).wf(),
            if old(self)@.at == old(self)@.script.len() {
                r is Passed && final(self)@ == old(self)@
            } else {
                stepped(old(self)@, old(self)@.script[old(self)@.at as int], final(self)@, r)
            },
    {
        if self.at == self.script.len() {
            return Next::Passed;
        }
        let step = self.script[self.at];
        match step {
            Step::Do(c) | Step::Take(c, _) | Step::TakeIfAny(c, _) | Step::Try(c) => {
                match self.request(c) {
                    Some(q) => {
                        self.waiting = true;
                        Next::Ask(q)
                    },
                    None => Next::Failed,
                }
            },
            Step::Expect(check) => {
                if self.holds(check) {
                    self.at = self.at + 1;
                    Next::Go
                } else {
                    Next::Failed
                }
            },
            Step::Save(k, what) => match self.shown_number(what) {
                Some(n) => {
                    self.numbers.insert(k, n);
                    self.at = self.at + 1;
                    Next::Go
                },
                None => Next::Failed,
            },
            Step::AddEvent(e) => {
                self.ack.events.push(e);
                self.at = self.at + 1;
                Next::Go
            },
            Step::AddWork(i) => {
                self.ack.work.push(i);
                self.at = self.at + 1;
                Next::Go
            },
            Step::AddMessage(i) => {
                self.ack.messages.push(i);
                self.at = self.at + 1;
                Next::Go
            },
            Step::AddCancelled(a) => {
                self.ack.cancelled.push(a);
                self.at = self.at + 1;
                Next::Go
            },
            Step::SetMetadata(d) => {
                self.ack.metadata = d;
                self.at = self.at + 1;
                Next::Go
            },
            Step::AddId(s) => {
                self.ids.push(s);
                self.at = self.at + 1;
                Next::Go
            },
            Step::SkipIfNothing(n) => {
                let nothing = matches!(self.current(), Reply::Nothing);
                if nothing {
                    let left: usize = self.script.len() - self.at - 1;
                    if n <= left as u64 {
                        self.at = self.at + 1 + n as usize;
                    } else {
                        self.at = self.script.len();
                    }
                } else {
                    self.at = self.at + 1;
                }
                Next::Go
            },
            Step::Fork(delay, c, hold, retries) => {
                let delay = self.nanos(delay);
                let hold = self.nanos(hold);
                match self.request(c) {
                    Some(request) => {
                        self.tasks.push(Task { delay, request, hold, retries });
                        self.at = self.at + 1;
                        Next::Go
                    },
                    None => Next::Failed,
                }
            },
            Step::Join(barrier) => {
                let mut tasks: Vec<Task> = Vec::new();
                std::mem::swap(&mut tasks, &mut self.tasks);
                self.waiting = true;
                Next::Together(tasks, barrier)
            },
            Step::Shelve => {
                if self.picked.is_none() {
                    let mut reply = Reply::Done;
                    std::mem::swap(&mut reply, &mut self.last);
                    self.picked = Some(self.group.len());
                    self.group.push(reply);
                }
                self.at = self.at + 1;
                Next::Go
            },
            Step::Pick(i) => {
                if i < self.group.len() as u64 {
                    self.picked = Some(i as usize);
                    self.at = self.at + 1;
                    Next::Go
                } else {
                    Next::Failed
                }
            },
            Step::Keep(k) => match token_handed_out(self.current()) {
                Some(token) => {
                    self.tokens.insert(k, token);
                    self.at = self.at + 1;
                    Next::Go
                },
                None => Next::Failed,
            },
        }
    }

    /// Takes the reply to a request, which took so long.
    pub fn answer(&mut self, reply: Reply, elapsed: Duration) -> (r: Next)
        requires
            old(self).wf(),
            elapsed.wf(),
            old(self)@.waiting,
            !(old(self)@.script[old(self)@.at as int] is Join),
        ensures
            final(self).wf(),
            ({
                let s = old(self)@.script[old(self)@.at as int];
                &&& final(self)@ == replied(old(self)@, s, reply, elapsed@)
                &&& accepts(s, reply) ==> r is Go
                &&& !accepts(s, reply) ==> r is Failed
            }),
    {
        let step = self.script[self.at];
        self.waiting = false;
        self.picked = None;
        self.elapsed = elapsed;
        let accepted = match step {
            Step::Do(_) => !matches!(reply, Reply::Failed(_) | Reply::NoManagement),
            Step::Take(_, k) => match token_handed_out(&reply) {
                Some(token) => {
                    self.tokens.insert(k, token);
                    true
                },
                None => false,
            },
            Step::TakeIfAny(_, k) => match token_handed_out(&reply) {
                Some(token) => {
                    self.tokens.insert(k, token);
                    true
                },
                None => matches!(reply, Reply::Nothing),
            },
            Step::Try(_) => !matches!(reply, Reply::NoManagement),
            _ => false,
        };
        self.last = reply;
        assert(self.at < self.script.len());
        if accepted {
            self.at = self.at + 1;
            Next::Go
        } else {
            Next::Failed
        }
    }

    /// Takes the replies to requests that were made together.
    pub fn answer_together(&mut self, replies: Vec<Reply>) -> (r: Next)
        requires
            old(self).wf(),
            old(self)@.waiting,
            old(self)@.script[old(self)@.at as int] is Join,
        ensures
            final(self).wf(),
            r is Go,
            final(self)@ == joined(old(self)@, replies@),
    {
        assert(self.at < self.script.len());
        self.waiting = false;
        self.group = replies;
        self.picked = None;
        self.at = self.at + 1;
        Next::Go
    }

    /// Whether the awaited replies are those to requests made together.
    pub fn awaits_group(&self) -> (r: bool)
        requires
            self.wf(),
        ensures
            r == (self@.waiting && self@.script[self@.at as int] is Join),
    {
        self.waiting && matches!(self.script[self.at], Step::Join(_))
    }
}

/// The invariant of a run, over its model.
pub open spec fn run_wf(m: RunModel) -> bool {
    &&& m.at <= m.script.len()
    &&& m.waiting ==> m.at < m.script.len()
    &&& m.picked matches Some(i) ==> i < m.group.len()
}

/// The run goes from `m` to `n` with one step, and with the reply to it where
/// it makes a request.
pub open spec fn leads(m: RunModel, n: RunModel) -> bool {
    &&& !m.waiting
    &&& m.at < m.script.len()
    &&& exists|after: RunModel, next: Next| #[trigger]
        stepped(m, m.script[m.at as int], after, next) && goes_on(
            m.script[m.at as int],
            after,
            next,
            n,
        )
}

/// After the step `s` came to `after` and `next`, the run goes on as `n`.
pub open spec fn goes_on(s: Step, after: RunModel, next: Next, n: RunModel) -> bool {
    match next {
        Next::Go => n == after,
        Next::Ask(_) => exists|r: Reply, elapsed: nat|
            accepts(s, r) && n == #[trigger] replied(after, s, r, elapsed),
        Next::Together(_, _) => exists|replies: Seq<Reply>|
            n == (#[trigger] joined(after, replies)),
        Next::Passed => false,
        Next::Failed => false,
    }
}

/// The run after the replies to requests that were made together.
pub open spec fn joined(m: RunModel, replies: Seq<Reply>) -> RunModel {
    RunModel { waiting: false, group: replies, picked: None, ..onward(m) }
}

/// The states of a run that passes: it begins at the first step, goes on from
/// each step to the next, and ends behind the last.
pub open spec fn passing(states: Seq<RunModel>, script: Seq<Step>) -> bool {
    &&& states.len() > 0
    &&& states[0].script == script
    &&& states[0].at == 0
    &&& !states[0].waiting
    &&& forall|i: int| 0 <= i < states.len() - 1 ==> #[trigger] follows(states, i)
    &&& states.last().at == script.len()
}

/// The run goes from the state at `i` to the one after it.
pub open spec fn follows(states: Seq<RunModel>, i: int) -> bool {
    leads(states[i], states[i + 1])
}

/// No step of the script skips others.
pub open spec fn straight(script: Seq<Step>) -> bool {
    forall|i: int| 0 <= i < script.len() ==> !((#[trigger] script[i]) is SkipIfNothing)
}

/// The step was met by the run that went from `m` to `n`: a check held, a
/// request that was not to fail did not, one that was to hand out an item did,
/// and one that might hand out an item did so or found nothing.
pub open spec fn met(s: Step, m: RunModel, n: RunModel) -> bool {
    match s {
        Step::Expect(check) => holds(m, check),
        Step::Do(_) => n.picked is None && reply::succeeded(n.last),
        Step::Take(_, k) => n.picked is None && remembered(n, k),
        Step::TakeIfAny(_, k) => n.picked is None && (n.last is Nothing || remembered(n, k)),
        Step::Try(_) => n.picked is None,
        _ => true,
    }
}

/// The last reply handed out an item, whose token is the one in the register.
pub open spec fn remembered(m: RunModel, k: u64) -> bool {
    handed_out(m.last) matches Some(t) && m.tokens.contains_key(k) && m.tokens[k] == t
}

/// The run stands at a step that skips others, and does so.
pub open spec fn skips(m: RunModel) -> bool {
    m.script[m.at as int] is SkipIfNothing && current(m) is Nothing
}

/// The run came to the step `k` in the state at `i`, and the step was met.
pub open spec fn met_at(states: Seq<RunModel>, i: int, k: int) -> bool {
    &&& 0 <= i < states.len() - 1
    &&& states[i].at == k
    &&& met(states[i].script[k], states[i], states[i + 1])
}

/// In the state at `i` the run went past the step `k`, for want of a reply.
pub open spec fn skipped_at(states: Seq<RunModel>, i: int, k: int) -> bool {
    &&& 0 <= i < states.len() - 1
    &&& skips(states[i])
    &&& states[i].at < k < states[i + 1].at
}

proof fn lemma_leads(m: RunModel, n: RunModel)
    requires
        leads(m, n),
    ensures
        n.script == m.script,
        n.at > m.at,
        !skips(m) ==> n.at == m.at + 1,
        m.script[m.at as int] matches Step::SkipIfNothing(k) ==> n == (RunModel {
            at: if current(m) is Nothing {
                skipped(m, k)
            } else {
                m.at + 1
            },
            ..m
        }),
        !n.waiting,
        met(m.script[m.at as int], m, n),
{
    let s = m.script[m.at as int];
    let (after, next) = choose|after: RunModel, next: Next| #[trigger]
        stepped(m, s, after, next) && goes_on(s, after, next, n);
    if next is Ask {
        let (r, elapsed) = choose|r: Reply, elapsed: nat|
            accepts(s, r) && n == #[trigger] replied(after, s, r, elapsed);
        assert(n == replied(after, s, r, elapsed));
    }
}

proof fn lemma_same_script(states: Seq<RunModel>, script: Seq<Step>, i: int)
    requires
        passing(states, script),
        0 <= i < states.len(),
    ensures
        states[i].script == script,
    decreases i,
{
    if i > 0 {
        lemma_same_script(states, script, i - 1);
        assert(follows(states, i - 1));
        lemma_leads(states[i - 1], states[i]);
    }
}

/// What a run that passes does in the state at `i`: it goes on with the step
/// that it stands at, or it is over.
pub proof fn lemma_one_step(states: Seq<RunModel>, script: Seq<Step>, i: int)
    requires
        passing(states, script),
        0 <= i < states.len(),
    ensures
        states[i].script == script,
        states[i].at >= script.len() ==> states.len() == i + 1,
        states[i].at < script.len() ==> {
            let s = script[states[i].at as int];
            &&& i + 1 < states.len()
            &&& met(s, states[i], states[i + 1])
            &&& !skips(states[i]) ==> states[i + 1].at == states[i].at + 1
            &&& s matches Step::SkipIfNothing(n) ==> states[i + 1] == (RunModel {
                at: if current(states[i]) is Nothing {
                    skipped(states[i], n)
                } else {
                    states[i].at + 1
                },
                ..states[i]
            })
        },
{
    lemma_same_script(states, script, i);
    if i + 1 < states.len() {
        assert(follows(states, i));
        lemma_leads(states[i], states[i + 1]);
    }
}

/// As long as no step skips others, the run comes to one after the other.
pub proof fn lemma_straight_so_far(states: Seq<RunModel>, script: Seq<Step>, k: int)
    requires
        passing(states, script),
        0 <= k <= script.len(),
        forall|i: int| 0 <= i < k ==> !((#[trigger] script[i]) is SkipIfNothing),
    ensures
        k < states.len(),
        states[k].script == script,
        states[k].at == k,
        k < script.len() ==> k + 1 < states.len() && met(script[k], states[k], states[k + 1]),
        k == script.len() ==> states.len() == k + 1,
    decreases k,
{
    if k > 0 {
        lemma_straight_so_far(states, script, k - 1);
        lemma_one_step(states, script, k - 1);
    }
    lemma_one_step(states, script, k);
}

proof fn lemma_came_to_or_past(states: Seq<RunModel>, script: Seq<Step>, k: int, i: int)
    requires
        passing(states, script),
        0 <= k < script.len(),
        0 <= i < states.len(),
        k < states[i].at,
    ensures
        (exists|j: int| met_at(states, j, k)) || (exists|j: int| skipped_at(states, j, k)),
    decreases i,
{
    assert(i > 0);
    let j = i - 1;
    lemma_same_script(states, script, j);
    assert(follows(states, j));
    lemma_leads(states[j], states[i]);
    if k < states[j].at {
        lemma_came_to_or_past(states, script, k, j);
    } else if states[j].at == k {
        assert(met_at(states, j, k));
    } else {
        assert(skipped_at(states, j, k));
    }
}

/// A run passes only where every step that it came to was met: every check
/// held when it was made, no request failed that was not to, and every item was
/// handed out that was to be. It came to every step of its script but those
/// that were skipped for want of a reply.
pub proof fn law_a_pass_meets_every_step(states: Seq<RunModel>, script: Seq<Step>, k: int)
    requires
        passing(states, script),
        0 <= k < script.len(),
    ensures
        forall|i: int|
            0 <= i < states.len() - 1 ==> met_at(states, i, (#[trigger] states[i]).at as int),
        (exists|i: int| met_at(states, i, k)) || (exists|i: int| skipped_at(states, i, k)),
{
    assert forall|i: int| 0 <= i < states.len() - 1 implies met_at(
        states,
        i,
        (#[trigger] states[i]).at as int,
    ) by {
        assert(follows(states, i));
        lemma_leads(states[i], states[i + 1]);
    }
    lemma_came_to_or_past(states, script, k, states.len() - 1);
}

/// Where no step of the script skips others, a run passes only where every step
/// was met in its turn.
pub proof fn law_a_straight_pass_meets_every_step(states: Seq<RunModel>, script: Seq<Step>, k: int)
    requires
        passing(states, script),
        straight(script),
        0 <= k < script.len(),
    ensures
        states.len() == script.len() + 1,
        states[k].at == k,
        met(script[k], states[k], states[k + 1]),
{
    lemma_straight_so_far(states, script, script.len() as int);
    lemma_straight_so_far(states, script, k);
}

/// A run passes only at the end of its script.
pub proof fn law_a_pass_is_the_end_of_the_script(m: RunModel, s: Step, after: RunModel, next: Next)
    requires
        stepped(m, s, after, next),
    ensures
        !(next is Passed),
{
}

/// A check that does not hold fails the run, and the run stays where it is: it
/// can never pass.
pub proof fn law_a_failed_check_fails_the_run(
    m: RunModel,
    check: Check,
    after: RunModel,
    next: Next,
)
    requires
        stepped(m, Step::Expect(check), after, next),
    ensures
        next is Failed <==> !holds(m, check),
        next is Failed ==> after == m,
{
}

/// A request that was to fail and did not fails the run, and so does one that
/// was not to fail and did.
pub proof fn law_wrong_outcomes_fail_the_run(m: RunModel, call: Call, r: Reply, elapsed: nat)
    ensures
        r is Failed ==> !accepts(Step::Do(call), r),
        r is Nothing ==> !accepts(Step::Take(call, 0), r),
        !(r is Failed) ==> !holds(
            replied(m, Step::Try(call), r, elapsed),
            Check::Failed,
        ),
        !(r is Nothing) ==> !holds(
            replied(m, Step::Try(call), r, elapsed),
            Check::Nothing,
        ),
{
}

/// A token that a fetch handed out is the one that a later request under the
/// same register carries.
pub proof fn law_tokens_are_carried(
    m: RunModel,
    fetch: Call,
    k: u64,
    r: Reply,
    elapsed: nat,
    q: Request,
    execution_id: u64,
)
    requires
        r is Turn,
        is_request(
            q,
            replied(m, Step::Take(fetch, k), r, elapsed),
            Call::Ack(Token::Held(k), execution_id),
        ),
    ensures
        r matches Reply::Turn(_, token, _) && q.token == Some(token),
{
}

/// What was prepared goes with one acknowledgement and no other.
pub proof fn law_prepared_once(m: RunModel, call: Call)
    ensures
        call is Ack ==> asked(m, call).ack == empty_ack(),
        !(call is Ack) ==> asked(m, call).ack == m.ack,
{
}

/// The reply that the run looks at is `r`: the last one, or the one that it picked.
pub open spec fn looks_at(m: RunModel, r: Reply) -> bool {
    match m.picked {
        None => m.last == r,
        Some(i) => 0 <= i < m.group.len() && m.group[i as int] == r,
    }
}

/// The run stands at this step, and awaits no reply.
pub open spec fn stands_at(m: RunModel, s: Step) -> bool {
    &&& !m.waiting
    &&& m.at < m.script.len()
    &&& m.script[m.at as int] == s
}

/// A check either holds, and the run goes on with nothing else changed, or does not, and
/// the run fails where it stands. Whether it holds is read off the reply at hand.
pub proof fn law_checks_read_the_reply(run: &mut Run, check: Check, r: Reply, next: Next)
    requires
        call_ensures(Run::step, (run,), next),
        stands_at(old(run)@, Step::Expect(check)),
        looks_at(old(run)@, r),
    ensures
        next is Go || next is Failed,
        next is Go ==> final(run)@ == (RunModel { at: old(run)@.at + 1, ..old(run)@ }),
        next is Failed ==> final(run)@ == old(run)@,
        match check {
            Check::Failed => next is Go <==> r is Failed,
            Check::Permanent => next is Go <==> (r matches Reply::Failed(e) && !e.retryable),
            Check::Nothing => next is Go <==> r is Nothing,
            Check::Something => next is Go <==> !(r is Failed) && !(r is NoManagement) && !(
            r is Nothing),
            Check::Tells(a, b) => next is Go <==> (r matches Reply::Failed(e) && (
            text::has_substring(e.message@, a@) || text::has_substring(e.message@, b@))),
            Check::Says(a, b, c) => next is Go <==> (r matches Reply::Failed(e) && {
                let lower = client::lowercased(e.text@);
                text::has_substring(lower, a@) || text::has_substring(lower, b@)
                    || text::has_substring(lower, c@)
            }),
            Check::Text(what, s) => next is Go <==> reply::text_of(what, r) == Some(Some(s@)),
            Check::NoText(what) => next is Go <==> reply::text_of(what, r) == Some(
                None::<Seq<char>>,
            ),
            Check::RootOnly(b) => next is Go <==> (r matches Reply::Tree(t) && (t.all_ids@.len()
                == 1) == b),
            Check::WorkIsActivity => next is Go <==> (r matches Reply::Work(w, _, _)
                && w is ActivityExecute),
            Check::ExecutionIfAny(e) => next is Go <==> r is Nothing || (r matches Reply::Turn(
                item,
                _,
                _,
            ) && item.execution_id == e),
            Check::EventIs(at, sort) => next is Go <==> (r matches Reply::History(h) && at
                < h@.len() && match sort {
                script::EventSort::Started => h@[at as int].kind is OrchestrationStarted,
                script::EventSort::Scheduled => h@[at as int].kind is ActivityScheduled,
                script::EventSort::Completed => h@[at as int].kind is OrchestrationCompleted,
            }),
            Check::MessageIs(at, sort) => next is Go <==> (r matches Reply::Turn(item, _, _) && at
                < item.messages@.len() && match sort {
                script::MessageSort::Timer => item.messages@[at as int] is TimerFired,
                script::MessageSort::Raised => item.messages@[at as int] is ExternalRaised,
                script::MessageSort::Completed(id) => item.messages@[at as int]
                    matches WorkItem::ActivityCompleted { id: i, .. } && i == id,
            }),
            Check::Has(s) => next is Go <==> (listed_in(r) matches Some(names) && exists|i: int|
                0 <= i < names.len() && (#[trigger] names[i])@ == s@),
            Check::Lacks(s) => next is Go <==> (listed_in(r) matches Some(names) && forall|i: int|
                0 <= i < names.len() ==> (#[trigger] names[i])@ != s@),
            Check::HasExecution(a, b) => next is Go <==> (r matches Reply::Executions(v) && (
            v@.contains(a) || v@.contains(b))),
            _ => true,
        },
{
}

/// The names that a reply lists.
pub open spec fn listed_in(r: Reply) -> Option<Seq<String>> {
    if let Reply::Names(v) = r {
        Some(v@)
    } else if let Reply::Tree(t) = r {
        Some(t.all_ids@)
    } else {
        None
    }
}

/// A number that the reply shows is compared as the check says: with a given one, with
/// one that was remembered, or with another one of the same reply. A number that the
/// reply does not show fails the run.
pub proof fn law_numbers_are_compared(
    run: &mut Run,
    what: Num,
    rel: Rel,
    operand: Operand,
    r: Reply,
    next: Next,
    a: u64,
    b: u64,
)
    requires
        call_ensures(Run::step, (run,), next),
        stands_at(old(run)@, Step::Expect(Check::Number(what, rel, operand))),
        looks_at(old(run)@, r),
    ensures
        reply::number_of(what, r) == Some(a) && (match operand {
            Operand::Literal(n) => n == b,
            Operand::Saved(k) => old(run)@.numbers.contains_key(k) && old(run)@.numbers[k] == b,
            Operand::Shown(other) => reply::number_of(other, r) == Some(b),
        }) ==> (next is Go <==> match rel {
            Rel::Is => a == b,
            Rel::AtLeast => a >= b,
            Rel::MoreThan => a > b,
            Rel::AtMost => a <= b,
        }),
        reply::number_of(what, r) is None && reply::group_number_of(what, old(run)@.group) is None
            ==> next is Failed,
        reply::number_of(what, r) is None && reply::group_number_of(what, old(run)@.group) == Some(
            a,
        ) && operand == Operand::Literal(b) ==> (next is Go <==> match rel {
            Rel::Is => a == b,
            Rel::AtLeast => a >= b,
            Rel::MoreThan => a > b,
            Rel::AtMost => a <= b,
        }),
{
}

/// Checks on what was remembered: tokens and numbers differ as they are to, the turns of
/// a group are of one instance, and the last request was as fast as it had to be.
pub proof fn law_checks_read_what_was_remembered(run: &mut Run, check: Check, next: Next)
    requires
        call_ensures(Run::step, (run,), next),
        stands_at(old(run)@, Step::Expect(check)),
    ensures
        ({
            let m = old(run)@;
            match check {
                Check::TokensDiffer(a, b) => next is Go <==> m.tokens.contains_key(a)
                    && m.tokens.contains_key(b) && m.tokens[a]@ != m.tokens[b]@,
                Check::TokenIsNot(a, s) => next is Go <==> m.tokens.contains_key(a) && m.tokens[a]@
                    != s@,
                Check::TokensDistinct(n) => next is Go <==> (forall|i: u64|
                    i < n ==> #[trigger] m.tokens.contains_key(i)) && (forall|i: u64, j: u64|
                    i < j < n ==> (#[trigger] m.tokens[i])@ != (#[trigger] m.tokens[j])@),
                Check::NumbersDiffer(a, b) => next is Go <==> m.numbers.contains_key(a)
                    && m.numbers.contains_key(b) && m.numbers[a] != m.numbers[b],
                Check::GroupTurnsAre(s) => next is Go <==> (forall|i: int|
                    0 <= i < m.group.len() ==> (#[trigger] m.group[i] matches Reply::Turn(
                        item,
                        _,
                        _,
                    ) ==> item.instance@ == s@)),
                Check::Faster(s) => next is Go <==> m.elapsed < span_nanos(s, m.lock, m.short_poll),
                Check::NotFaster(s) => next is Go <==> m.elapsed >= span_nanos(
                    s,
                    m.lock,
                    m.short_poll,
                ),
                _ => true,
            }
        }),
{
}

/// The completions among the messages of a fetched turn are those of a row, in its order.
pub proof fn law_completions_are_checked(
    run: &mut Run,
    first: u64,
    last: u64,
    item: reply::OrchestrationItem,
    token: String,
    n: u32,
    next: Next,
    messages: &Vec<WorkItem>,
    in_row: bool,
)
    requires
        call_ensures(Run::step, (run,), next),
        stands_at(old(run)@, Step::Expect(Check::Completions(first, last))),
        looks_at(old(run)@, Reply::Turn(item, token, n)),
        first <= last < u64::MAX,
        messages@ == item.messages@,
        call_ensures(completes_row, (messages, first, last), in_row),
    ensures
        next is Go <==> in_row,
{
}

/// No completion among the messages of a fetched turn says what it must not.
pub proof fn law_sayings_are_checked(
    run: &mut Run,
    s: &'static str,
    r: Reply,
    next: Next,
)
    requires
        call_ensures(Run::step, (run,), next),
        stands_at(old(run)@, Step::Expect(Check::NoCompletionSaying(s))),
        looks_at(old(run)@, r),
    ensures
        next is Go <==> (r matches Reply::Turn(item, _, _) && forall|i: int|
            0 <= i < item.messages@.len() ==> !((#[trigger] item.messages@[i])
                matches WorkItem::ActivityCompleted { result, .. } && text::has_substring(
                result@,
                s@,
            ))),
{
    if let Reply::Turn(item, _, _) = r {
        let all = item.messages@;
        if reply::completes_saying(all, s@) {
            let i = choose|i: int| 0 <= i < all.len() && #[trigger] reply::completion_says(
                all[i],
                s@,
            );
            assert(all[i] is ActivityCompleted);
        } else {
            assert forall|i: int| 0 <= i < all.len() implies !((#[trigger] all[i])
                matches WorkItem::ActivityCompleted { result, .. } && text::has_substring(
                result@,
                s@,
            )) by {
                assert(!reply::completion_says(all[i], s@));
            }
        }
    }
}

/// What is asked is what the step says: with the token that was remembered or given, and
/// an acknowledgement with all that was prepared, which is then used up. A step that
/// refers to a token that nobody handed out fails the run.
pub proof fn law_requests_carry_what_they_refer_to(
    run: &mut Run,
    call: Call,
    step: Step,
    k: u64,
    next: Next,
)
    requires
        call_ensures(Run::step, (run,), next),
        stands_at(old(run)@, step),
        step == Step::Do(call) || step == Step::Take(call, k) || step == Step::TakeIfAny(call, k)
            || step == Step::Try(call),
    ensures
        next is Ask || next is Failed,
        next matches Next::Ask(q) ==> q.call == call && final(run)@.waiting && final(run)@.at
            == old(run)@.at,
        next is Failed ==> final(run)@ == old(run)@,
        match call {
            Call::Ack(Token::Held(t), _) => {
                &&& next is Ask <==> old(run)@.tokens.contains_key(t)
                &&& next matches Next::Ask(q) ==> q.token == Some(old(run)@.tokens[t]) && q.ack@
                    == old(run)@.ack
                &&& next is Ask ==> final(run)@.ack.events.len() == 0
                    && final(run)@.ack.work.len() == 0 && final(run)@.ack.messages.len() == 0
                    && final(run)@.ack.cancelled.len() == 0
            },
            Call::Ack(Token::Given(s), _) => next matches Next::Ask(q) && (q.token matches Some(t)
                && t@ == s@) && q.ack@ == old(run)@.ack,
            Call::AckWork(Token::Held(t), _) | Call::AbandonTurn(Token::Held(t), _)
            | Call::AbandonWork(Token::Held(t), _, _) | Call::RenewTurn(Token::Held(t), _)
            | Call::RenewWork(Token::Held(t), _) => {
                &&& next is Ask <==> old(run)@.tokens.contains_key(t)
                &&& next matches Next::Ask(q) ==> q.token == Some(old(run)@.tokens[t])
                &&& final(run)@.ack == old(run)@.ack
            },
            Call::AckWorkAs(Token::Held(t), _, _, n, _) => {
                &&& next is Ask <==> old(run)@.tokens.contains_key(t)
                    && old(run)@.numbers.contains_key(n)
                &&& next matches Next::Ask(q) ==> q.token == Some(old(run)@.tokens[t]) && q.number
                    == Some(old(run)@.numbers[n])
            },
            Call::DeleteListed(_) | Call::PruneListed(_) => next matches Next::Ask(q) && q.ids@
                == old(run)@.ids && final(run)@.ids.len() == 0,
            Call::DeleteMatching(listed, before, _) => {
                &&& next is Ask <==> (before matches Some(n) ==> old(run)@.numbers.contains_key(n))
                &&& next matches Next::Ask(q) ==> {
                    &&& q.ids@ == if listed {
                        old(run)@.ids
                    } else {
                        Seq::empty()
                    }
                    &&& before matches Some(n) ==> q.number == Some(old(run)@.numbers[n])
                    &&& before is None ==> q.number is None
                }
            },
            Call::Put(_) | Call::PutWork(_) | Call::Read(_) | Call::Stats(_) | Call::Management
            | Call::Delete(_, _) | Call::Prune(_, _) | Call::Clock => next matches Next::Ask(q)
                && q.token is None && q.ids@.len() == 0 && q.number is None && final(run)@.ack
                == old(run)@.ack && final(run)@.ids == old(run)@.ids,
            _ => true,
        },
{
}

/// How long a request locks, waits, delays or sleeps: a span is so many tenths of its
/// base, less and plus some milliseconds.
pub proof fn law_spans_are_measured(
    run: &mut Run,
    base: Base,
    tenths: u8,
    minus_ms: u64,
    plus_ms: u64,
    poll: Span,
    next: Next,
    slept: &mut Run,
    asked: Next,
)
    requires
        call_ensures(Run::step, (run,), next),
        stands_at(
            old(run)@,
            Step::Do(Call::FetchTurn(Span { base, tenths, minus_ms, plus_ms }, poll)),
        ),
        call_ensures(Run::step, (slept,), asked),
        stands_at(old(slept)@, Step::Do(Call::Sleep(Span { base, tenths, minus_ms, plus_ms }))),
        old(slept)@.lock == old(run)@.lock && old(slept)@.short_poll == old(run)@.short_poll,
    ensures
        ({
            let whole = match base {
                Base::Zero => 0nat,
                Base::Lock => old(run)@.lock,
                Base::ShortPoll => old(run)@.short_poll,
            };
            &&& next is Ask && asked is Ask
            &&& next->Ask_0.span@ == asked->Ask_0.span@
            &&& asked->Ask_0.poll@ == 0
            &&& tenths == 10 && minus_ms == 0 && whole + plus_ms * 1_000_000
                <= 18_446_744_073_709_551_615_999_999_999 ==> next->Ask_0.span@ == whole + plus_ms
                * 1_000_000
            &&& tenths == 10 && minus_ms * 1_000_000 <= whole && plus_ms == 0 && whole
                <= 18_446_744_073_709_551_615_999_999_999 ==> next->Ask_0.span@ == whole - minus_ms
                * 1_000_000
            &&& tenths == 10 && minus_ms * 1_000_000 > whole ==> next->Ask_0.span@ == plus_ms
                * 1_000_000
            &&& base is Zero ==> next->Ask_0.span@ == plus_ms * 1_000_000
            &&& minus_ms == 0 && plus_ms == 0 && whole * tenths
                <= 18_446_744_073_709_551_615_999_999_999 ==> 10 * next->Ask_0.span@ - 5 <= whole
                * tenths < 10 * next->Ask_0.span@ + 5
            &&& poll.base is Zero && poll.minus_ms == 0 ==> next->Ask_0.poll@ == poll.plus_ms
                * 1_000_000
        }),
{
    let whole = match base {
        Base::Zero => 0nat,
        Base::Lock => old(run)@.lock,
        Base::ShortPoll => old(run)@.short_poll,
    };
    assert(0nat * tenths as nat == 0);
    assert(0nat * poll.tenths as nat == 0);
    if tenths == 10 {
        assert((whole * 10 + 5) / 10 == whole);
    }
}

/// What is prepared goes behind what was prepared before, and nothing else changes.
pub proof fn law_preparations_line_up(run: &mut Run, step: Step, next: Next)
    requires
        call_ensures(Run::step, (run,), next),
        stands_at(old(run)@, step),
        old(run)@.group.len() <= usize::MAX,
    ensures
        ({
            let a = old(run)@;
            let b = final(run)@;
            match step {
                Step::AddEvent(e) => next is Go && b.ack.events == a.ack.events.push(e)
                    && b.ack.work == a.ack.work && b.ack.messages == a.ack.messages
                    && b.ack.cancelled == a.ack.cancelled && b.ack.metadata == a.ack.metadata
                    && b.at == a.at + 1,
                Step::AddWork(i) => next is Go && b.ack.work == a.ack.work.push(i) && b.ack.events
                    == a.ack.events && b.ack.messages == a.ack.messages && b.ack.cancelled
                    == a.ack.cancelled && b.ack.metadata == a.ack.metadata && b.at == a.at + 1,
                Step::AddMessage(i) => next is Go && b.ack.messages == a.ack.messages.push(i)
                    && b.ack.work == a.ack.work && b.ack.events == a.ack.events && b.ack.cancelled
                    == a.ack.cancelled && b.ack.metadata == a.ack.metadata && b.at == a.at + 1,
                Step::AddCancelled(x) => next is Go && b.ack.cancelled == a.ack.cancelled.push(x)
                    && b.ack.work == a.ack.work && b.ack.messages == a.ack.messages
                    && b.ack.events == a.ack.events && b.ack.metadata == a.ack.metadata && b.at
                    == a.at + 1,
                Step::SetMetadata(d) => next is Go && b.ack.metadata == d && b.ack.events
                    == a.ack.events && b.ack.work == a.ack.work && b.ack.messages == a.ack.messages
                    && b.ack.cancelled == a.ack.cancelled && b.at == a.at + 1,
                Step::AddId(s) => next is Go && b.ids == a.ids.push(s) && b.ack == a.ack && b.at
                    == a.at + 1,
                Step::Save(k, what) => reply::number_of(what, current(a)) matches Some(n)
                    ==> next is Go && b.numbers.contains_key(k) && b.numbers[k] == n && b.at
                    == a.at + 1,
                Step::Keep(k) => match current(a) {
                    Reply::Turn(_, t, _) => next is Go && b.tokens.contains_key(k) && b.tokens[k]
                        == t && b.at == a.at + 1,
                    Reply::Work(_, t, _) => next is Go && b.tokens.contains_key(k) && b.tokens[k]
                        == t && b.at == a.at + 1,
                    _ => next is Failed,
                },
                Step::SkipIfNothing(n) => next is Go && b.tokens == a.tokens && b.numbers
                    == a.numbers && (!(current(a) is Nothing) ==> b.at == a.at + 1) && (current(
                    a,
                ) is Nothing && a.at + 1 + n <= a.script.len() ==> b.at == a.at + 1 + n),
                Step::Pick(i) => (next is Go <==> i < a.group.len()) && (next is Go ==> b.at
                    == a.at + 1 && current(b) == a.group[i as int]),
                Step::Shelve => next is Go && b.at == a.at + 1 && (a.picked is None ==> b.group
                    == a.group.push(a.last)),
                Step::Join(barrier) => next matches Next::Together(tasks, common) && tasks@
                    == a.tasks && common == barrier && b.tasks.len() == 0 && b.waiting,
                _ => true,
            }
        }),
{
}

/// A request that is prepared to be made together with others carries what the request
/// by itself would.
pub proof fn law_forks_prepare_requests(
    run: &mut Run,
    single: &mut Run,
    delay: Span,
    call: Call,
    hold: Span,
    retries: bool,
    next: Next,
    alone: Next,
)
    requires
        call_ensures(Run::step, (run,), next),
        stands_at(old(run)@, Step::Fork(delay, call, hold, retries)),
        call_ensures(Run::step, (single,), alone),
        stands_at(old(single)@, Step::Try(call)),
        old(single)@ == (RunModel { script: old(single)@.script, ..old(run)@ }),
    ensures
        next is Go <==> alone is Ask,
        next is Go ==> {
            let t = final(run)@.tasks.last();
            let q = alone->Ask_0;
            &&& final(run)@.tasks.drop_last() == old(run)@.tasks
            &&& t.retries == retries
            &&& t.request.call == call
            &&& t.request.ack@ == q.ack@ && t.request.ids@ == q.ids@ && t.request.number == q.number
            &&& t.request.span@ == q.span@ && t.request.poll@ == q.poll@
            &&& delay.base is Zero && delay.minus_ms == 0 ==> t.delay@ == delay.plus_ms * 1_000_000
            &&& hold.base is Zero && hold.minus_ms == 0 ==> t.hold@ == hold.plus_ms * 1_000_000
            &&& final(run)@.at == old(run)@.at + 1
        },
{
    assert(0nat * delay.tenths as nat == 0);
    assert(0nat * hold.tenths as nat == 0);
    if next is Go {
        assert(final(run)@.tasks.drop_last() =~= old(run)@.tasks);
    }
}

/// A reply is accepted or fails the run: a request that must not fail did not, one that
/// must hand out an item did and its token is remembered, one that may found nothing, and
/// one whose outcome is open did whatever it did. The reply is then the one at hand.
pub proof fn law_replies_are_accepted_or_fail_the_run(
    run: &mut Run,
    call: Call,
    k: u64,
    step: Step,
    r: Reply,
    elapsed: Duration,
    next: Next,
)
    requires
        call_ensures(Run::answer, (run, r, elapsed), next),
        old(run)@.waiting,
        old(run)@.at < old(run)@.script.len(),
        old(run)@.script[old(run)@.at as int] == step,
        step == Step::Do(call) || step == Step::Take(call, k) || step == Step::TakeIfAny(call, k)
            || step == Step::Try(call),
    ensures
        next is Go || next is Failed,
        step == Step::Do(call) ==> (next is Go <==> !(r is Failed) && !(r is NoManagement)),
        step == Step::Take(call, k) ==> (next is Go <==> r is Turn || r is Work),
        step == Step::TakeIfAny(call, k) ==> (next is Go <==> r is Turn || r is Work
            || r is Nothing),
        step == Step::Try(call) ==> (next is Go <==> !(r is NoManagement)),
        step == Step::Take(call, k) || step == Step::TakeIfAny(call, k) ==> match r {
            Reply::Turn(_, t, _) => final(run)@.tokens.contains_key(k) && final(run)@.tokens[k]
                == t,
            Reply::Work(_, t, _) => final(run)@.tokens.contains_key(k) && final(run)@.tokens[k]
                == t,
            _ => final(run)@.tokens == old(run)@.tokens,
        },
        next is Go ==> final(run)@.at == old(run)@.at + 1,
        next is Failed ==> final(run)@.at == old(run)@.at,
        !final(run)@.waiting,
        looks_at(final(run)@, r),
        final(run)@.elapsed == elapsed@,
{
}

/// The replies to requests that were made together are there in the order of the requests.
pub proof fn law_replies_to_a_group(run: &mut Run, replies: Vec<Reply>, next: Next)
    requires
        call_ensures(Run::answer_together, (run, replies), next),
    ensures
        next is Go,
        final(run)@.group == replies@,
        final(run)@.at == old(run)@.at + 1,
        !final(run)@.waiting,
        final(run)@.tokens == old(run)@.tokens && final(run)@.numbers == old(run)@.numbers,
{
}

/// A run starts at the first step of its script with nothing remembered, and passes
/// exactly at the end of it.
pub proof fn law_a_run_begins_and_ends(
    steps: Vec<Step>,
    lock: Duration,
    short_poll: Duration,
    begun: Run,
    run: &mut Run,
    next: Next,
    seen: &Run,
    waiting: bool,
    position: usize,
)
    requires
        call_ensures(Run::new, (steps, lock, short_poll), begun),
        call_ensures(Run::step, (run,), next),
        old(run)@.at <= old(run)@.script.len(),
        call_ensures(Run::is_waiting, (seen,), waiting),
        call_ensures(Run::position, (seen,), position),
    ensures
        begun@.script == steps@ && begun@.at == 0 && !begun@.waiting,
        begun@.lock == lock@ && begun@.short_poll == short_poll@,
        begun@.tokens.dom().is_empty() && begun@.numbers.dom().is_empty(),
        begun@.ids.len() == 0 && begun@.tasks.len() == 0 && begun@.group.len() == 0,
        begun@.ack.events.len() == 0 && begun@.ack.work.len() == 0 && begun@.ack.messages.len()
            == 0,
        next is Passed <==> old(run)@.at == old(run)@.script.len(),
        waiting == seen@.waiting,
        position == seen@.at,
{
}

/// An error that allows it is met with two more attempts, after ten and after twenty
/// milliseconds; nothing else is tried again.
pub proof fn law_attempts_are_repeated(attempt: u64, r: &Reply, wait: Option<u64>)
    requires
        call_ensures(again, (attempt, r), wait),
    ensures
        wait is Some <==> attempt < 2 && (*r matches Reply::Failed(e) && e.retryable),
        wait matches Some(ms) ==> ms == 10 * (attempt + 1),
{
}

/// The run stands at a step that makes this request.
pub open spec fn asks(m: RunModel, call: Call) -> bool {
    match m.script[m.at as int] {
        Step::Do(c) | Step::Take(c, _) | Step::TakeIfAny(c, _) | Step::Try(c) => c == call,
        _ => false,
    }
}

/// At the place `k` of its script the run got past this step: the check held of the reply
/// at hand, or the store was asked for this and replied as it has to.
pub open spec fn passed(states: Seq<RunModel>, k: int, s: Step) -> bool {
    match s {
        Step::Expect(check) => holds(states[k], check),
        Step::Do(c) => asks(states[k], c) && reply::succeeded(states[k + 1].last),
        Step::Take(c, r) => asks(states[k], c) && remembered(states[k + 1], r),
        Step::TakeIfAny(c, r) => asks(states[k], c) && (states[k + 1].last is Nothing || remembered(
            states[k + 1],
            r,
        )),
        Step::Try(c) => asks(states[k], c),
        _ => true,
    }
}

/// A run that passes got past each step of a script without skips.
pub proof fn lemma_passed(states: Seq<RunModel>, script: Seq<Step>)
    requires
        passing(states, script),
        straight(script),
    ensures
        states.len() == script.len() + 1,
        forall|k: int|
            #![trigger states[k]]
            0 <= k < script.len() ==> passed(states, k, script[k]) && states[k].script == script,
{
    lemma_straight_so_far(states, script, script.len() as int);
    assert forall|k: int|
        #![trigger states[k]]
        0 <= k < script.len() implies passed(states, k, script[k]) && states[k].script == script by {
        lemma_straight_so_far(states, script, k);
    }
}

} // verus!
