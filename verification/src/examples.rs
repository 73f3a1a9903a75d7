//! Example orchestrations.
use crate::client::{self, to_lowercase};
use crate::json::{self, number_field, object_text, text_field};
use crate::stress::{self, count_successes};
use crate::text::{self, join2, join3, u64_text};
use crate::workflow::{self, Note, Step, Traced, Work, Workflow};
use crate::workload::{self, activity_step};
use vstd::prelude::*;

verus! {

/// What the activity that greets traces.
pub fn greeting_message(name: &str) -> (r: String)
    ensures
        r@ == "Greeting user: "@ + name@,
{
    join2("Greeting user: ", name)
}

/// The activity that greets.
pub fn greet(name: &str) -> (r: String)
    ensures
        r@ == "Hello, "@ + name@ + "!"@,
{
    join3("Hello, ", name, "!")
}

/// The activity that says farewell.
pub fn farewell(name: &str) -> (r: String)
    ensures
        r@ == "Goodbye, "@ + name@ + "!"@,
{
    join3("Goodbye, ", name, "!")
}

/// A copy of a result.
fn copy_result(r: &Result<String, String>) -> (c: Result<String, String>)
    ensures
        c == *r,
{
    match r {
        Ok(s) => Ok(s.clone()),
        Err(e) => Err(e.clone()),
    }
}

/// An orchestration that greets someone and ends with the greeting.
#[derive(Debug)]
pub struct HelloWorld {
    pub name: String,
    /// What greeting came to.
    pub greeting: Option<Result<String, String>>,
}

impl HelloWorld {
    /// Starts on the name in the input.
    pub fn new(name: String) -> (r: Self)
        ensures
            HelloWorld::valid(r),
            r == (HelloWorld { name, greeting: None }),
    {
        HelloWorld { name, greeting: None }
    }
}

impl View for HelloWorld {
    type V = HelloWorld;

    open spec fn view(&self) -> HelloWorld {
        *self
    }
}

impl Workflow for HelloWorld {
    open spec fn valid(w: HelloWorld) -> bool {
        true
    }

    open spec fn is_next(w: HelloWorld, step: Step) -> bool {
        match w.greeting {
            None => workload::awaits_activity(step, "Greet"@, w.name@),
            Some(result) => step == Step::Finish(result),
        }
    }

    open spec fn awaits(w: HelloWorld, n: nat) -> bool {
        w.greeting is None && n == 1
    }

    open spec fn resumed(w: HelloWorld, results: Seq<Result<String, String>>) -> HelloWorld {
        HelloWorld { greeting: Some(results[0]), ..w }
    }

    open spec fn waits_left(w: HelloWorld) -> nat {
        if w.greeting is None {
            1
        } else {
            0
        }
    }

    fn next_step(&self) -> (r: Step) {
        match &self.greeting {
            None => activity_step("Greet", self.name.clone()),
            Some(result) => Step::Finish(copy_result(result)),
        }
    }

    fn resume(&mut self, results: Vec<Result<String, String>>) {
        self.greeting = Some(copy_result(&results[0]));
    }
}

/// An orchestration that greets someone, says farewell, and ends with both. A
/// failure of either is its own.
#[derive(Debug)]
pub struct GreetingWorkflow {
    pub name: String,
    /// What greeting came to.
    pub greeting: Option<Result<String, String>>,
    /// What the farewell came to.
    pub farewell: Option<Result<String, String>>,
}

impl GreetingWorkflow {
    /// Starts on the name in the input.
    pub fn new(name: String) -> (r: Self)
        ensures
            GreetingWorkflow::valid(r),
            r == (GreetingWorkflow { name, greeting: None, farewell: None }),
    {
        GreetingWorkflow { name, greeting: None, farewell: None }
    }
}

impl View for GreetingWorkflow {
    type V = GreetingWorkflow;

    open spec fn view(&self) -> GreetingWorkflow {
        *self
    }
}

impl Workflow for GreetingWorkflow {
    open spec fn valid(w: GreetingWorkflow) -> bool {
        w.farewell is Some ==> w.greeting matches Some(Ok(_))
    }

    open spec fn is_next(w: GreetingWorkflow, step: Step) -> bool {
        match (w.greeting, w.farewell) {
            (None, _) => workload::awaits_activity(step, "Greet"@, w.name@),
            (Some(Err(e)), _) => step == Step::Finish(Err(e)),
            (Some(Ok(_)), None) => workload::awaits_activity(step, "Farewell"@, w.name@),
            (Some(Ok(_)), Some(Err(e))) => step == Step::Finish(Err(e)),
            (Some(Ok(g)), Some(Ok(f))) => workload::ends_with(step, g@ + " | "@ + f@),
        }
    }

    open spec fn awaits(w: GreetingWorkflow, n: nat) -> bool {
        n == 1 && (w.greeting is None || w.greeting->0 is Ok && w.farewell is None)
    }

    open spec fn resumed(
        w: GreetingWorkflow,
        results: Seq<Result<String, String>>,
    ) -> GreetingWorkflow {
        if w.greeting is None {
            GreetingWorkflow { greeting: Some(results[0]), ..w }
        } else {
            GreetingWorkflow { farewell: Some(results[0]), ..w }
        }
    }

    open spec fn waits_left(w: GreetingWorkflow) -> nat {
        if w.greeting is None {
            2
        } else if w.farewell is None {
            1
        } else {
            0
        }
    }

    fn next_step(&self) -> (r: Step) {
        match (&self.greeting, &self.farewell) {
            (None, _) => activity_step("Greet", self.name.clone()),
            (Some(Err(e)), _) => Step::Finish(Err(e.clone())),
            (Some(Ok(_)), None) => activity_step("Farewell", self.name.clone()),
            (Some(Ok(_)), Some(Err(e))) => Step::Finish(Err(e.clone())),
            (Some(Ok(g)), Some(Ok(f))) => Step::Finish(
                Ok(join3(g.as_str(), " | ", f.as_str())),
            ),
        }
    }

    fn resume(&mut self, results: Vec<Result<String, String>>) {
        if self.greeting.is_none() {
            self.greeting = Some(copy_result(&results[0]));
        } else {
            self.farewell = Some(copy_result(&results[0]));
        }
    }
}

/// Someone to be welcomed.
#[derive(Debug)]
pub struct User {
    pub id: u32,
    pub name: String,
}

/// What is known of a user.
#[derive(Debug)]
pub struct UserProfile {
    pub user_id: u32,
    pub email: String,
    pub preferences: Vec<String>,
}

impl User {
    /// The user as JSON.
    pub fn to_json(&self) -> (r: String)
        ensures
            r@ == user_json(*self),
    {
        let fields = vec![
            number_field("id", self.id as u64),
            text_field("name", self.name.as_str()),
        ];
        proof {
            reveal_strlit("id");
            reveal_strlit("name");
            assert(json::precedes_at("id"@, "name"@, 0));
        }
        assert(json::field_texts(fields@) =~= seq![
            json::field("id"@, text::decimal(self.id as nat)),
            json::field("name"@, json::json_quoted(self.name@)),
        ]);
        object_text(&fields)
    }

    /// What the activity that fetches a profile traces.
    pub fn fetched_message(&self) -> (r: String)
        ensures
            r@ == "Fetched user "@ + text::decimal(self.id as nat),
    {
        join2("Fetched user ", u64_text(self.id as u64).as_str())
    }

    /// The activity that fetches a profile, given the name in lower case.
    pub fn profile_with(&self, lower_name: &str) -> (r: UserProfile)
        ensures
            r.user_id == self.id,
            r.email@ == lower_name@ + "@example.com"@,
            r.preferences@.len() == 2,
            r.preferences@[0]@ == "notifications"@,
            r.preferences@[1]@ == "dark_mode"@,
    {
        UserProfile {
            user_id: self.id,
            email: join2(lower_name, "@example.com"),
            preferences: vec!["notifications".to_string(), "dark_mode".to_string()],
        }
    }

    /// The activity that fetches a profile.
    pub fn profile(&self) -> (r: UserProfile)
        ensures
            r.user_id == self.id,
            r.email@ == client::lowercased(self.name@) + "@example.com"@,
            r.preferences@.len() == 2,
            r.preferences@[0]@ == "notifications"@,
            r.preferences@[1]@ == "dark_mode"@,
    {
        self.profile_with(to_lowercase(self.name.as_str()).as_str())
    }
}

impl UserProfile {
    /// What the activity that sends an email traces.
    pub fn sent_message(&self) -> (r: String)
        ensures
            r@ == "Sent welcome email to "@ + self.email@,
    {
        join2("Sent welcome email to ", self.email.as_str())
    }

    /// The activity that sends an email.
    pub fn welcome(&self) -> (r: String)
        ensures
            r@ == "Welcome email sent to "@ + self.email@,
    {
        join2("Welcome email sent to ", self.email.as_str())
    }
}

/// Every text can be handed to `parse`.
pub open spec fn reads_any<F: Fn(String) -> Result<u32, String>>(parse: F) -> bool {
    forall|s: String| #[trigger] call_requires(parse, (s,))
}

/// The profile was fetched, and `parse` reads user `id` in it.
pub open spec fn is_read<F: Fn(String) -> Result<u32, String>>(
    parse: F,
    result: Result<String, String>,
    id: u32,
) -> bool {
    result is Ok && call_ensures(parse, (result->Ok_0,), Ok(id))
}

/// `parse` fails on the profile with error `e`.
pub open spec fn is_unreadable<F: Fn(String) -> Result<u32, String>>(
    parse: F,
    profile: String,
    e: String,
) -> bool {
    call_ensures(parse, (profile,), Err(e))
}

/// These are the users that `parse` reads in the first profiles.
pub open spec fn read_through<F: Fn(String) -> Result<u32, String>>(
    parse: F,
    results: Seq<Result<String, String>>,
    ids: Seq<u32>,
) -> bool {
    &&& ids.len() <= results.len()
    &&& forall|i: int| 0 <= i < ids.len() ==> is_read(parse, results[i], #[trigger] ids[i])
}

/// What is wrong with a fetched profile: the fetch failed, or the profile
/// could not be parsed.
pub open spec fn goes_wrong<F: Fn(String) -> Result<u32, String>>(
    parse: F,
    result: Result<String, String>,
    failure: Seq<char>,
) -> bool {
    match result {
        Err(e) => failure == "Profile fetch failed: "@ + e@,
        Ok(profile) => exists|e: String| #[trigger]
            is_unreadable(parse, profile, e) && failure == "JSON parse error: "@ + e@,
    }
}

/// Going through fetched profiles gives these users, up to the first profile
/// with something wrong, and then this failure.
pub open spec fn fanned_in<F: Fn(String) -> Result<u32, String>>(
    parse: F,
    results: Seq<Result<String, String>>,
    ids: Seq<u32>,
    failure: Option<Seq<char>>,
) -> bool {
    &&& read_through(parse, results, ids)
    &&& match failure {
        None => ids.len() == results.len(),
        Some(text) => ids.len() < results.len() && goes_wrong(
            parse,
            results[ids.len() as int],
            text,
        ),
    }
}

/// The users read in the profiles before the first with something wrong, and
/// what is wrong with it.
#[derive(Debug)]
pub struct FanIn {
    /// The users to whom an email goes, in order.
    pub ids: Vec<u32>,
    /// What ends the orchestration.
    pub failure: Option<String>,
}

/// Goes through fetched profiles in their order, up to the first with something
/// wrong. `parse` reads the user in a profile.
pub fn fan_in<F: Fn(String) -> Result<u32, String>>(
    results: &Vec<Result<String, String>>,
    parse: &F,
) -> (r: FanIn)
    requires
        reads_any(*parse),
    ensures
        fanned_in(*parse, results@, r.ids@, json::text_view(r.failure)),
{
    let mut ids: Vec<u32> = Vec::new();
    let mut i: usize = 0;
    while i < results.len()
        invariant
            i <= results@.len(),
            reads_any(*parse),
            ids@.len() == i,
            read_through(*parse, results@, ids@),
        decreases results@.len() - i,
    {
        match &results[i] {
            Err(e) => {
                return FanIn { ids, failure: Some(join2("Profile fetch failed: ", e.as_str())) };
            },
            Ok(profile) => {
                let text: String = profile.clone();
                assert(call_requires(*parse, (text,)));
                match (*parse)(text) {
                    Ok(id) => {
                        let ghost before = ids@;
                        ids.push(id);
                        assert forall|k: int| 0 <= k < ids@.len() implies is_read(
                            *parse,
                            results@[k],
                            #[trigger] ids@[k],
                        ) by {
                            if k < i {
                                assert(ids@[k] == before[k]);
                            }
                        }
                    },
                    Err(e) => {
                        assert(is_unreadable(*parse, *profile, e));
                        return FanIn {
                            ids,
                            failure: Some(join2("JSON parse error: ", e.as_str())),
                        };
                    },
                }
            },
        }
        i += 1;
    }
    FanIn { ids, failure: None }
}

/// The profiles to which an email goes.
pub open spec fn welcomed(results: Seq<Result<String, String>>, n: nat) -> Seq<String> {
    Seq::new(n, |i: int| results[i]->Ok_0)
}

/// The first `n` profiles.
fn take_profiles(results: &Vec<Result<String, String>>, n: usize) -> (r: Vec<String>)
    requires
        n <= results@.len(),
        forall|i: int| 0 <= i < n ==> (#[trigger] results@[i]) is Ok,
    ensures
        r@ == welcomed(results@, n as nat),
{
    let mut profiles: Vec<String> = Vec::new();
    let mut i: usize = 0;
    while i < n
        invariant
            i <= n <= results@.len(),
            forall|k: int| 0 <= k < n ==> (#[trigger] results@[k]) is Ok,
            profiles@ == welcomed(results@, i as nat),
        decreases n - i,
    {
        assert(results@[i as int] is Ok);
        if let Ok(profile) = &results[i] {
            profiles.push(profile.clone());
        }
        assert(profiles@ =~= welcomed(results@, i as nat + 1));
        i += 1;
    }
    profiles
}

/// After fetched profiles that give these users and this failure, `step` comes:
/// the emails to all of them, or the end where something is wrong. The emails
/// before that were scheduled, and are given up.
pub open spec fn emails_follow(
    results: Seq<Result<String, String>>,
    ids: Seq<u32>,
    failure: Option<Seq<char>>,
    step: Step,
) -> bool {
    match failure {
        None => step matches Step::Await { work, name, inputs } && work is Activity && name@
            == "SendWelcomeEmail"@ && inputs@ == welcomed(results, ids.len()),
        Some(text) => step matches Step::Abandon { name, inputs, failure: f } && name@
            == "SendWelcomeEmail"@ && inputs@ == welcomed(results, ids.len()) && f@ == text,
    }
}

/// What is traced of the fetched profiles.
pub open spec fn profile_notes(results: Seq<Result<String, String>>, ids: Seq<u32>) -> Seq<
    (bool, Seq<char>),
> {
    let fetched = Seq::new(
        ids.len(),
        |i: int| (false, "Fetched profile for user "@ + text::decimal(ids[i] as nat)),
    );
    if ids.len() < results.len() && results[ids.len() as int] is Err {
        fetched.push(
            (true, "Failed to fetch user profile: "@ + results[ids.len() as int]->Err_0@),
        )
    } else {
        fetched
    }
}

/// Whether `step` comes after these fetched profiles.
pub open spec fn follows_profiles<F: Fn(String) -> Result<u32, String>>(
    parse: F,
    results: Seq<Result<String, String>>,
    step: Step,
) -> bool {
    exists|ids: Seq<u32>, failure: Option<Seq<char>>| #[trigger]
        fanned_in(parse, results, ids, failure) && emails_follow(results, ids, failure, step)
}

/// Whether the notes are traced of these fetched profiles.
pub open spec fn traces_profiles<F: Fn(String) -> Result<u32, String>>(
    parse: F,
    results: Seq<Result<String, String>>,
    notes: Seq<(bool, Seq<char>)>,
) -> bool {
    exists|ids: Seq<u32>, failure: Option<Seq<char>>| #[trigger]
        fanned_in(parse, results, ids, failure) && notes == profile_notes(results, ids)
}

/// The step fetches the profiles of all users.
pub open spec fn fetches_profiles(users: Seq<User>, step: Step) -> bool {
    step matches Step::Await { work, name, inputs } && work is Activity && name@
        == "FetchUserProfile"@ && inputs@.len() == users.len() && forall|i: int|
        0 <= i < inputs@.len() ==> (#[trigger] inputs@[i])@ == user_json(users[i])
}

/// What is traced of an email.
pub open spec fn email_note(result: Result<String, String>) -> (bool, Seq<char>) {
    match result {
        Ok(message) => (false, message@),
        Err(e) => (true, "Email failed: "@ + e@),
    }
}

/// The output once all emails are over: how many were sent.
pub fn users_processed(emails: &Vec<Result<String, String>>) -> (r: String)
    ensures
        r@ == processed_text(emails@),
{
    join3("Successfully processed ", u64_text(count_successes(emails) as u64).as_str(), " users")
}

/// The output once all emails are over: how many were sent.
pub open spec fn processed_text(emails: Seq<Result<String, String>>) -> Seq<char> {
    "Successfully processed "@ + text::decimal(stress::successes(emails)) + " users"@
}

/// An orchestration that fetches the profiles of all users together, and then
/// sends an email to each. `parse` reads the user in a profile.
pub struct FanOutFanIn<F: Fn(String) -> Result<u32, String>> {
    /// The users in the input, or why they could not be parsed.
    users: Result<Vec<User>, String>,
    /// What fetching the profiles came to.
    profiles: Option<Vec<Result<String, String>>>,
    /// What sending the emails came to.
    emails: Option<Vec<Result<String, String>>>,
    parse: F,
}

/// What a [`FanOutFanIn`] stands for.
pub struct FanOutModel<F> {
    pub users: Result<Seq<User>, String>,
    pub profiles: Option<Seq<Result<String, String>>>,
    pub emails: Option<Seq<Result<String, String>>>,
    pub parse: F,
}

/// The view of optional results.
pub open spec fn results_view(results: Option<Vec<Result<String, String>>>) -> Option<
    Seq<Result<String, String>>,
> {
    match results {
        Some(v) => Some(v@),
        None => None,
    }
}

/// The view of users that may have been parsed.
pub open spec fn users_view(users: Result<Vec<User>, String>) -> Result<Seq<User>, String> {
    match users {
        Ok(v) => Ok(v@),
        Err(e) => Err(e),
    }
}

impl<F: Fn(String) -> Result<u32, String>> View for FanOutFanIn<F> {
    type V = FanOutModel<F>;

    closed spec fn view(&self) -> FanOutModel<F> {
        FanOutModel {
            users: users_view(self.users),
            profiles: results_view(self.profiles),
            emails: results_view(self.emails),
            parse: self.parse,
        }
    }
}

/// A user as JSON.
pub open spec fn user_json(user: User) -> Seq<char> {
    json::object(
        seq![
            json::field("id"@, text::decimal(user.id as nat)),
            json::field("name"@, json::json_quoted(user.name@)),
        ],
    )
}

/// Users as JSON.
fn users_json(users: &Vec<User>) -> (r: Vec<String>)
    ensures
        r@.len() == users@.len(),
        forall|i: int| 0 <= i < r@.len() ==> (#[trigger] r@[i])@ == user_json(users@[i]),
{
    let mut inputs: Vec<String> = Vec::new();
    let mut i: usize = 0;
    while i < users.len()
        invariant
            i <= users@.len(),
            inputs@.len() == i,
            forall|k: int| 0 <= k < i ==> (#[trigger] inputs@[k])@ == user_json(users@[k]),
        decreases users@.len() - i,
    {
        inputs.push(users[i].to_json());
        i += 1;
    }
    inputs
}

impl<F: Fn(String) -> Result<u32, String>> FanOutFanIn<F> {
    /// Starts on the users in the input, as far as they could be parsed.
    pub fn new(users: Result<Vec<User>, String>, parse: F) -> (r: Self)
        requires
            reads_any(parse),
        ensures
            Self::valid(r@),
            r@ == (FanOutModel { users: users_view(users), profiles: None, emails: None, parse }),
    {
        FanOutFanIn { users, profiles: None, emails: None, parse }
    }
}

impl<F: Fn(String) -> Result<u32, String>> Workflow for FanOutFanIn<F> {
    open spec fn valid(w: FanOutModel<F>) -> bool {
        &&& reads_any(w.parse)
        &&& w.profiles is Some ==> w.users is Ok
        &&& w.emails is Some ==> w.profiles is Some
    }

    /// All profiles together, all emails together, and then the end. The first
    /// profile with something wrong is the end too.
    open spec fn is_next(w: FanOutModel<F>, step: Step) -> bool {
        match (w.users, w.profiles, w.emails) {
            (Err(e), _, _) => step matches Step::Finish(Err(text)) && text@ == "JSON parse error: "@
                + e@,
            (Ok(users), None, _) => fetches_profiles(users, step),
            (Ok(_), Some(results), None) => follows_profiles(w.parse, results, step),
            (Ok(_), Some(_), Some(emails)) => workload::ends_with(step, processed_text(emails)),
        }
    }

    open spec fn awaits(w: FanOutModel<F>, n: nat) -> bool {
        match (w.users, w.profiles) {
            (Ok(users), None) => n == users.len(),
            (Ok(_), Some(results)) => w.emails is None && n == results.len(),
            _ => false,
        }
    }

    open spec fn resumed(
        w: FanOutModel<F>,
        results: Seq<Result<String, String>>,
    ) -> FanOutModel<F> {
        if w.profiles is None {
            FanOutModel { profiles: Some(results), ..w }
        } else {
            FanOutModel { emails: Some(results), ..w }
        }
    }

    open spec fn waits_left(w: FanOutModel<F>) -> nat {
        if w.profiles is None {
            2
        } else if w.emails is None {
            1
        } else {
            0
        }
    }

    fn next_step(&self) -> (r: Step) {
        match (&self.users, &self.profiles, &self.emails) {
            (Err(e), _, _) => Step::Finish(Err(join2("JSON parse error: ", e.as_str()))),
            (Ok(users), None, _) => Step::Await {
                work: Work::Activity,
                name: "FetchUserProfile",
                inputs: users_json(users),
            },
            (Ok(_), Some(results), None) => {
                let read = fan_in(results, &self.parse);
                let ghost ids = read.ids@;
                assert forall|i: int| 0 <= i < ids.len() implies (#[trigger] results@[i]) is Ok by {
                    assert(is_read(self.parse, results@[i], ids[i]));
                }
                let inputs = take_profiles(results, read.ids.len());
                let ghost text = json::text_view(read.failure);
                assert(fanned_in(self@.parse, results@, ids, text));
                let step = match read.failure {
                    None => Step::Await { work: Work::Activity, name: "SendWelcomeEmail", inputs },
                    Some(failure) => Step::Abandon { name: "SendWelcomeEmail", inputs, failure },
                };
                assert(emails_follow(results@, ids, text, step));
                step
            },
            (Ok(_), Some(_), Some(emails)) => Step::Finish(Ok(users_processed(emails))),
        }
    }

    fn resume(&mut self, results: Vec<Result<String, String>>) {
        if self.profiles.is_none() {
            self.profiles = Some(results);
        } else {
            self.emails = Some(results);
        }
    }
}

/// A note for information.
fn info(message: String) -> (r: Note)
    ensures
        (r.error, r.message@) == (false, message@),
{
    Note { error: false, message }
}

impl<F: Fn(String) -> Result<u32, String>> Traced for FanOutFanIn<F> {
    open spec fn is_traced(w: FanOutModel<F>, notes: Seq<(bool, Seq<char>)>) -> bool {
        match (w.users, w.profiles, w.emails) {
            (Err(_), _, _) => notes == seq![(false, "Starting fan-out/fan-in orchestration"@)],
            (Ok(users), None, _) => notes == seq![
                (false, "Starting fan-out/fan-in orchestration"@),
                (false, "Processing "@ + text::decimal(users.len()) + " users in parallel"@),
            ],
            (Ok(_), Some(results), None) => traces_profiles(w.parse, results, notes),
            (Ok(_), Some(_), Some(emails)) => notes == emails.map_values(
                |e: Result<String, String>| email_note(e),
            ),
        }
    }

    fn notes(&self) -> (r: Vec<Note>) {
        let mut notes: Vec<Note> = Vec::new();
        match (&self.users, &self.profiles, &self.emails) {
            (Err(_), _, _) => {
                notes.push(info("Starting fan-out/fan-in orchestration".to_string()));
                assert(workflow::note_views(notes@) =~= seq![
                    (false, "Starting fan-out/fan-in orchestration"@),
                ]);
            },
            (Ok(users), None, _) => {
                notes.push(info("Starting fan-out/fan-in orchestration".to_string()));
                let count = u64_text(users.len() as u64);
                notes.push(info(join3("Processing ", count.as_str(), " users in parallel")));
                assert(workflow::note_views(notes@) =~= seq![
                    (false, "Starting fan-out/fan-in orchestration"@),
                    (
                        false,
                        "Processing "@ + text::decimal(users@.len()) + " users in parallel"@,
                    ),
                ]);
            },
            (Ok(_), Some(results), None) => {
                let read = fan_in(results, &self.parse);
                let mut i: usize = 0;
                while i < read.ids.len()
                    invariant
                        i <= read.ids@.len(),
                        notes@.len() == i,
                        forall|k: int|
                            0 <= k < i ==> ((#[trigger] notes@[k]).error, notes@[k].message@) == (
                                false,
                                "Fetched profile for user "@ + text::decimal(read.ids@[k] as nat),
                            ),
                    decreases read.ids@.len() - i,
                {
                    let id = u64_text(read.ids[i] as u64);
                    notes.push(info(join2("Fetched profile for user ", id.as_str())));
                    i += 1;
                }
                if i < results.len() {
                    if let Err(e) = &results[i] {
                        notes.push(
                            Note {
                                error: true,
                                message: join2("Failed to fetch user profile: ", e.as_str()),
                            },
                        );
                    }
                }
                proof {
                    let text = json::text_view(read.failure);
                    assert(fanned_in(self@.parse, results@, read.ids@, text));
                    assert(workflow::note_views(notes@) =~= profile_notes(results@, read.ids@));
                }
            },
            (Ok(_), Some(_), Some(emails)) => {
                let mut i: usize = 0;
                while i < emails.len()
                    invariant
                        i <= emails@.len(),
                        notes@.len() == i,
                        forall|k: int|
                            0 <= k < i ==> ((#[trigger] notes@[k]).error, notes@[k].message@)
                                == email_note(emails@[k]),
                    decreases emails@.len() - i,
                {
                    match &emails[i] {
                        Ok(message) => {
                            notes.push(info(message.clone()));
                        },
                        Err(e) => {
                            notes.push(
                                Note { error: true, message: join2("Email failed: ", e.as_str()) },
                            );
                        },
                    }
                    i += 1;
                }
                assert(workflow::note_views(notes@) =~= emails@.map_values(
                    |e: Result<String, String>| email_note(e),
                ));
            },
        }
        notes
    }
}

impl Traced for HelloWorld {
    open spec fn is_traced(w: HelloWorld, notes: Seq<(bool, Seq<char>)>) -> bool {
        match w.greeting {
            None => notes == seq![(false, "Starting greeting orchestration"@)],
            Some(Ok(g)) => notes == seq![(false, "Greeting completed: "@ + g@)],
            Some(Err(_)) => notes.len() == 0,
        }
    }

    fn notes(&self) -> (r: Vec<Note>) {
        let mut notes: Vec<Note> = Vec::new();
        match &self.greeting {
            None => {
                notes.push(info("Starting greeting orchestration".to_string()));
                assert(workflow::note_views(notes@) =~= seq![
                    (false, "Starting greeting orchestration"@),
                ]);
            },
            Some(Ok(g)) => {
                notes.push(info(join2("Greeting completed: ", g.as_str())));
                assert(workflow::note_views(notes@) =~= seq![
                    (false, "Greeting completed: "@ + g@),
                ]);
            },
            Some(Err(_)) => {},
        }
        notes
    }
}

impl Traced for GreetingWorkflow {
    open spec fn is_traced(w: GreetingWorkflow, notes: Seq<(bool, Seq<char>)>) -> bool {
        match (w.greeting, w.farewell) {
            (None, _) => notes == seq![(false, "Starting greeting orchestration"@)],
            (Some(Ok(g)), None) => notes == seq![(false, "Got greeting: "@ + g@)],
            (Some(Ok(_)), Some(Ok(_))) => notes == seq![(false, "Orchestration completing"@)],
            _ => notes.len() == 0,
        }
    }

    fn notes(&self) -> (r: Vec<Note>) {
        let mut notes: Vec<Note> = Vec::new();
        match (&self.greeting, &self.farewell) {
            (None, _) => {
                notes.push(info("Starting greeting orchestration".to_string()));
                assert(workflow::note_views(notes@) =~= seq![
                    (false, "Starting greeting orchestration"@),
                ]);
            },
            (Some(Ok(g)), None) => {
                notes.push(info(join2("Got greeting: ", g.as_str())));
                assert(workflow::note_views(notes@) =~= seq![(false, "Got greeting: "@ + g@)]);
            },
            (Some(Ok(_)), Some(Ok(_))) => {
                notes.push(info("Orchestration completing".to_string()));
                assert(workflow::note_views(notes@) =~= seq![
                    (false, "Orchestration completing"@),
                ]);
            },
            _ => {},
        }
        notes
    }
}

/// Greeting someone waits for one activity with the name, and ends with what that
/// activity came to, a failure included.
pub proof fn law_hello_world_ends_with_its_greeting(
    w: &HelloWorld,
    step: Step,
    resumed: &mut HelloWorld,
    results: Vec<Result<String, String>>,
    name: String,
    fresh: HelloWorld,
)
    requires
        call_ensures(HelloWorld::next_step, (w,), step),
        call_ensures(HelloWorld::resume, (resumed, results), ()),
        call_ensures(HelloWorld::new, (name,), fresh),
    ensures
        w.greeting is None ==> (step matches Step::Await { work, name: n, inputs }
            && work is Activity && n@ == "Greet"@ && inputs@.len() == 1 && inputs@[0]@ == w.name@),
        w.greeting matches Some(result) ==> step == Step::Finish(result),
        final(resumed).greeting == Some(results@[0]),
        final(resumed).name == old(resumed).name,
        fresh.name == name && fresh.greeting is None,
{
}

/// The greeting and the farewell run one after the other with the same name; the first
/// that fails ends the whole with its error, and both together end it with both.
pub proof fn law_a_greeting_is_followed_by_a_farewell(
    w: &GreetingWorkflow,
    step: Step,
    resumed: &mut GreetingWorkflow,
    results: Vec<Result<String, String>>,
    name: String,
    fresh: GreetingWorkflow,
)
    requires
        call_ensures(GreetingWorkflow::next_step, (w,), step),
        call_ensures(GreetingWorkflow::resume, (resumed, results), ()),
        call_ensures(GreetingWorkflow::new, (name,), fresh),
    ensures
        w.greeting is None ==> (step matches Step::Await { work, name: n, inputs }
            && work is Activity && n@ == "Greet"@ && inputs@.len() == 1 && inputs@[0]@ == w.name@),
        w.greeting matches Some(Err(e)) ==> step == Step::Finish(Err(e)),
        w.greeting matches Some(Ok(g)) ==> match w.farewell {
            None => step matches Step::Await { work, name: n, inputs } && work is Activity && n@
                == "Farewell"@ && inputs@.len() == 1 && inputs@[0]@ == w.name@,
            Some(Err(e)) => step == Step::Finish(Err(e)),
            Some(Ok(f)) => step matches Step::Finish(Ok(s)) && s@ == g@ + " | "@ + f@,
        },
        old(resumed).greeting is None ==> final(resumed).greeting == Some(results@[0])
            && final(resumed).farewell == old(resumed).farewell,
        old(resumed).greeting is Some ==> final(resumed).farewell == Some(results@[0])
            && final(resumed).greeting == old(resumed).greeting,
        final(resumed).name == old(resumed).name,
        fresh.name == name && fresh.greeting is None && fresh.farewell is None,
{
}

/// What the activities of the examples say.
pub proof fn law_example_activities_say(
    name: &str,
    traced: String,
    hello: String,
    goodbye: String,
    profile: &UserProfile,
    sent: String,
    welcome: String,
)
    requires
        call_ensures(greeting_message, (name,), traced),
        call_ensures(greet, (name,), hello),
        call_ensures(farewell, (name,), goodbye),
        call_ensures(UserProfile::sent_message, (profile,), sent),
        call_ensures(UserProfile::welcome, (profile,), welcome),
    ensures
        traced@ == "Greeting user: "@ + name@,
        hello@ == "Hello, "@ + name@ + "!"@,
        goodbye@ == "Goodbye, "@ + name@ + "!"@,
        sent@ == "Sent welcome email to "@ + profile.email@,
        welcome@ == "Welcome email sent to "@ + profile.email@,
{
}

/// A user is written with the identifier and the name, and the profile is that of the
/// same user, at an address of the name in lower case.
pub proof fn law_profiles_are_those_of_their_users(
    user: &User,
    written: String,
    fetched: String,
    lower: &str,
    given: UserProfile,
    profile: UserProfile,
)
    requires
        call_ensures(User::to_json, (user,), written),
        call_ensures(User::fetched_message, (user,), fetched),
        call_ensures(User::profile_with, (user, lower), given),
        call_ensures(User::profile, (user,), profile),
    ensures
        written@ == json::object(
            seq![
                json::field("id"@, text::decimal(user.id as nat)),
                json::field("name"@, json::json_quoted(user.name@)),
            ],
        ),
        fetched@ == "Fetched user "@ + text::decimal(user.id as nat),
        given.user_id == user.id && profile.user_id == user.id,
        given.email@ == lower@ + "@example.com"@,
        profile.email@ == client::lowercased(user.name@) + "@example.com"@,
        given.preferences@.len() == 2 && profile.preferences@.len() == 2,
        given.preferences@[0]@ == "notifications"@ && given.preferences@[1]@ == "dark_mode"@,
        profile.preferences@[0]@ == "notifications"@ && profile.preferences@[1]@ == "dark_mode"@,
{
}

/// Going through profiles reads a user in each up to the first that has something
/// wrong, and says what is wrong with that one; where nothing is wrong, it reads all.
pub proof fn law_profiles_are_read_up_to_the_first_failure<F: Fn(String) -> Result<u32, String>>(
    results: &Vec<Result<String, String>>,
    parse: &F,
    r: FanIn,
    i: int,
)
    requires
        call_ensures(fan_in::<F>, (results, parse), r),
    ensures
        r.ids@.len() <= results@.len(),
        r.failure is None <==> r.ids@.len() == results@.len(),
        0 <= i < r.ids@.len() ==> results@[i] is Ok && call_ensures(
            *parse,
            (results@[i]->Ok_0,),
            Ok(r.ids@[i]),
        ),
        r.failure matches Some(f) ==> match results@[r.ids@.len() as int] {
            Err(e) => f@ == "Profile fetch failed: "@ + e@,
            Ok(profile) => exists|e: String| #[trigger]
                call_ensures(*parse, (profile,), Err(e)) && f@ == "JSON parse error: "@ + e@,
        },
{
    if 0 <= i < r.ids@.len() {
        assert(is_read(*parse, results@[i], r.ids@[i]));
    }
    if let Some(f) = r.failure {
        let at = r.ids@.len() as int;
        assert(goes_wrong(*parse, results@[at], f@));
        if let Ok(profile) = results@[at] {
            let e = choose|e: String| #[trigger]
                is_unreadable(*parse, profile, e) && f@ == "JSON parse error: "@ + e@;
            assert(call_ensures(*parse, (profile,), Err(e)));
        }
    }
}

/// The users in the input are fetched together, one activity for each in their order;
/// an input that could not be parsed ends the whole with the reason.
pub proof fn law_all_profiles_are_fetched_together<F: Fn(String) -> Result<u32, String>>(
    w: &FanOutFanIn<F>,
    step: Step,
)
    requires
        call_ensures(FanOutFanIn::<F>::next_step, (w,), step),
    ensures
        w@.users matches Err(e) ==> (step matches Step::Finish(Err(t)) && t@
            == "JSON parse error: "@ + e@),
        w@.users matches Ok(users) ==> (w@.profiles is None ==> (step matches Step::Await {
            work,
            name,
            inputs,
        } && work is Activity && name@ == "FetchUserProfile"@ && inputs@.len() == users.len()
            && forall|i: int|
            0 <= i < users.len() ==> (#[trigger] inputs@[i])@ == json::object(
                seq![
                    json::field("id"@, text::decimal(users[i].id as nat)),
                    json::field("name"@, json::json_quoted(users[i].name@)),
                ],
            ))),
{
}

/// After the profiles, an email goes to each user, with the profile as it was fetched,
/// in the same order; where a profile could not be fetched, the emails before it are
/// given up, and the whole ends with that failure. In the end it is said how many
/// emails were sent.
pub proof fn law_emails_follow_the_profiles<F: Fn(String) -> Result<u32, String>>(
    w: &FanOutFanIn<F>,
    step: Step,
    results: Seq<Result<String, String>>,
)
    requires
        call_ensures(FanOutFanIn::<F>::next_step, (w,), step),
        w@.users is Ok,
        w@.profiles == Some(results),
    ensures
        w@.emails is None ==> match step {
            Step::Await { work, name, inputs } => work is Activity && name@ == "SendWelcomeEmail"@
                && inputs@.len() == results.len() && forall|i: int|
                0 <= i < results.len() ==> results[i] == Ok::<String, String>(#[trigger] inputs@[i]),
            Step::Abandon { name, inputs, failure } => name@ == "SendWelcomeEmail"@ && inputs@.len()
                < results.len() && (forall|i: int|
                0 <= i < inputs@.len() ==> results[i] == Ok::<String, String>(
                    #[trigger] inputs@[i],
                )) && (results[inputs@.len() as int] matches Err(e) ==> failure@
                == "Profile fetch failed: "@ + e@),
            Step::Finish(_) => false,
        },
        w@.emails is None && (exists|i: int|
            0 <= i < results.len() && (#[trigger] results[i]) is Err) ==> step is Abandon,
        w@.emails matches Some(emails) ==> (step matches Step::Finish(Ok(s)) && s@
            == "Successfully processed "@ + text::decimal(stress::successes(emails)) + " users"@),
{
    if w@.emails is None {
        let (ids, failure) = choose|ids: Seq<u32>, failure: Option<Seq<char>>| #[trigger]
            fanned_in(w@.parse, results, ids, failure) && emails_follow(
                results,
                ids,
                failure,
                step,
            );
        assert forall|i: int| 0 <= i < ids.len() implies (#[trigger] results[i]) is Ok by {
            assert(is_read(w@.parse, results[i], ids[i]));
        }
        let sent = welcomed(results, ids.len());
        assert forall|i: int| 0 <= i < ids.len() implies results[i] == Ok::<String, String>(
            #[trigger] sent[i],
        ) by {
            assert(results[i] is Ok);
        }
    }
}

/// What was waited for is kept: first the profiles, then the emails.
pub proof fn law_profiles_come_before_emails<F: Fn(String) -> Result<u32, String>>(
    users: Result<Vec<User>, String>,
    parse: F,
    fresh: FanOutFanIn<F>,
    w: &mut FanOutFanIn<F>,
    results: Vec<Result<String, String>>,
    emails: &Vec<Result<String, String>>,
    said: String,
)
    requires
        call_ensures(FanOutFanIn::<F>::new, (users, parse), fresh),
        call_ensures(FanOutFanIn::<F>::resume, (w, results), ()),
        call_ensures(users_processed, (emails,), said),
    ensures
        fresh@.profiles is None && fresh@.emails is None,
        users matches Ok(v) ==> fresh@.users == Ok::<Seq<User>, String>(v@),
        users matches Err(e) ==> fresh@.users == Err::<Seq<User>, String>(e),
        old(w)@.profiles is None ==> final(w)@.profiles == Some(results@) && final(w)@.emails
            == old(w)@.emails,
        old(w)@.profiles is Some ==> final(w)@.emails == Some(results@) && final(w)@.profiles
            == old(w)@.profiles,
        final(w)@.users == old(w)@.users,
        said@ == "Successfully processed "@ + text::decimal(stress::successes(emails@))
            + " users"@,
{
}

/// A greeting is announced before it is asked for, and shown once it is there;
/// with a farewell to come, the end is announced too. A failure is not noted.
pub proof fn law_greetings_are_noted(
    hello: &HelloWorld,
    h: Vec<Note>,
    greeting: &GreetingWorkflow,
    g: Vec<Note>,
)
    requires
        call_ensures(HelloWorld::notes, (hello,), h),
        call_ensures(GreetingWorkflow::notes, (greeting,), g),
    ensures
        hello.greeting is None ==> h@.len() == 1 && !h@[0].error && h@[0].message@
            == "Starting greeting orchestration"@,
        hello.greeting matches Some(Ok(s)) ==> h@.len() == 1 && !h@[0].error && h@[0].message@
            == "Greeting completed: "@ + s@,
        hello.greeting matches Some(Err(_)) ==> h@.len() == 0,
        greeting.greeting is None ==> g@.len() == 1 && !g@[0].error && g@[0].message@
            == "Starting greeting orchestration"@,
        greeting.greeting matches Some(Ok(s)) ==> (greeting.farewell is None ==> g@.len() == 1
            && !g@[0].error && g@[0].message@ == "Got greeting: "@ + s@),
        (greeting.greeting matches Some(Ok(_))) && (greeting.farewell matches Some(Ok(_)))
            ==> g@.len() == 1 && !g@[0].error && g@[0].message@ == "Orchestration completing"@,
        (greeting.greeting matches Some(Err(_))) ==> g@.len() == 0,
        (greeting.greeting matches Some(Ok(_))) && (greeting.farewell matches Some(Err(_)))
            ==> g@.len() == 0,
{
    assert(workflow::note_views(h@).len() == h@.len());
    assert(workflow::note_views(g@).len() == g@.len());
    if h@.len() > 0 {
        assert(workflow::note_views(h@)[0] == (h@[0].error, h@[0].message@));
    }
    if g@.len() > 0 {
        assert(workflow::note_views(g@)[0] == (g@[0].error, g@[0].message@));
    }
}

/// What is processed is announced with the number of users. Then each email is
/// noted in order, a sent one with its text and a failed one as an error with the
/// reason.
pub proof fn law_processing_is_noted<F: Fn(String) -> Result<u32, String>>(
    w: &FanOutFanIn<F>,
    r: Vec<Note>,
    i: int,
)
    requires
        call_ensures(FanOutFanIn::<F>::notes, (w,), r),
    ensures
        w@.users matches Ok(users) ==> (w@.profiles is None ==> r@.len() == 2 && !r@[0].error
            && !r@[1].error && r@[0].message@ == "Starting fan-out/fan-in orchestration"@
            && r@[1].message@ == "Processing "@ + text::decimal(users.len())
            + " users in parallel"@),
        w@.users is Ok && w@.profiles is Some ==> (w@.emails matches Some(emails) ==> {
            &&& r@.len() == emails.len()
            &&& 0 <= i < emails.len() ==> match emails[i] {
                Ok(s) => !r@[i].error && r@[i].message@ == s@,
                Err(e) => r@[i].error && r@[i].message@ == "Email failed: "@ + e@,
            }
        }),
{
    let notes = workflow::note_views(r@);
    assert(notes.len() == r@.len());
    if r@.len() == 2 {
        assert(notes[0] == (r@[0].error, r@[0].message@));
        assert(notes[1] == (r@[1].error, r@[1].message@));
    }
    if 0 <= i < r@.len() {
        assert(notes[i] == (r@[i].error, r@[i].message@));
    }
}

/// Each profile that was fetched and read is noted with the user in it, in order,
/// and the first that could not be fetched as an error with the reason. The notes
/// go as far as something went wrong.
pub proof fn law_profiles_are_noted<F: Fn(String) -> Result<u32, String>>(
    w: &FanOutFanIn<F>,
    r: Vec<Note>,
    results: Seq<Result<String, String>>,
    i: int,
)
    requires
        call_ensures(FanOutFanIn::<F>::notes, (w,), r),
        w@.users is Ok,
        w@.profiles == Some(results),
        w@.emails is None,
    ensures
        r@.len() <= results.len(),
        0 <= i < r@.len() ==> if r@[i].error {
            &&& i == r@.len() - 1
            &&& results[i] is Err
            &&& r@[i].message@ == "Failed to fetch user profile: "@ + results[i]->Err_0@
        } else {
            &&& results[i] is Ok
            &&& exists|id: u32|
                {
                    &&& #[trigger] call_ensures(w@.parse, (results[i]->Ok_0,), Ok(id))
                    &&& r@[i].message@ == "Fetched profile for user "@ + text::decimal(id as nat)
                }
        },
        r@.len() < results.len() && !(r@.len() > 0 && r@.last().error) ==> {
            let first = results[r@.len() as int];
            &&& first is Ok
            &&& exists|e: String| #[trigger] call_ensures(w@.parse, (first->Ok_0,), Err(e))
        },
{
    let notes = workflow::note_views(r@);
    assert(notes.len() == r@.len());
    let (ids, failure) = choose|ids: Seq<u32>, failure: Option<Seq<char>>| #[trigger]
        fanned_in(w@.parse, results, ids, failure) && notes == profile_notes(results, ids);
    if 0 <= i < r@.len() {
        assert(notes[i] == (r@[i].error, r@[i].message@));
        if i < ids.len() {
            assert(is_read(w@.parse, results[i], ids[i]));
        }
    }
    if r@.len() > 0 {
        assert(notes.last() == (r@.last().error, r@.last().message@));
    }
}

} // verus!
