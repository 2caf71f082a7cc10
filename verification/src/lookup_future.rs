//! The course of a lookup: which name is asked for next, and when the lookup is over.
//!
//! A [`LookupFuture`] decides and does nothing else. Its driver runs the queries that it asks
//! for, and hands back what came of each.
use crate::error::ResolveError;
use crate::lookup::Lookup;
use crate::op::{DnsRequestOptions, Query};
use crate::rr::{DNSClass, Name, RecordType};
use vstd::prelude::*;

verus! {

/// How a query ends.
pub type Answer = Result<Lookup, ResolveError>;

/// The query for one of the names of a lookup.
#[derive(Debug)]
pub enum Attempt {
    /// Its answer is known already.
    Ready(Answer),
    /// The client has to be asked.
    Client { query: Query, options: DnsRequestOptions },
}

/// What the driver sees when it looks at the attempt in flight.
#[derive(Debug)]
pub enum Polled {
    /// There is no answer yet.
    Pending,
    /// The attempt has been answered.
    Ready(Answer),
}

/// What the driver has to do next.
#[derive(Debug)]
pub enum Step {
    /// Wait: the attempt in flight has no answer yet.
    Pending,
    /// Make this attempt, which takes the place of the one in flight.
    Retry(Attempt),
    /// The lookup is over.
    Done(Answer),
}

/// Whether another name is worth a try after this answer: the query failed, or found nothing.
pub open spec fn wants_retry(answer: Answer) -> bool {
    match answer {
        Ok(lookup) => lookup@.records.len() == 0,
        Err(_) => true,
    }
}

/// Whether `static_host` is what the local hosts may hold for `query`. Where there are no local
/// hosts, they hold nothing.
pub open spec fn held_by<H: Fn(&Query) -> Option<Lookup>>(
    hosts: Option<H>,
    query: Query,
    static_host: Option<Lookup>,
) -> bool {
    match hosts {
        Some(h) => call_ensures(h, (&query,), static_host),
        None => static_host is None,
    }
}

/// Whether the local hosts hold exactly what `held` says.
pub open spec fn hosts_hold<H: Fn(&Query) -> Option<Lookup>>(
    hosts: Option<H>,
    held: spec_fn(Query) -> Option<Lookup>,
) -> bool {
    forall|query: Query, static_host: Option<Lookup>| #[trigger]
        held_by(hosts, query, static_host) ==> static_host == held(query)
}

/// The attempt at `query`, given what the local hosts hold for it: that is its answer, and where
/// they hold nothing, the client is asked.
pub open spec fn attempt(
    query: Query,
    options: DnsRequestOptions,
    static_host: Option<Lookup>,
) -> Attempt {
    match static_host {
        Some(lookup) => Attempt::Ready(Ok(lookup)),
        None => Attempt::Client { query, options },
    }
}

/// The error of a lookup that was given no name.
pub open spec fn no_names() -> Answer {
    Err(ResolveError::Message("can not lookup for no names"))
}

/// What a [`LookupFuture`] holds.
#[verifier::ext_equal]
pub struct LookupFutureView {
    /// The names not attempted yet; the last is the next to be.
    pub names: Seq<Name>,
    pub record_type: RecordType,
    pub options: DnsRequestOptions,
}

impl LookupFutureView {
    /// Whether the lookup goes on after this answer.
    pub open spec fn retries(self, answer: Answer) -> bool {
        wants_retry(answer) && self.names.len() > 0
    }

    /// What is left to do once the next name has been taken.
    pub open spec fn without_next(self) -> LookupFutureView {
        LookupFutureView { names: self.names.drop_last(), ..self }
    }

    /// The query for the next name.
    pub open spec fn next_query(self) -> Query {
        Query::spec_query(self.names.last(), self.record_type)
    }

    /// Whether `next` is the attempt at the next name, given these local hosts.
    pub open spec fn next_attempt<H: Fn(&Query) -> Option<Lookup>>(
        self,
        hosts: Option<H>,
        next: Attempt,
    ) -> bool {
        exists|static_host: Option<Lookup>|
            {
                &&& #[trigger] held_by(hosts, self.next_query(), static_host)
                &&& next == attempt(self.next_query(), self.options, static_host)
            }
    }

    /// How a lookup for all these names begins, given these local hosts: with what is left to do,
    /// and the attempt at the first name.
    pub open spec fn begins<H: Fn(&Query) -> Option<Lookup>>(
        self,
        hosts: Option<H>,
        after: LookupFutureView,
        first: Attempt,
    ) -> bool {
        if self.names.len() == 0 {
            after == self && first == Attempt::Ready(no_names())
        } else {
            after == self.without_next() && self.next_attempt(hosts, first)
        }
    }

    /// How a lookup goes on once the attempt in flight has been answered, given these local hosts:
    /// with what is left to do, and the next step.
    pub open spec fn goes_on<H: Fn(&Query) -> Option<Lookup>>(
        self,
        answer: Answer,
        hosts: Option<H>,
        after: LookupFutureView,
        step: Step,
    ) -> bool {
        if self.retries(answer) {
            &&& after == self.without_next()
            &&& step matches Step::Retry(next) && self.next_attempt(hosts, next)
        } else {
            after == self && step == Step::Done(answer)
        }
    }

    /// The query for the `i`-th of the names not attempted yet, in the order in which they are to
    /// be.
    pub open spec fn queued(self, i: int) -> Query {
        Query::spec_query(self.names[self.names.len() - 1 - i], self.record_type)
    }

    /// The attempts at all names not attempted yet, in their order, where the local hosts hold
    /// what `held` says.
    pub open spec fn queue(self, held: spec_fn(Query) -> Option<Lookup>) -> Seq<Attempt> {
        Seq::new(
            self.names.len(),
            |i: int| attempt(self.queued(i), self.options, held(self.queued(i))),
        )
    }

    /// The course that the lookup takes where the local hosts hold what `held` says, when
    /// `answers[0]` is the answer to the attempt in flight and `answers[i]` the answer to the
    /// `i`-th attempt made after it.
    pub open spec fn course(
        self,
        held: spec_fn(Query) -> Option<Lookup>,
        answers: Seq<Answer>,
    ) -> Course
        decreases answers.len(),
    {
        if answers.len() == 0 {
            Course { attempts: Seq::empty(), result: None }
        } else if self.retries(answers[0]) {
            let rest = self.without_next().course(held, answers.drop_first());
            let next = attempt(self.next_query(), self.options, held(self.next_query()));
            Course { attempts: seq![next] + rest.attempts, result: rest.result }
        } else {
            Course { attempts: Seq::empty(), result: Some(answers[0]) }
        }
    }

    /// The course of a whole lookup for all these names, where the local hosts hold what `held`
    /// says and `answers[i]` is the answer to the `i`-th attempt.
    pub open spec fn whole_course(
        self,
        held: spec_fn(Query) -> Option<Lookup>,
        answers: Seq<Answer>,
    ) -> Course {
        let first = attempt(self.next_query(), self.options, held(self.next_query()));
        let rest = self.without_next().course(held, answers);
        Course { attempts: seq![first] + rest.attempts, result: rest.result }
    }
}

/// The course of a lookup.
#[verifier::ext_equal]
pub struct Course {
    /// The attempts made, in their order.
    pub attempts: Seq<Attempt>,
    /// What the lookup ends with; `None` if it is still under way when the answers run out.
    pub result: Option<Answer>,
}

/// Whatever the error, a failed query is worth another try.
pub proof fn law_every_failure_is_retried(error: ResolveError)
    ensures
        wants_retry(Err(error)),
{
}

/// A query that was answered is worth another try exactly if the answer holds no record.
pub proof fn law_only_empty_answers_are_retried(lookup: Lookup)
    ensures
        wants_retry(Ok(lookup)) <==> lookup@.records.len() == 0,
{
}

/// While a name is left, every failure leads on to it: whatever the error, the lookup takes one name
/// off the queue, the last, and makes an attempt. Nothing else about it changes.
pub proof fn law_failure_leads_to_the_next_name<H: Fn(&Query) -> Option<Lookup>>(
    before: LookupFutureView,
    error: ResolveError,
    hosts: Option<H>,
    after: LookupFutureView,
    step: Step,
)
    requires
        before.goes_on(Err(error), hosts, after, step),
        before.names.len() > 0,
    ensures
        step is Retry,
        after.names.push(before.names[before.names.len() - 1]) == before.names,
        after.record_type == before.record_type,
        after.options == before.options,
{
    assert(after.names.push(before.names[before.names.len() - 1]) =~= before.names);
}

/// While a name is left, an answer leads on to it exactly if it holds no record; an answer that
/// holds one is what the lookup ends with, and the queue stays.
pub proof fn law_empty_answer_leads_to_the_next_name<H: Fn(&Query) -> Option<Lookup>>(
    before: LookupFutureView,
    lookup: Lookup,
    hosts: Option<H>,
    after: LookupFutureView,
    step: Step,
)
    requires
        before.goes_on(Ok(lookup), hosts, after, step),
        before.names.len() > 0,
    ensures
        step is Retry <==> lookup@.records.len() == 0,
        step is Retry ==> after.names.push(before.names[before.names.len() - 1]) == before.names,
        !(step is Retry) ==> step == Step::Done(Ok(lookup)) && after.names == before.names,
        after.record_type == before.record_type,
        after.options == before.options,
{
    if step is Retry {
        assert(after.names.push(before.names[before.names.len() - 1]) =~= before.names);
    }
}

/// When no name is left, the lookup ends with the answer, whatever it is.
pub proof fn law_last_name_ends_the_lookup<H: Fn(&Query) -> Option<Lookup>>(
    before: LookupFutureView,
    answer: Answer,
    hosts: Option<H>,
    after: LookupFutureView,
    step: Step,
)
    requires
        before.goes_on(answer, hosts, after, step),
        before.names.len() == 0,
    ensures
        step == Step::Done(answer),
        after == before,
{
}

/// An attempt is made at the last of the names that are left, for the type and with the options of
/// the lookup. Without local hosts the client is asked.
pub proof fn law_attempt_without_hosts<H: Fn(&Query) -> Option<Lookup>>(
    state: LookupFutureView,
    next: Attempt,
)
    requires
        state.names.len() > 0,
        state.next_attempt(None::<H>, next),
    ensures
        next matches Attempt::Client { query, options } && query.name == state.names[state.names.len()
            - 1] && query.query_type == state.record_type && query.query_class == DNSClass::IN
            && options == state.options,
{
}

/// With local hosts, they are asked about the last of the names that are left, for the type of the
/// lookup. What they hold is the answer, as it is; where they hold nothing, the client is asked the
/// same, with the options of the lookup.
pub proof fn law_attempt_with_hosts<H: Fn(&Query) -> Option<Lookup>>(
    state: LookupFutureView,
    hosts: H,
    next: Attempt,
) -> (asked: (Query, Option<Lookup>))
    requires
        state.names.len() > 0,
        state.next_attempt(Some(hosts), next),
    ensures
        asked.0.name == state.names[state.names.len() - 1],
        asked.0.query_type == state.record_type,
        asked.0.query_class == DNSClass::IN,
        call_ensures(hosts, (&asked.0,), asked.1),
        asked.1 matches Some(lookup) ==> next == Attempt::Ready(Ok(lookup)),
        asked.1 is None ==> next == (Attempt::Client { query: asked.0, options: state.options }),
{
    let static_host = choose|static_host: Option<Lookup>|
        {
            &&& #[trigger] held_by(Some(hosts), state.next_query(), static_host)
            &&& next == attempt(state.next_query(), state.options, static_host)
        };
    (state.next_query(), static_host)
}

/// A lookup begins by taking the last of its names, and with the attempt at it; what is left are the
/// other names, in their order.
pub proof fn law_beginning_takes_the_last_name<H: Fn(&Query) -> Option<Lookup>>(
    all: LookupFutureView,
    hosts: Option<H>,
    after: LookupFutureView,
    first: Attempt,
)
    requires
        all.names.len() > 0,
        all.begins(hosts, after, first),
    ensures
        after.names.push(all.names[all.names.len() - 1]) == all.names,
        after.record_type == all.record_type,
        after.options == all.options,
        all.next_attempt(hosts, first),
{
    assert(after.names.push(all.names[all.names.len() - 1]) =~= all.names);
}

/// A lookup for no names begins with an error that says so, whatever the local hosts hold.
pub proof fn law_beginning_without_names<H: Fn(&Query) -> Option<Lookup>>(
    all: LookupFutureView,
    hosts: Option<H>,
    after: LookupFutureView,
    first: Attempt,
)
    requires
        all.names.len() == 0,
        all.begins(hosts, after, first),
    ensures
        first == Attempt::Ready(Err(ResolveError::Message("can not lookup for no names"))),
        after == all,
{
}

/// The queries of a lookup go through its names from the last to the first, each for the type that
/// the lookup was given, in class IN.
pub proof fn law_queries_go_through_the_names(state: LookupFutureView, i: int)
    requires
        0 <= i < state.names.len(),
    ensures
        state.queued(i).name == state.names[state.names.len() - 1 - i],
        state.queued(i).query_type == state.record_type,
        state.queued(i).query_class == DNSClass::IN,
{
}

/// The queue holds one attempt for each name, from the last to the first. What the local hosts hold
/// for a name is the answer, as it is; for the other names the client is asked, with the options of
/// the lookup.
pub proof fn law_queue_goes_through_the_names(
    state: LookupFutureView,
    held: spec_fn(Query) -> Option<Lookup>,
    i: int,
)
    requires
        0 <= i < state.names.len(),
    ensures
        state.queue(held).len() == state.names.len(),
        held(state.queued(i)) matches Some(lookup) ==> state.queue(held)[i] == Attempt::Ready(
            Ok(lookup),
        ),
        held(state.queued(i)) is None ==> (state.queue(held)[i] matches Attempt::Client {
            query,
            options,
        } && query.name == state.names[state.names.len() - 1 - i] && query.query_type
            == state.record_type && query.query_class == DNSClass::IN && options == state.options),
{
}

/// One step of a lookup is one step of its course, whatever comes later: the attempt that is
/// asked for heads the attempts of the course and what is left to do takes the rest of it, or the
/// course ends with the answer that the lookup ends with.
pub proof fn law_step_of_course<H: Fn(&Query) -> Option<Lookup>>(
    before: LookupFutureView,
    answer: Answer,
    hosts: Option<H>,
    after: LookupFutureView,
    step: Step,
    held: spec_fn(Query) -> Option<Lookup>,
    later: Seq<Answer>,
)
    requires
        before.goes_on(answer, hosts, after, step),
        hosts_hold(hosts, held),
    ensures
        ({
            let course = before.course(held, seq![answer] + later);
            let rest = after.course(held, later);
            match step {
                Step::Retry(next) => course == (Course {
                    attempts: seq![next] + rest.attempts,
                    result: rest.result,
                }),
                Step::Done(result) => course == (Course {
                    attempts: Seq::empty(),
                    result: Some(result),
                }),
                Step::Pending => false,
            }
        }),
{
    let answers = seq![answer] + later;
    assert(answers.drop_first() =~= later);
}

/// The beginning of a lookup is the beginning of its whole course.
pub proof fn law_beginning_of_course<H: Fn(&Query) -> Option<Lookup>>(
    all: LookupFutureView,
    hosts: Option<H>,
    after: LookupFutureView,
    first: Attempt,
    held: spec_fn(Query) -> Option<Lookup>,
    answers: Seq<Answer>,
)
    requires
        all.names.len() > 0,
        all.begins(hosts, after, first),
        hosts_hold(hosts, held),
    ensures
        all.whole_course(held, answers) == (Course {
            attempts: seq![first] + after.course(held, answers).attempts,
            result: after.course(held, answers).result,
        }),
{
}

/// Names are attempted in queue order, each at most once and each with the type and the options
/// of the lookup. A name is attempted only when everything before it failed or found nothing, and
/// no name is left unattempted unless a record was found. The lookup ends with the answer to
/// its last attempt, once that is there.
pub proof fn law_queue_order(
    state: LookupFutureView,
    held: spec_fn(Query) -> Option<Lookup>,
    answers: Seq<Answer>,
)
    ensures
        ({
            let course = state.course(held, answers);
            let made = course.attempts.len() as int;
            &&& made <= state.names.len()
            &&& made <= answers.len()
            &&& course.attempts == state.queue(held).take(made)
            &&& course.result == if made < answers.len() {
                Some(answers[made])
            } else {
                None
            }
            &&& forall|i: int| 0 <= i < made ==> wants_retry(#[trigger] answers[i])
            &&& made < answers.len() && made < state.names.len() ==> !wants_retry(answers[made])
        }),
    decreases answers.len(),
{
    let course = state.course(held, answers);
    let made = course.attempts.len() as int;
    if answers.len() > 0 && state.retries(answers[0]) {
        let rest = state.without_next();
        let later = answers.drop_first();
        law_queue_order(rest, held, later);
        lemma_queue_head(state, held);
        assert(course.attempts =~= state.queue(held).take(made));
        assert forall|i: int| 0 <= i < made implies wants_retry(#[trigger] answers[i]) by {
            if i > 0 {
                assert(answers[i] == later[i - 1]);
            }
        }
    } else {
        assert(course.attempts =~= state.queue(held).take(0));
    }
}

/// The attempt at the next name heads the queue.
proof fn lemma_queue_head(state: LookupFutureView, held: spec_fn(Query) -> Option<Lookup>)
    requires
        state.names.len() > 0,
    ensures
        state.queue(held) == seq![
            attempt(state.next_query(), state.options, held(state.next_query())),
        ] + state.without_next().queue(held),
{
    let rest = state.without_next();
    assert forall|i: int| 0 <= i < rest.names.len() implies rest.queued(i) == state.queued(
        i + 1,
    ) by {}
    assert(state.queue(held) =~= seq![
        attempt(state.next_query(), state.options, held(state.next_query())),
    ] + rest.queue(held));
}

/// A lookup attempts its names in queue order, beginning with the last of those it was given, and
/// ends with the answer to the last attempt that it made, once that is there.
pub proof fn law_lookup_attempts(
    all: LookupFutureView,
    held: spec_fn(Query) -> Option<Lookup>,
    answers: Seq<Answer>,
)
    requires
        all.names.len() > 0,
    ensures
        ({
            let course = all.whole_course(held, answers);
            let last = course.attempts.len() - 1;
            &&& 0 <= last < all.names.len()
            &&& course.attempts == all.queue(held).take(last + 1)
            &&& course.result == if last < answers.len() {
                Some(answers[last])
            } else {
                None
            }
            &&& forall|i: int| 0 <= i < last ==> wants_retry(#[trigger] answers[i])
            &&& last < answers.len() && last + 1 < all.names.len() ==> !wants_retry(answers[last])
        }),
{
    law_queue_order(all.without_next(), held, answers);
    lemma_queue_head(all, held);
    let course = all.whole_course(held, answers);
    assert(course.attempts =~= all.queue(held).take(course.attempts.len() as int));
}

/// A lookup that was given no name ends with an error that says so, and attempts nothing.
pub proof fn law_no_names_fails(
    state: LookupFutureView,
    held: spec_fn(Query) -> Option<Lookup>,
    later: Seq<Answer>,
)
    requires
        state.names.len() == 0,
    ensures
        state.course(held, seq![no_names()] + later).result == Some(no_names()),
        state.course(held, seq![no_names()] + later).attempts.len() == 0,
{
}

/// The first answer that holds a record is what the lookup ends with, and nothing is attempted
/// after it.
pub proof fn law_first_find_wins(
    state: LookupFutureView,
    held: spec_fn(Query) -> Option<Lookup>,
    answers: Seq<Answer>,
    found: int,
)
    requires
        0 <= found <= state.names.len(),
        found < answers.len(),
        forall|i: int| 0 <= i < found ==> wants_retry(#[trigger] answers[i]),
        !wants_retry(answers[found]),
    ensures
        state.course(held, answers).result == Some(answers[found]),
        state.course(held, answers).attempts == state.queue(held).take(found),
{
    law_queue_order(state, held, answers);
}

/// If no answer holds a record, every name is attempted, and the lookup ends with the answer for
/// the last of them, be it an empty lookup or an error.
pub proof fn law_last_answer_stands(
    state: LookupFutureView,
    held: spec_fn(Query) -> Option<Lookup>,
    answers: Seq<Answer>,
)
    requires
        answers.len() > state.names.len(),
        forall|i: int| 0 <= i <= state.names.len() ==> wants_retry(#[trigger] answers[i]),
    ensures
        state.course(held, answers).result == Some(answers[state.names.len() as int]),
        state.course(held, answers).attempts == state.queue(held),
{
    law_queue_order(state, held, answers);
    assert(state.queue(held).take(state.names.len() as int) =~= state.queue(held));
}

/// For every name that a lookup attempts, the local hosts come before the client: what they hold
/// for the name is the answer to the attempt, and the client is asked only for a name for which
/// they hold nothing.
pub proof fn law_hosts_before_client(
    all: LookupFutureView,
    held: spec_fn(Query) -> Option<Lookup>,
    answers: Seq<Answer>,
    i: int,
)
    requires
        0 <= i < all.whole_course(held, answers).attempts.len(),
        all.names.len() > 0,
    ensures
        ({
            let made = all.whole_course(held, answers).attempts[i];
            match held(all.queued(i)) {
                Some(lookup) => made == Attempt::Ready(Ok(lookup)),
                None => made == (Attempt::Client { query: all.queued(i), options: all.options }),
            }
        }),
{
    law_lookup_attempts(all, held, answers);
}

/// What the local hosts hold for a name, wherever it stands in the queue, is preferred: once
/// everything before the name has failed or found nothing, the hosts' records for it are what the
/// lookup ends with, as the answer that the driver hands back for the attempt. The client is not
/// asked for the name, and nothing is attempted after it.
pub proof fn law_hosts_preferred(
    all: LookupFutureView,
    held: spec_fn(Query) -> Option<Lookup>,
    answers: Seq<Answer>,
    i: int,
    static_host: Lookup,
)
    requires
        0 <= i < all.names.len(),
        i < answers.len(),
        forall|j: int| 0 <= j < i ==> wants_retry(#[trigger] answers[j]),
        held(all.queued(i)) == Some(static_host),
        static_host@.records.len() > 0,
        all.queue(held)[i] == Attempt::Ready(answers[i]),
    ensures
        all.whole_course(held, answers).result == Some(Ok::<Lookup, ResolveError>(static_host)),
        all.whole_course(held, answers).attempts.len() == i + 1,
        all.whole_course(held, answers).attempts[i] == Attempt::Ready(Ok(static_host)),
{
    law_lookup_attempts(all, held, answers);
}

/// A lookup that tries one name after the other.
#[derive(Debug)]
pub struct LookupFuture {
    names: Vec<Name>,
    record_type: RecordType,
    options: DnsRequestOptions,
}

impl View for LookupFuture {
    type V = LookupFutureView;

    closed spec fn view(&self) -> LookupFutureView {
        LookupFutureView {
            names: self.names@,
            record_type: self.record_type,
            options: self.options,
        }
    }
}

impl Attempt {
    /// The attempt at `query`, given what the local hosts hold for it: that is its answer, and
    /// where they hold nothing, the client is asked.
    pub fn new(
        query: Query,
        options: DnsRequestOptions,
        static_host: Option<Lookup>,
    ) -> (made: Self)
        ensures
            made == attempt(query, options, static_host),
            static_host matches Some(lookup) ==> made == Attempt::Ready(Ok(lookup)),
            static_host is None ==> made == (Attempt::Client { query, options }),
    {
        match static_host {
            Some(lookup) => Attempt::Ready(Ok(lookup)),
            None => Attempt::Client { query, options },
        }
    }

    /// The attempt at `query`, for which the local hosts are consulted first.
    fn consult<H: Fn(&Query) -> Option<Lookup>>(
        query: Query,
        options: DnsRequestOptions,
        hosts: &Option<H>,
    ) -> (made: Self)
        requires
            *hosts matches Some(h) ==> call_requires(h, (&query,)),
        ensures
            exists|static_host: Option<Lookup>|
                {
                    &&& #[trigger] held_by(*hosts, query, static_host)
                    &&& made == attempt(query, options, static_host)
                },
    {
        let static_host = match hosts {
            Some(h) => h(&query),
            None => None,
        };
        assert(held_by(*hosts, query, static_host));
        Self::new(query, options, static_host)
    }

    /// Where there is no name to ask for, the lookup fails.
    fn no_names() -> (made: Self)
        ensures
            made == Attempt::Ready(no_names()),
    {
        Attempt::Ready(Err(ResolveError::Message("can not lookup for no names")))
    }
}

impl LookupFuture {
    /// Takes the first name off the queue, and puts the query for it together.
    fn begin(
        names: Vec<Name>,
        record_type: RecordType,
        options: DnsRequestOptions,
    ) -> (begun: (Self, Option<Query>))
        ensures
            ({
                let all = LookupFutureView { names: names@, record_type, options };
                if names@.len() == 0 {
                    begun.0@ == all && begun.1 is None
                } else {
                    begun.0@ == all.without_next() && begun.1 == Some(all.next_query())
                }
            }),
    {
        let mut names = names;
        let query = match names.pop() {
            Some(name) => Some(Query::query(name, record_type)),
            None => None,
        };
        (Self { names, record_type, options }, query)
    }

    /// Begins a lookup from a set of names and a type to records.
    ///
    /// The names are attempted in queue order, the last one first; upon each failure, the next is
    /// attempted.
    pub fn lookup(
        names: Vec<Name>,
        record_type: RecordType,
        options: DnsRequestOptions,
    ) -> (begun: (Self, Attempt))
        ensures
            ({
                let all = LookupFutureView { names: names@, record_type, options };
                if names@.len() == 0 {
                    begun.0@ == all && begun.1 == Attempt::Ready(no_names())
                } else {
                    &&& begun.0@ == all.without_next()
                    &&& begun.1 == attempt(all.next_query(), options, None)
                }
            }),
            names@.len() == 0 ==> begun.1 == Attempt::Ready(
                Err(ResolveError::Message("can not lookup for no names")),
            ),
            names@.len() > 0 ==> (begun.1 matches Attempt::Client { query, options: used }
                && query.name == names@[names@.len() - 1] && query.query_type == record_type
                && query.query_class == DNSClass::IN && used == options),
            names@.len() > 0 ==> begun.0@.names.push(names@[names@.len() - 1]) == names@,
            begun.0@.record_type == record_type,
            begun.0@.options == options,
    {
        let (begun, query) = Self::begin(names, record_type, options);
        match query {
            Some(query) => (begun, Attempt::new(query, options, None)),
            None => (begun, Attempt::no_names()),
        }
    }

    /// Begins a lookup from a set of names and a type to records that takes the local hosts into
    /// account: what they hold for a name is preferred to what a server would answer. They are
    /// asked about the first name, and about nothing if there is none.
    ///
    /// The names are attempted in queue order, the last one first; upon each failure, the next is
    /// attempted.
    pub fn lookup_with_hosts<H: Fn(&Query) -> Option<Lookup>>(
        names: Vec<Name>,
        record_type: RecordType,
        options: DnsRequestOptions,
        hosts: &Option<H>,
    ) -> (begun: (Self, Attempt))
        requires
            *hosts matches Some(h) ==> names@.len() > 0 ==> call_requires(
                h,
                (&Query::spec_query(names@.last(), record_type),),
            ),
        ensures
            (LookupFutureView { names: names@, record_type, options }).begins(
                *hosts,
                begun.0@,
                begun.1,
            ),
            names@.len() == 0 ==> begun.1 == Attempt::Ready(
                Err(ResolveError::Message("can not lookup for no names")),
            ),
            names@.len() > 0 ==> begun.0@.names.push(names@[names@.len() - 1]) == names@,
            names@.len() > 0 ==> (begun.1 matches Attempt::Client { query, options: used } ==> query.name
                == names@[names@.len() - 1] && query.query_type == record_type && query.query_class
                == DNSClass::IN && used == options),
            names@.len() > 0 && *hosts is None ==> begun.1 is Client,
            begun.0@.record_type == record_type,
            begun.0@.options == options,
    {
        let (begun, query) = Self::begin(names, record_type, options);
        match query {
            Some(query) => (begun, Attempt::consult(query, options, hosts)),
            None => (begun, Attempt::no_names()),
        }
    }

    /// Decides what to do with what the driver sees of the attempt in flight. `hosts` are the
    /// local hosts that the lookup began with.
    ///
    /// A pending attempt is waited for. After a failure or an empty answer the next name is tried,
    /// the local hosts before the client; if none is left, or the answer holds a record, that
    /// answer is what the lookup ends with. The local hosts are asked about the next name, and only
    /// when it is tried.
    pub fn poll<H: Fn(&Query) -> Option<Lookup>>(
        &mut self,
        polled: Polled,
        hosts: &Option<H>,
    ) -> (step: Step)
        requires
            *hosts matches Some(h) ==> polled matches Polled::Ready(answer) ==> old(self)@.retries(
                answer,
            ) ==> call_requires(h, (&old(self)@.next_query(),)),
        ensures
            match polled {
                Polled::Pending => step is Pending && final(self)@ == old(self)@,
                Polled::Ready(answer) => old(self)@.goes_on(answer, *hosts, final(self)@, step),
            },
            polled matches Polled::Ready(Err(error)) ==> (step is Retry <==> old(self)@.names.len()
                > 0),
            polled matches Polled::Ready(Ok(lookup)) ==> (step is Retry <==> old(self)@.names.len() > 0
                && lookup@.records.len() == 0),
            polled matches Polled::Ready(answer) ==> !(step is Retry) ==> step == Step::Done(answer),
            step matches Step::Retry(Attempt::Client { query, options }) ==> query.name == old(
                self,
            )@.names[old(self)@.names.len() - 1] && query.query_type == old(self)@.record_type
                && query.query_class == DNSClass::IN && options == old(self)@.options,
            step is Retry && *hosts is None ==> step->Retry_0 is Client,
            step is Retry ==> final(self)@.names.push(old(self)@.names[old(self)@.names.len() - 1])
                == old(self)@.names,
            !(step is Retry) ==> final(self)@.names == old(self)@.names,
            final(self)@.record_type == old(self)@.record_type,
            final(self)@.options == old(self)@.options,
    {
        match polled {
            Polled::Pending => Step::Pending,
            Polled::Ready(answer) => {
                let should_retry = match &answer {
                    Ok(lookup) => lookup.is_empty(),
                    Err(_) => true,
                };
                if should_retry {
                    if let Some(name) = self.names.pop() {
                        let query = Query::query(name, self.record_type);
                        return Step::Retry(Attempt::consult(query, self.options, hosts));
                    }
                }
                Step::Done(answer)
            },
        }
    }
}

} // verus!
