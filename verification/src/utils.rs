//! Bounded retry and path extraction, the two tools under every remote call.

use crate::json::{JsonTree, JsonValue};
use vstd::prelude::*;

verus! {

/// How many times the retry executor invokes an operation whose `i`-th
/// invocation yields `schedule[i]`, when it may try `max` times: up to and
/// including the first success, and never more than `max` (nor fewer than
/// one).
pub open spec fn retry_attempts<Out, ErrOut>(max: nat, schedule: Seq<Result<Out, ErrOut>>) -> nat
    decreases max,
{
    if max <= 1 || schedule.len() == 0 || schedule[0] is Ok {
        1
    } else {
        1 + retry_attempts((max - 1) as nat, schedule.drop_first())
    }
}

/// What the retry executor returns for that operation: the outcome of the
/// last invocation it made.
pub open spec fn retry_outcome<Out, ErrOut>(max: nat, schedule: Seq<Result<Out, ErrOut>>) -> Result<
    Out,
    ErrOut,
> {
    schedule[retry_attempts(max, schedule) - 1]
}

/// The executor never invokes more often than its bound allows, and at
/// least once.
pub proof fn lemma_retry_attempts_bounds<Out, ErrOut>(max: nat, schedule: Seq<Result<Out, ErrOut>>)
    requires
        max >= 1,
    ensures
        1 <= retry_attempts(max, schedule) <= max,
    decreases max,
{
    if max <= 1 || schedule.len() == 0 || schedule[0] is Ok {
    } else {
        lemma_retry_attempts_bounds((max - 1) as nat, schedule.drop_first());
    }
}

/// A run that met `n` failures and then the outcome `last` ends there with
/// `last` exactly when `last` is a success or the bound is reached.
pub proof fn lemma_retry_run<Out, ErrOut>(max: nat, failures: Seq<Result<Out, ErrOut>>, last: Result<
    Out,
    ErrOut,
>)
    requires
        failures.len() < max,
        forall|i: int| 0 <= i < failures.len() ==> (#[trigger] failures[i]) is Err,
        last is Ok || failures.len() + 1 == max,
    ensures
        retry_attempts(max, failures.push(last)) == failures.len() + 1,
        retry_outcome(max, failures.push(last)) == last,
    decreases failures.len(),
{
    let run = failures.push(last);
    if failures.len() == 0 {
    } else {
        let rest = failures.drop_first();
        assert(run.drop_first() =~= rest.push(last));
        lemma_retry_run((max - 1) as nat, rest, last);
    }
}

/// Retry bound: an operation that fails every time is invoked exactly `max`
/// times, and the error returned is that of the last invocation.
pub proof fn lemma_retry_bound<Out, ErrOut>(max: nat, schedule: Seq<Result<Out, ErrOut>>)
    requires
        max >= 1,
        schedule.len() >= max,
        forall|i: int| 0 <= i < max ==> (#[trigger] schedule[i]) is Err,
    ensures
        retry_attempts(max, schedule) == max,
        retry_outcome(max, schedule) == schedule[max - 1],
    decreases max,
{
    if max > 1 {
        let rest = schedule.drop_first();
        lemma_retry_bound((max - 1) as nat, rest);
    }
}

/// Retry short-circuit: an operation that fails on its first `k - 1`
/// invocations and succeeds on the `k`-th, with `k` within the bound, is
/// invoked exactly `k` times, and its success is what is returned.
pub proof fn lemma_retry_short_circuit<Out, ErrOut>(
    max: nat,
    schedule: Seq<Result<Out, ErrOut>>,
    k: nat,
)
    requires
        1 <= k <= max,
        schedule.len() >= k,
        forall|i: int| 0 <= i < k - 1 ==> (#[trigger] schedule[i]) is Err,
        schedule[k - 1] is Ok,
    ensures
        retry_attempts(max, schedule) == k,
        retry_outcome(max, schedule) == schedule[k - 1],
    decreases k,
{
    if k > 1 {
        let rest = schedule.drop_first();
        lemma_retry_short_circuit((max - 1) as nat, rest, (k - 1) as nat);
    }
}

/// What the caller of a retried operation does next.
pub enum RetryStep<Out, ErrOut> {
    /// The run is over, with this result.
    Finished(Result<Out, ErrOut>),
    /// Invoke the operation once more.
    Again,
}

/// The bookkeeping of one retried call: the bound and the attempts made.
///
/// The caller invokes the operation, hands each outcome to
/// [`RetryState::record`], and stops at the first `Finished`.
pub struct RetryState {
    max_retries: u64,
    attempts: u64,
    finished: bool,
}

impl RetryState {
    /// The bound on the number of invocations.
    pub closed spec fn max_retries(&self) -> nat {
        self.max_retries as nat
    }

    /// The number of outcomes recorded so far.
    pub closed spec fn attempts(&self) -> nat {
        self.attempts as nat
    }

    /// Whether the run is over.
    pub closed spec fn is_finished(&self) -> bool {
        self.finished
    }

    /// A run is over once the bound is reached, and the bound is at least 1.
    pub closed spec fn wf(&self) -> bool {
        &&& self.max_retries >= 1
        &&& self.attempts <= self.max_retries
        &&& (self.attempts == self.max_retries ==> self.finished)
    }

    /// A fresh run that may invoke the operation `max_retries` times.
    pub fn new(max_retries: u64) -> (state: RetryState)
        requires
            max_retries >= 1,
        ensures
            state.wf(),
            state.max_retries() == max_retries,
            state.attempts() == 0,
            !state.is_finished(),
    {
        RetryState { max_retries, attempts: 0, finished: false }
    }

    /// The number of outcomes recorded so far.
    pub fn attempts_made(&self) -> (n: u64)
        ensures
            n == self.attempts(),
    {
        self.attempts
    }

    /// Records the outcome of one more invocation. The run finishes with
    /// that outcome if it is a success or if it was the last attempt that
    /// the bound allows; otherwise the operation is to be invoked again.
    pub fn record<Out, ErrOut>(&mut self, outcome: Result<Out, ErrOut>) -> (step: RetryStep<
        Out,
        ErrOut,
    >)
        requires
            old(self).wf(),
            !old(self).is_finished(),
        ensures
            final(self).wf(),
            final(self).max_retries() == old(self).max_retries(),
            final(self).attempts() == old(self).attempts() + 1,
            final(self).is_finished() == (step is Finished),
            step == if outcome is Ok || old(self).attempts() + 1 == old(self).max_retries() {
                RetryStep::Finished(outcome)
            } else {
                RetryStep::<Out, ErrOut>::Again
            },
    {
        self.attempts = self.attempts + 1;
        if outcome.is_ok() || self.attempts == self.max_retries {
            self.finished = true;
            RetryStep::Finished(outcome)
        } else {
            RetryStep::Again
        }
    }
}

/// A complete run of the executor is a row of failures closed by a success
/// or by the last attempt that the bound allows.
pub proof fn lemma_complete_run<Out, ErrOut>(max: nat, trace: Seq<Result<Out, ErrOut>>)
    requires
        max >= 1,
        trace.len() == retry_attempts(max, trace),
    ensures
        1 <= trace.len() <= max,
        forall|i: int| 0 <= i < trace.len() - 1 ==> (#[trigger] trace[i]) is Err,
        trace.last() is Ok || trace.len() == max,
    decreases max,
{
    if max <= 1 || trace.len() == 0 || trace[0] is Ok {
    } else {
        let rest = trace.drop_first();
        lemma_complete_run((max - 1) as nat, rest);
        assert forall|i: int| 0 <= i < trace.len() - 1 implies (#[trigger] trace[i]) is Err by {
            if i > 0 {
                assert(trace[i] == rest[i - 1]);
            }
        }
    }
}

/// An operation that can be invoked again and again on the same arguments.
///
/// `history` is the row of outcomes of the invocations made so far; every
/// invocation adds its outcome to it, so that its length counts the
/// invocations. `accepts` says on which arguments the operation may be
/// invoked, `allows` which outcomes it can have on them; neither changes by
/// an invocation.
pub trait Operation<Args: Copy, Out, ErrOut> {
    /// The outcomes of the invocations made so far, oldest first.
    spec fn history(&self) -> Seq<Result<Out, ErrOut>>;

    /// Whether the operation may be invoked on `args`.
    spec fn accepts(&self, args: Args) -> bool;

    /// Whether `outcome` is a possible outcome on `args`.
    spec fn allows(&self, args: Args, outcome: Result<Out, ErrOut>) -> bool;

    /// Runs the operation once, from scratch.
    fn invoke(&mut self, args: Args) -> (outcome: Result<Out, ErrOut>)
        requires
            old(self).accepts(args),
        ensures
            final(self).history() == old(self).history().push(outcome),
            old(self).allows(args, outcome),
            forall|a: Args| #[trigger] final(self).accepts(a) == old(self).accepts(a),
            forall|a: Args, o: Result<Out, ErrOut>| #[trigger]
                final(self).allows(a, o) == old(self).allows(a, o),
    ;
}

/// A plain function as an [`Operation`], with the record of its outcomes.
pub struct Recorded<F, Out, ErrOut> {
    func: F,
    outcomes: Ghost<Seq<Result<Out, ErrOut>>>,
}

impl<F, Out, ErrOut> Recorded<F, Out, ErrOut> {
    /// The function that is invoked.
    pub closed spec fn func(&self) -> F {
        self.func
    }

    /// The outcomes of the invocations made so far, oldest first.
    pub closed spec fn outcomes(&self) -> Seq<Result<Out, ErrOut>> {
        self.outcomes@
    }

    /// Wraps `func`, with no invocation made yet.
    pub fn new(func: F) -> (operation: Self)
        ensures
            operation.func() == func,
            operation.outcomes() == Seq::<Result<Out, ErrOut>>::empty(),
    {
        Recorded { func, outcomes: Ghost(Seq::empty()) }
    }
}

impl<F, Args: Copy, Out, ErrOut> Operation<Args, Out, ErrOut> for Recorded<F, Out, ErrOut> where
    F: Fn(Args) -> Result<Out, ErrOut>,
 {
    open spec fn history(&self) -> Seq<Result<Out, ErrOut>> {
        self.outcomes()
    }

    open spec fn accepts(&self, args: Args) -> bool {
        call_requires(self.func(), (args,))
    }

    open spec fn allows(&self, args: Args, outcome: Result<Out, ErrOut>) -> bool {
        call_ensures(self.func(), (args,), outcome)
    }

    fn invoke(&mut self, args: Args) -> (outcome: Result<Out, ErrOut>) {
        let outcome = (self.func)(args);
        proof {
            self.outcomes@ = self.outcomes@.push(outcome);
        }
        outcome
    }
}

/// Invokes `operation` on `args` until it succeeds, at most `max_retries`
/// times, and returns the outcome of the last invocation.
///
/// The invocations made are exactly those of one complete run: the history
/// of the operation grows by a trace that is as long as [`retry_attempts`]
/// says, and the result is the last entry of that trace.
pub fn retry_operation<Args: Copy, Out, ErrOut, O: Operation<Args, Out, ErrOut>>(
    max_retries: u64,
    operation: &mut O,
    args: Args,
) -> (result: Result<Out, ErrOut>)
    requires
        max_retries >= 1,
        old(operation).accepts(args),
    ensures
        old(operation).history().is_prefix_of(final(operation).history()),
        ({
            let trace = final(operation).history().skip(old(operation).history().len() as int);
            &&& trace.len() == retry_attempts(max_retries as nat, trace)
            &&& result == retry_outcome(max_retries as nat, trace)
            &&& forall|i: int|
                0 <= i < trace.len() ==> old(operation).allows(args, #[trigger] trace[i])
        }),
{
    let mut state = RetryState::new(max_retries);
    let ghost before = operation.history();
    let ghost mut failures: Seq<Result<Out, ErrOut>> = Seq::empty();
    loop
        invariant
            state.wf(),
            !state.is_finished(),
            state.max_retries() == max_retries,
            state.attempts() == failures.len(),
            before == old(operation).history(),
            operation.history() == before + failures,
            operation.accepts(args),
            forall|a: Args, o: Result<Out, ErrOut>| #[trigger]
                operation.allows(a, o) == old(operation).allows(a, o),
            forall|i: int| 0 <= i < failures.len() ==> (#[trigger] failures[i]) is Err,
            forall|i: int|
                0 <= i < failures.len() ==> old(operation).allows(args, #[trigger] failures[i]),
        decreases max_retries - state.attempts(),
    {
        let outcome = operation.invoke(args);
        let ghost seen = outcome;
        match state.record(outcome) {
            RetryStep::Finished(result) => {
                proof {
                    let trace = failures.push(seen);
                    lemma_retry_run(max_retries as nat, failures, seen);
                    assert((before + trace).skip(before.len() as int) =~= trace);
                }
                return result;
            },
            RetryStep::Again => {
                proof {
                    failures = failures.push(seen);
                }
            },
        }
    }
}

/// Invokes `func` on `args` until it succeeds, at most `max_retries` times,
/// and returns the outcome of the last invocation.
///
/// The outcomes of the invocations made form a trace that is a complete run
/// of the executor: every entry is an outcome that `func` allows on `args`,
/// the trace is as long as [`retry_attempts`] says, and the result is its
/// [`retry_outcome`].
pub fn retry_sync<'a, F, Args, Out, ErrOut>(max_retries: u64, func: F, args: &'a Args) -> (result:
    Result<Out, ErrOut>) where F: Fn(&'a Args) -> Result<Out, ErrOut>, ErrOut: std::fmt::Debug
    requires
        max_retries >= 1,
        call_requires(func, (args,)),
    ensures
        exists|trace: Seq<Result<Out, ErrOut>>|
            {
                &&& trace.len() == #[trigger] retry_attempts(max_retries as nat, trace)
                &&& forall|i: int|
                    0 <= i < trace.len() ==> call_ensures(func, (args,), #[trigger] trace[i])
                &&& result == retry_outcome(max_retries as nat, trace)
            },
{
    let mut operation = Recorded::new(func);
    let result = retry_operation(max_retries, &mut operation, args);
    result
}

/// Why a path did not resolve.
#[derive(Clone, Copy, Debug)]
pub enum ReadJsonTreeError {
    /// A step named a key that is missing, an index out of range, or a
    /// child of a node that has none of that kind.
    PathNotFound,
}

/// One step of a path into a JSON document.
#[derive(Clone, Copy, Debug)]
pub enum ReadJsonTreeSteps<'a> {
    /// Descend to the member of an object with this key.
    Key(&'a str),
    /// Descend to the item of an array at this index.
    Index(usize),
}

/// The mathematical model of a path step.
pub enum PathStep {
    Key(Seq<char>),
    Index(int),
}

impl<'a> View for ReadJsonTreeSteps<'a> {
    type V = PathStep;

    open spec fn view(&self) -> PathStep {
        match self {
            ReadJsonTreeSteps::Key(key) => PathStep::Key(key@),
            ReadJsonTreeSteps::Index(index) => PathStep::Index(*index as int),
        }
    }
}

/// The steps of a path, each by its view.
pub open spec fn path_view(path: Seq<ReadJsonTreeSteps>) -> Seq<PathStep> {
    Seq::new(path.len(), |i: int| path[i]@)
}

/// The child that one step leads to.
pub open spec fn descend(node: JsonTree, step: PathStep) -> Option<JsonTree> {
    match step {
        PathStep::Key(key) => node.member(key),
        PathStep::Index(index) => node.element(index),
    }
}

/// The node at the end of `steps`, walked in order from `root`; `None` from
/// the first step on that does not resolve.
pub open spec fn extract(root: JsonTree, steps: Seq<PathStep>) -> Option<JsonTree>
    decreases steps.len(),
{
    if steps.len() == 0 {
        Some(root)
    } else {
        match descend(root, steps[0]) {
            Some(child) => extract(child, steps.drop_first()),
            None => None,
        }
    }
}

/// Walks `path` from `json_value` and returns the node at its end, by
/// reference into the document; fails at the first step that does not
/// resolve.
pub fn read_json_tree<'a>(json_value: &'a JsonValue, path: &Vec<ReadJsonTreeSteps>) -> (res: Result<
    &'a JsonValue,
    ReadJsonTreeError,
>)
    ensures
        match res {
            Ok(node) => extract(json_value@, path_view(path@)) == Some(node@),
            Err(e) => e is PathNotFound && extract(json_value@, path_view(path@)) is None,
        },
{
    let mut actual_value: &JsonValue = json_value;
    let ghost steps = path_view(path@);
    let mut i: usize = 0;
    proof {
        assert(steps.skip(0) =~= steps);
    }
    while i < path.len()
        invariant
            i <= path.len(),
            steps == path_view(path@),
            extract(json_value@, steps) == extract(actual_value@, steps.skip(i as int)),
        decreases path.len() - i,
    {
        proof {
            assert(steps.skip(i as int).drop_first() =~= steps.skip(i + 1));
        }
        let next = match &path[i] {
            ReadJsonTreeSteps::Key(key) => actual_value.get_key(key),
            ReadJsonTreeSteps::Index(index) => actual_value.get_index(*index),
        };
        match next {
            Some(child) => {
                actual_value = child;
            },
            None => {
                return Err(ReadJsonTreeError::PathNotFound);
            },
        }
        i = i + 1;
    }
    Ok(actual_value)
}

} // verus!
