use crate::entities::{Request, Response};
use crate::error::HttpError;
use crate::validator::{request_failure, validation_result, RequestValidator};
use vstd::prelude::*;

verus! {

/// Where a retried send stands: the attempt now in flight (counted from 0)
/// and the number of retries allowed after the first attempt.
#[derive(Clone, Copy, Debug, PartialEq, Eq, Structural)]
pub struct RetryState {
    pub attempt: u32,
    pub max_retries: u32,
}

/// What to do once an attempt has come back.
#[derive(Debug)]
pub enum RetryStep {
    /// Hand this result to the caller; no more attempts.
    Deliver(Result<Response, HttpError>),
    /// Send a fresh copy of the request again, from this state.
    Resend(RetryState),
}

/// The decision taken on an attempt's outcome.
pub open spec fn retry_step(s: RetryState, outcome: Result<Response, HttpError>) -> RetryStep {
    match outcome {
        Ok(resp) => RetryStep::Deliver(Ok(resp)),
        Err(e) => if s.attempt >= s.max_retries {
            RetryStep::Deliver(Err(e))
        } else {
            RetryStep::Resend(RetryState { attempt: (s.attempt + 1) as u32, max_retries: s.max_retries })
        },
    }
}

/// Runs the retry decisions against the transport's successive outcomes:
/// the number of attempts made and the result delivered, or `None` if the
/// outcomes run out first.
pub open spec fn retry_run(s: RetryState, outcomes: Seq<Result<Response, HttpError>>) -> Option<
    (nat, Result<Response, HttpError>),
>
    decreases outcomes.len(),
{
    if outcomes.len() == 0 {
        None
    } else {
        match retry_step(s, outcomes[0]) {
            RetryStep::Deliver(r) => Some((1, r)),
            RetryStep::Resend(next) => match retry_run(next, outcomes.drop_first()) {
                Some((n, r)) => Some((n + 1, r)),
                None => None,
            },
        }
    }
}

impl RetryState {
    /// Validates the request once and starts at the first attempt.
    pub fn begin(request: &Request, max_retries: u32) -> (r: Result<RetryState, HttpError>)
        ensures
            r == (match validation_result(*request) {
                Ok(_) => Ok(RetryState { attempt: 0, max_retries }),
                Err(e) => Err(e),
            }),
    {
        match RequestValidator::validate(request) {
            Ok(_) => Ok(RetryState { attempt: 0, max_retries }),
            Err(e) => Err(e),
        }
    }

    /// Decides on an attempt's outcome: a success is delivered at once; a
    /// failure is delivered when the retries are spent, else sent again.
    pub fn on_outcome(self, outcome: Result<Response, HttpError>) -> (r: RetryStep)
        ensures
            r == retry_step(self, outcome),
    {
        match outcome {
            Ok(resp) => RetryStep::Deliver(Ok(resp)),
            Err(e) => {
                if self.attempt >= self.max_retries {
                    RetryStep::Deliver(Err(e))
                } else {
                    RetryStep::Resend(
                        RetryState { attempt: self.attempt + 1, max_retries: self.max_retries },
                    )
                }
            },
        }
    }
}

proof fn lemma_retry_until_success(
    s: RetryState,
    outcomes: Seq<Result<Response, HttpError>>,
    k: nat,
)
    requires
        s.attempt <= s.max_retries,
        k <= s.max_retries - s.attempt,
        k < outcomes.len(),
        forall|i: int| 0 <= i < k ==> outcomes[i] is Err,
        outcomes[k as int] is Ok,
    ensures
        retry_run(s, outcomes) == Some((k + 1, outcomes[k as int])),
    decreases k,
{
    if k > 0 {
        let next = RetryState { attempt: (s.attempt + 1) as u32, max_retries: s.max_retries };
        let rest = outcomes.drop_first();
        assert forall|i: int| 0 <= i < (k - 1) as nat implies rest[i] is Err by {
            assert(outcomes[i + 1] is Err);
        }
        lemma_retry_until_success(next, rest, (k - 1) as nat);
        assert(rest[k - 1] == outcomes[k as int]);
    }
}

proof fn lemma_retry_exhausted(s: RetryState, outcomes: Seq<Result<Response, HttpError>>)
    requires
        s.attempt <= s.max_retries,
        outcomes.len() > s.max_retries - s.attempt,
        forall|i: int| 0 <= i < outcomes.len() ==> outcomes[i] is Err,
    ensures
        retry_run(s, outcomes) == Some(
            ((s.max_retries - s.attempt + 1) as nat, outcomes[s.max_retries - s.attempt]),
        ),
    decreases s.max_retries - s.attempt,
{
    if s.attempt < s.max_retries {
        let next = RetryState { attempt: (s.attempt + 1) as u32, max_retries: s.max_retries };
        let rest = outcomes.drop_first();
        assert forall|i: int| 0 <= i < rest.len() implies rest[i] is Err by {
            assert(outcomes[i + 1] is Err);
        }
        lemma_retry_exhausted(next, rest);
        assert(rest[s.max_retries - s.attempt - 1] == outcomes[s.max_retries - s.attempt]);
    }
}

/// Retrying with `n` retries against a transport whose first `k <= n`
/// attempts fail and whose next succeeds delivers that success after
/// `k + 1` attempts; against a transport that always fails it delivers the
/// last failure after exactly `n + 1` attempts.
pub proof fn lemma_retry_law(n: u32, outcomes: Seq<Result<Response, HttpError>>, k: nat)
    ensures
        k <= n && k < outcomes.len() && (forall|i: int| 0 <= i < k ==> outcomes[i] is Err)
            && outcomes[k as int] is Ok ==> retry_run(
            RetryState { attempt: 0, max_retries: n },
            outcomes,
        ) == Some((k + 1, outcomes[k as int])),
        outcomes.len() > n && (forall|i: int| 0 <= i < outcomes.len() ==> outcomes[i] is Err)
            ==> retry_run(RetryState { attempt: 0, max_retries: n }, outcomes) == Some(
            ((n + 1) as nat, outcomes[n as int]),
        ),
{
    let s = RetryState { attempt: 0, max_retries: n };
    if k <= n && k < outcomes.len() && (forall|i: int| 0 <= i < k ==> outcomes[i] is Err)
        && outcomes[k as int] is Ok {
        lemma_retry_until_success(s, outcomes, k);
    }
    if outcomes.len() > n && (forall|i: int| 0 <= i < outcomes.len() ==> outcomes[i] is Err) {
        lemma_retry_exhausted(s, outcomes);
    }
}

/// What validating a batch returns: the failure of its first invalid
/// member, or success when every member is valid.
pub open spec fn batch_validation(reqs: Seq<Request>) -> Result<(), HttpError>
    decreases reqs.len(),
{
    if reqs.len() == 0 {
        Ok(())
    } else {
        match validation_result(reqs[0]) {
            Err(e) => Err(e),
            Ok(_) => batch_validation(reqs.drop_first()),
        }
    }
}

proof fn lemma_batch_validation_split(reqs: Seq<Request>, i: int)
    requires
        0 <= i < reqs.len(),
        forall|j: int| 0 <= j < i ==> request_failure(#[trigger] reqs[j]) is None,
    ensures
        batch_validation(reqs) == (match validation_result(reqs[i]) {
            Err(e) => Err(e),
            Ok(_) => batch_validation(reqs.subrange(i + 1, reqs.len() as int)),
        }),
    decreases i,
{
    if i > 0 {
        assert(request_failure(reqs[0]) is None);
        let rest = reqs.drop_first();
        assert forall|j: int| 0 <= j < i - 1 implies request_failure(#[trigger] rest[j]) is None by {
            assert(rest[j] == reqs[j + 1]);
        }
        lemma_batch_validation_split(rest, i - 1);
        assert(rest.subrange(i, rest.len() as int) =~= reqs.subrange(i + 1, reqs.len() as int));
    } else {
        assert(reqs.drop_first() =~= reqs.subrange(1, reqs.len() as int));
    }
}

/// Validates every member of a batch, stopping at the first failure.
pub fn validate_batch(requests: &Vec<Request>) -> (r: Result<(), HttpError>)
    ensures
        r == batch_validation(requests@),
        r is Ok <==> forall|i: int| 0 <= i < requests@.len() ==> request_failure(#[trigger] requests@[i]) is None,
{
    let mut i: usize = 0;
    while i < requests.len()
        invariant
            i <= requests@.len(),
            forall|j: int| 0 <= j < i ==> request_failure(#[trigger] requests@[j]) is None,
        decreases requests@.len() - i,
    {
        let v = RequestValidator::validate(&requests[i]);
        proof {
            lemma_batch_validation_split(requests@, i as int);
        }
        if v.is_err() {
            return v;
        }
        i = i + 1;
    }
    proof {
        assert(batch_validation(requests@.subrange(requests@.len() as int, requests@.len() as int)) is Ok);
        if requests@.len() > 0 {
            lemma_batch_validation_split(requests@, requests@.len() - 1);
        }
    }
    Ok(())
}

/// The responses of a batch in flight, one slot per request in input order.
#[derive(Debug)]
pub struct BatchJoin {
    slots: Vec<Option<Response>>,
}

/// What the join reports after one send has come back.
#[derive(Debug)]
pub enum BatchStep {
    /// Sends are still out.
    Waiting(BatchJoin),
    /// A send failed: this error is the batch's result.
    Failed(HttpError),
    /// Every send succeeded: the responses, in the order of the requests.
    Complete(Vec<Response>),
}

/// Whether every slot holds a response.
pub open spec fn all_filled(slots: Seq<Option<Response>>) -> bool {
    forall|i: int| 0 <= i < slots.len() ==> (#[trigger] slots[i]) is Some
}

/// The responses held by filled slots, slot by slot.
pub open spec fn filled_values(slots: Seq<Option<Response>>) -> Seq<Response> {
    Seq::new(slots.len(), |i: int| slots[i]->Some_0)
}

impl View for BatchJoin {
    type V = Seq<Option<Response>>;

    closed spec fn view(&self) -> Seq<Option<Response>> {
        self.slots@
    }
}

impl BatchJoin {
    /// Validates every request up front. Only when all are valid is a join
    /// opened, with one empty slot per request; otherwise no send is owed
    /// and the first validation failure is returned.
    pub fn begin(requests: &Vec<Request>) -> (r: Result<BatchJoin, HttpError>)
        ensures
            batch_validation(requests@) is Err ==> r == Err::<BatchJoin, HttpError>(
                batch_validation(requests@)->Err_0,
            ),
            batch_validation(requests@) is Ok ==> (r matches Ok(j) && j@ == Seq::<Option<Response>>::new(
                requests@.len(),
                |i: int| None,
            )),
    {
        match validate_batch(requests) {
            Err(e) => Err(e),
            Ok(_) => {
                let mut slots: Vec<Option<Response>> = Vec::new();
                let mut i: usize = 0;
                while i < requests.len()
                    invariant
                        i <= requests@.len(),
                        slots@ =~= Seq::<Option<Response>>::new(i as nat, |k: int| None),
                    decreases requests@.len() - i,
                {
                    slots.push(None);
                    i = i + 1;
                }
                Ok(BatchJoin { slots })
            },
        }
    }

    /// Number of requests in the batch.
    pub fn len(&self) -> (r: usize)
        ensures
            r == self@.len(),
    {
        self.slots.len()
    }

    /// Whether the send of request `index` has not come back yet.
    pub fn awaits(&self, index: usize) -> (r: bool)
        ensures
            r == (index < self@.len() && self@[index as int] is None),
    {
        index < self.slots.len() && self.slots[index].is_none()
    }

    /// Whether the batch is already complete, as an empty batch is.
    pub fn is_complete(&self) -> (r: bool)
        ensures
            r == all_filled(self@),
    {
        let mut i: usize = 0;
        while i < self.slots.len()
            invariant
                i <= self@.len(),
                forall|k: int| 0 <= k < i ==> (#[trigger] self@[k]) is Some,
            decreases self@.len() - i,
        {
            if self.slots[i].is_none() {
                return false;
            }
            i = i + 1;
        }
        true
    }

    /// The responses of a complete batch, in input order.
    pub fn into_responses(self) -> (r: Vec<Response>)
        requires
            all_filled(self@),
        ensures
            r@ == filled_values(self@),
    {
        let ghost start = self@;
        let mut slots = self.slots;
        let mut out: Vec<Response> = Vec::new();
        while slots.len() > 0
            invariant
                all_filled(slots@),
                out@ + filled_values(slots@) =~= filled_values(start),
            decreases slots@.len(),
        {
            let ghost before = slots@;
            let s = slots.remove(0);
            assert(before[0] is Some);
            assert(slots@ =~= before.drop_first());
            match s {
                Some(resp) => {
                    assert(filled_values(before) =~= seq![resp] + filled_values(slots@));
                    out.push(resp);
                },
                None => {},
            }
        }
        out
    }

    /// Records the outcome of request `index`'s send. A failure ends the
    /// batch with that error; the batch is complete once every slot is
    /// filled, with the responses in input order whatever the order of
    /// completion.
    pub fn on_complete(self, index: usize, outcome: Result<Response, HttpError>) -> (r: BatchStep)
        requires
            index < self@.len(),
            self@[index as int] is None,
        ensures
            outcome matches Err(e) ==> r == BatchStep::Failed(e),
            outcome matches Ok(resp) ==> {
                let filled = self@.update(index as int, Some(resp));
                &&& all_filled(filled) ==> (r matches BatchStep::Complete(v) && v@ == filled_values(filled))
                &&& !all_filled(filled) ==> (r matches BatchStep::Waiting(j) && j@ == filled)
            },
    {
        match outcome {
            Err(e) => BatchStep::Failed(e),
            Ok(resp) => {
                let mut slots = self.slots;
                slots.remove(index);
                slots.insert(index, Some(resp));
                let join = BatchJoin { slots };
                assert(join@ =~= self@.update(index as int, Some(resp)));
                if join.is_complete() {
                    BatchStep::Complete(join.into_responses())
                } else {
                    BatchStep::Waiting(join)
                }
            },
        }
    }
}

/// Runs the join against sends that all succeed, coming back in the given
/// order of request indices with `resps[i]` the response to request `i`:
/// the responses it delivers, or `None` while some are still out.
pub open spec fn join_run(
    slots: Seq<Option<Response>>,
    order: Seq<int>,
    resps: Seq<Response>,
) -> Option<Seq<Response>>
    decreases order.len(),
{
    if order.len() == 0 {
        if all_filled(slots) {
            Some(filled_values(slots))
        } else {
            None
        }
    } else {
        let next = slots.update(order[0], Some(resps[order[0]]));
        if all_filled(next) {
            Some(filled_values(next))
        } else {
            join_run(next, order.drop_first(), resps)
        }
    }
}

proof fn lemma_join_run(slots: Seq<Option<Response>>, order: Seq<int>, resps: Seq<Response>)
    requires
        slots.len() == resps.len(),
        order.no_duplicates(),
        forall|k: int| 0 <= k < order.len() ==> 0 <= #[trigger] order[k] < slots.len(),
        forall|j: int| 0 <= j < slots.len() ==> ((#[trigger] slots[j]) is None <==> order.contains(j)),
        forall|j: int| 0 <= j < slots.len() && (#[trigger] slots[j]) is Some ==> slots[j] == Some(resps[j]),
    ensures
        join_run(slots, order, resps) == Some(resps),
    decreases order.len(),
{
    if order.len() == 0 {
        assert(forall|j: int| 0 <= j < slots.len() ==> !order.contains(j));
        assert(filled_values(slots) =~= resps);
    } else {
        let next = slots.update(order[0], Some(resps[order[0]]));
        let rest = order.drop_first();
        assert forall|j: int| 0 <= j < next.len() && (#[trigger] next[j]) is Some implies next[j] == Some(resps[j]) by {
            if j != order[0] {
                assert(slots[j] is Some);
            }
        }
        assert forall|j: int| 0 <= j < next.len() implies ((#[trigger] next[j]) is None <==> rest.contains(j)) by {
            if j == order[0] {
                if rest.contains(j) {
                    let k = choose|k: int| 0 <= k < rest.len() && rest[k] == j;
                    assert(order[k + 1] == order[0]);
                }
            } else {
                if order.contains(j) {
                    let k = choose|k: int| 0 <= k < order.len() && order[k] == j;
                    assert(rest[k - 1] == j);
                }
                if rest.contains(j) {
                    let k = choose|k: int| 0 <= k < rest.len() && rest[k] == j;
                    assert(order[k + 1] == j);
                }
            }
        }
        if all_filled(next) {
            assert(filled_values(next) =~= resps);
        } else {
            assert forall|k: int| 0 <= k < rest.len() implies 0 <= #[trigger] rest[k] < next.len() by {
                assert(rest[k] == order[k + 1]);
            }
            lemma_join_run(next, rest, resps);
        }
    }
}

/// Whatever order the sends of an all-valid, all-successful batch come
/// back in, each request's send coming back once, the join delivers the
/// responses in the order of the requests.
pub proof fn lemma_batch_keeps_input_order(resps: Seq<Response>, order: Seq<int>)
    requires
        order.no_duplicates(),
        forall|k: int| 0 <= k < order.len() ==> 0 <= #[trigger] order[k] < resps.len(),
        forall|j: int| 0 <= j < resps.len() ==> order.contains(j),
    ensures
        join_run(Seq::new(resps.len(), |i: int| None::<Response>), order, resps) == Some(resps),
{
    lemma_join_run(Seq::new(resps.len(), |i: int| None::<Response>), order, resps);
}

/// A batch with one invalid request among valid ones opens no join, so no
/// send is made, and returns that request's validation failure.
pub proof fn lemma_batch_one_invalid(reqs: Seq<Request>, bad: int)
    requires
        0 <= bad < reqs.len(),
        request_failure(reqs[bad]) is Some,
        forall|j: int| 0 <= j < reqs.len() && j != bad ==> request_failure(#[trigger] reqs[j]) is None,
    ensures
        batch_validation(reqs) == Err::<(), HttpError>(HttpError::Validation(request_failure(reqs[bad])->Some_0)),
{
    lemma_batch_validation_split(reqs, bad);
}

} // verus!
