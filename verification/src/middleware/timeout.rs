//! A time budget around an inner service.
//!
//! Times are nanoseconds on a monotonic clock whose origin the caller picks;
//! the budget is a number of nanoseconds. Both are `u128`, which holds the
//! nanoseconds of any duration. The deadline is fixed when the
//! service is first polled for readiness and never moves afterwards: every
//! later readiness check, and the call itself, run against that one deadline.
use crate::error::{ErrorType, ProxyError};
use vstd::prelude::*;
use vstd::string::StringExecFns;

verus! {

/// The deadline after a readiness check at `now`: the one already fixed,
/// or `now` plus the budget on the first check.
pub open spec fn next_deadline(deadline: Option<u128>, budget: u128, now: u128) -> int {
    match deadline {
        Some(d) => d as int,
        None => now + budget,
    }
}

/// A readiness check at `now` can fix the deadline without overflow.
pub open spec fn deadline_fits(deadline: Option<u128>, budget: u128, now: u128) -> bool {
    next_deadline(deadline, budget, now) <= u128::MAX
}

/// An inner service with a time budget.
pub struct Timeout<S> {
    inner: S,
    timeout: u128,
    timeout_at: Option<u128>,
}

impl<S> Timeout<S> {
    /// The wrapped service.
    pub closed spec fn inner_service(&self) -> S {
        self.inner
    }

    /// The budget, in nanoseconds.
    pub closed spec fn budget(&self) -> u128 {
        self.timeout
    }

    /// The deadline, once a readiness check has fixed it.
    pub closed spec fn deadline(&self) -> Option<u128> {
        self.timeout_at
    }

    /// Wraps `inner` with a budget of `timeout` nanoseconds; no deadline yet.
    pub fn new(timeout: u128, inner: S) -> (t: Self)
        ensures
            t.inner_service() == inner,
            t.budget() == timeout,
            t.deadline() is None,
    {
        Self { inner: inner, timeout: timeout, timeout_at: None }
    }

    /// The readiness check at time `now`. The first check fixes the deadline
    /// at `now` plus the budget. Past the deadline (strictly after it) the
    /// check fails with a timeout; otherwise it returns `Ok` and the inner
    /// service is to be polled.
    pub fn poll_deadline(&mut self, now: u128) -> (r: Result<(), ProxyError>)
        requires
            deadline_fits(old(self).deadline(), old(self).budget(), now),
        ensures
            final(self).deadline() == Some(
                next_deadline(old(self).deadline(), old(self).budget(), now) as u128,
            ),
            final(self).budget() == old(self).budget(),
            final(self).inner_service() == old(self).inner_service(),
            r is Err <==> now > next_deadline(old(self).deadline(), old(self).budget(), now),
            r matches Err(e) ==> e.kind() == ErrorType::Timeout,
    {
        let deadline = match self.timeout_at {
            Some(d) => d,
            None => {
                let d = now + self.timeout;
                self.timeout_at = Some(d);
                d
            },
        };
        if now > deadline {
            Err(ProxyError::new(ErrorType::Timeout))
        } else {
            Ok(())
        }
    }

    /// Whether a readiness check at `now` can fix the deadline without
    /// overflow.
    pub fn can_poll_at(&self, now: u128) -> (ok: bool)
        ensures
            ok == deadline_fits(self.deadline(), self.budget(), now),
    {
        match self.timeout_at {
            Some(_) => true,
            None => now <= u128::MAX - self.timeout,
        }
    }

    /// The deadline of a call: the one the first readiness check fixed,
    /// none before such a check.
    pub fn call_deadline(&self) -> (d: Option<u128>)
        ensures
            d == self.deadline(),
    {
        self.timeout_at
    }

    /// The wrapped service, to be polled or called.
    pub fn inner_mut(&mut self) -> (s: &mut S)
        ensures
            *s == old(self).inner_service(),
            final(self).inner_service() == *final(s),
            final(self).budget() == old(self).budget(),
            final(self).deadline() == old(self).deadline(),
    {
        &mut self.inner
    }
}

/// What a call under a deadline gives back: `None` when the deadline passed
/// first, else what the inner call returned, its error as text.
pub open spec fn timed_result<R>(outcome: Option<Result<R, String>>) -> Result<R, ErrorType> {
    match outcome {
        None => Err(ErrorType::Timeout),
        Some(Ok(r)) => Ok(r),
        Some(Err(msg)) => Err(ErrorType::Internal(msg)),
    }
}

/// Settles a call under a deadline: a passed deadline is a timeout, an error
/// of the inner call is an internal error that carries its text.
pub fn settle_timed_call<R>(outcome: Option<Result<R, String>>) -> (r: Result<R, ProxyError>)
    ensures
        match (r, timed_result(outcome)) {
            (Ok(v), Ok(w)) => v == w,
            (Err(e), Err(k)) => e.kind() == k,
            _ => false,
        },
        outcome matches Some(Ok(v)) ==> r == Ok::<R, ProxyError>(v),
        outcome matches Some(Err(msg)) ==> (r matches Err(e) && e.kind() == ErrorType::Internal(
            msg,
        )),
        (r matches Err(e) && e.kind() == ErrorType::Timeout) <==> outcome is None,
{
    match outcome {
        None => Err(ProxyError::new(ErrorType::Timeout)),
        Some(Ok(v)) => Ok(v),
        Some(Err(msg)) => Err(ProxyError::new(ErrorType::Internal(msg))),
    }
}

/// A call under a deadline times out exactly when the deadline passed first;
/// an inner call that finished in time gives its value back, or, when it
/// failed, an internal error that carries its text unchanged, whatever it is.
pub proof fn lemma_timed_result_keeps_the_inner_outcome<R>(value: R, msg: String)
    ensures
        timed_result::<R>(None) == Err::<R, ErrorType>(ErrorType::Timeout),
        timed_result(Some(Ok::<R, String>(value))) == Ok::<R, ErrorType>(value),
        timed_result(Some(Err::<R, String>(msg))) == Err::<R, ErrorType>(ErrorType::Internal(msg)),
        timed_result(Some(Ok::<R, String>(value))) != Err::<R, ErrorType>(ErrorType::Timeout),
        timed_result(Some(Err::<R, String>(msg))) != Err::<R, ErrorType>(ErrorType::Timeout),
{
}

/// Text of the error when the inner service failed its readiness check.
pub open spec fn inner_poll_failed_text() -> Seq<char> {
    "failed to poll inner service"@
}

/// Settles a readiness check that reached the inner service: its readiness
/// passes through, and its failure, whatever it was, is an internal error.
pub fn settle_inner_ready<E>(r: Result<(), E>) -> (o: Result<(), ProxyError>)
    ensures
        r is Ok <==> o is Ok,
        o matches Err(e) ==> (e.kind() matches ErrorType::Internal(msg) && msg@
            == inner_poll_failed_text()),
{
    match r {
        Ok(()) => Ok(()),
        Err(_) => Err(ProxyError::new(ErrorType::Internal(
            String::from_str("failed to poll inner service"),
        ))),
    }
}

/// Two readiness checks, at `first` and then at `second` no earlier: both run
/// against the deadline that the first fixed, and once a check has failed
/// with a timeout, every later one fails too.
pub proof fn lemma_deadline_fixed_by_first_check(
    deadline: Option<u128>,
    budget: u128,
    first: u128,
    second: u128,
)
    requires
        deadline_fits(deadline, budget, first),
        first <= second,
    ensures
        ({
            let d = next_deadline(deadline, budget, first) as u128;
            &&& next_deadline(Some(d), budget, second) == next_deadline(deadline, budget, first)
            &&& first > next_deadline(deadline, budget, first) ==> second > next_deadline(
                Some(d),
                budget,
                second,
            )
        }),
{
}

/// The first readiness check of a fresh service never times out.
pub proof fn lemma_first_check_is_in_time(budget: u128, now: u128)
    requires
        deadline_fits(None, budget, now),
    ensures
        !(now > next_deadline(None, budget, now)),
{
}

} // verus!
