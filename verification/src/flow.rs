use vstd::prelude::*;

verus! {

/// Whether an HTTP status code is a success (2xx), as hyper's
/// `StatusCode::is_success` classes it.
pub fn is_success_status(code: u16) -> (r: bool)
    ensures
        r == (200 <= code <= 299),
{
    200 <= code && code <= 299
}

/// What came of sending a request once.
#[derive(Clone, Copy, Debug, PartialEq, Eq, Structural)]
pub enum SendOutcome {
    /// The connection was aborted (it had been idle for a while).
    Aborted,
    /// Sending failed in any other way.
    Failed,
    /// The server answered; `rate_limited` tells whether the rate limiter
    /// found the answer to be a rate-limit refusal, after which it has waited.
    Answered { rate_limited: bool },
}

/// What to do after a send.
#[derive(Clone, Copy, Debug, PartialEq, Eq, Structural)]
pub enum RequestStep {
    /// Send the request again.
    Send,
    /// Stop, and check the status of the last result.
    Finish,
}

/// Where a request stands: whether it has already been resent after a rate
/// limit, and whether it has been resent after an aborted connection since.
#[derive(Clone, Copy, Debug, PartialEq, Eq, Structural)]
pub struct RequestFlow {
    pub after_rate_limit: bool,
    pub resent_after_abort: bool,
}

/// How many more sends a request may still make.
pub open spec fn send_budget(f: RequestFlow) -> nat {
    (if f.resent_after_abort { 0nat } else { 1nat }) + (if f.after_rate_limit { 0nat } else { 2nat })
}

/// The decision after a send: an aborted connection is retried once; an
/// answer that the rate limiter refused is sent once more (with its own retry
/// on an aborted connection); anything else ends the request.
pub open spec fn next_step(f: RequestFlow, outcome: SendOutcome) -> (RequestFlow, RequestStep) {
    match outcome {
        SendOutcome::Aborted => if f.resent_after_abort {
            (f, RequestStep::Finish)
        } else {
            (RequestFlow { resent_after_abort: true, ..f }, RequestStep::Send)
        },
        SendOutcome::Failed => (f, RequestStep::Finish),
        SendOutcome::Answered { rate_limited } => if rate_limited && !f.after_rate_limit {
            (RequestFlow { after_rate_limit: true, resent_after_abort: false }, RequestStep::Send)
        } else {
            (f, RequestStep::Finish)
        },
    }
}

impl RequestFlow {
    /// A request that is about to be sent for the first time.
    pub fn start() -> (f: RequestFlow)
        ensures
            !f.after_rate_limit,
            !f.resent_after_abort,
            send_budget(f) == 3,
    {
        RequestFlow { after_rate_limit: false, resent_after_abort: false }
    }

    /// Decides what follows a send that came to `outcome`.
    pub fn after_send(&mut self, outcome: SendOutcome) -> (step: RequestStep)
        ensures
            (*final(self), step) == next_step(*old(self), outcome),
            step == RequestStep::Send ==> send_budget(*final(self)) < send_budget(*old(self)),
    {
        match outcome {
            SendOutcome::Aborted => {
                if self.resent_after_abort {
                    RequestStep::Finish
                } else {
                    self.resent_after_abort = true;
                    RequestStep::Send
                }
            },
            SendOutcome::Failed => RequestStep::Finish,
            SendOutcome::Answered { rate_limited } => {
                if rate_limited && !self.after_rate_limit {
                    self.after_rate_limit = true;
                    self.resent_after_abort = false;
                    RequestStep::Send
                } else {
                    RequestStep::Finish
                }
            },
        }
    }
}

/// How many more times a request is sent when its sends come to `outcomes`
/// in turn, until the flow says to finish.
pub open spec fn resends(f: RequestFlow, outcomes: Seq<SendOutcome>) -> nat
    decreases outcomes.len(),
{
    if outcomes.len() == 0 {
        0
    } else {
        let (g, step) = next_step(f, outcomes[0]);
        match step {
            RequestStep::Send => 1 + resends(g, outcomes.drop_first()),
            RequestStep::Finish => 0,
        }
    }
}

/// The request sent again after a rate limit is a fresh send with its own
/// retry: whatever happened before (an aborted connection already retried or
/// not), if its connection is then aborted it is sent once more. So after a
/// first rate limit and an abort, the request is sent twice more, and a
/// further rate limit is not waited out again.
pub proof fn lemma_resend_after_rate_limit_has_its_own_retry(
    after_abort: bool,
    outcome: SendOutcome,
)
    ensures
        ({
            let f = RequestFlow { after_rate_limit: false, resent_after_abort: after_abort };
            let (g, step) = next_step(f, SendOutcome::Answered { rate_limited: true });
            &&& step == RequestStep::Send
            &&& next_step(g, SendOutcome::Aborted).1 == RequestStep::Send
            &&& resends(
                f,
                seq![SendOutcome::Answered { rate_limited: true }, SendOutcome::Aborted, outcome],
            ) == 2
            &&& next_step(g, SendOutcome::Answered { rate_limited: true }).1 == RequestStep::Finish
        }),
{
    let f = RequestFlow { after_rate_limit: false, resent_after_abort: after_abort };
    let os = seq![SendOutcome::Answered { rate_limited: true }, SendOutcome::Aborted, outcome];
    let os1 = os.drop_first();
    let os2 = os1.drop_first();
    assert(os1 =~= seq![SendOutcome::Aborted, outcome]);
    assert(os2 =~= seq![outcome]);
    let g = RequestFlow { after_rate_limit: true, resent_after_abort: false };
    let h = RequestFlow { after_rate_limit: true, resent_after_abort: true };
    assert(next_step(f, os[0]) == (g, RequestStep::Send));
    assert(next_step(g, os1[0]) == (h, RequestStep::Send));
    assert(next_step(h, os2[0]).1 == RequestStep::Finish);
    assert(resends(h, os2) == 0);
    assert(resends(g, os1) == 1 + resends(h, os2));
    assert(resends(f, os) == 1 + resends(g, os1));
}

/// An aborted connection is sent again exactly once: a second abort in a row
/// ends the request.
pub proof fn lemma_abort_is_retried_once(rate_limited_before: bool)
    ensures
        ({
            let f = RequestFlow { after_rate_limit: rate_limited_before, resent_after_abort: false };
            &&& next_step(f, SendOutcome::Aborted).1 == RequestStep::Send
            &&& next_step(next_step(f, SendOutcome::Aborted).0, SendOutcome::Aborted).1
                == RequestStep::Finish
        }),
{
}

/// Whatever the server and the network do, a request is sent at most four
/// times: once, once more after an aborted connection, and the same again
/// after a rate limit.
pub proof fn lemma_at_most_four_sends(outcomes: Seq<SendOutcome>)
    ensures
        1 + resends(RequestFlow { after_rate_limit: false, resent_after_abort: false }, outcomes)
            <= 4,
{
    lemma_resends_within_budget(
        RequestFlow { after_rate_limit: false, resent_after_abort: false },
        outcomes,
    );
}

proof fn lemma_resends_within_budget(f: RequestFlow, outcomes: Seq<SendOutcome>)
    ensures
        resends(f, outcomes) <= send_budget(f),
    decreases outcomes.len(),
{
    if outcomes.len() > 0 {
        let (g, step) = next_step(f, outcomes[0]);
        lemma_resends_within_budget(g, outcomes.drop_first());
    }
}

} // verus!
