//! The decisions of the run of one call: which hop is allowed, what a
//! response leads to, and whether a failed hop is tried again.

use crate::config::Config;
use crate::error::Error;
use crate::pool::Scheme;
use vstd::prelude::*;

verus! {

/// What the run does with a response once its headers are read.
#[derive(Debug, Clone, Copy, PartialEq, Eq, Structural)]
pub enum Outcome {
    /// Send the redirected request: one more hop.
    Follow,
    /// Hand the response and its body to the caller.
    Deliver,
}

/// The hops of one call: the first request and the redirects that were
/// followed after it.
#[derive(Debug, Clone, Copy)]
pub struct Chain {
    followed: u32,
    max_redirects: u32,
    https_only: bool,
    http_status_as_error: bool,
}

/// Whether a status code is one of redirection.
pub open spec fn is_redirection(status: u16) -> bool {
    300 <= status < 400
}

/// What a response leads to. A redirect is followed where the status is one
/// of redirection, the protocol permits it and names the scheme of its
/// target, and fewer redirects than `max_redirects` were followed; the
/// target must then be https where only https is allowed. A response that
/// is not followed is an error where its status is 400 or more and such
/// statuses count as errors, and is delivered otherwise.
pub open spec fn response_outcome(
    followed: u32,
    max_redirects: u32,
    https_only: bool,
    http_status_as_error: bool,
    status: u16,
    target: Option<Scheme>,
) -> Result<Outcome, Error> {
    if is_redirection(status) && target is Some && followed < max_redirects {
        if https_only && target->0 != Scheme::Https {
            Err(Error::InsecureRedirect)
        } else {
            Ok(Outcome::Follow)
        }
    } else if http_status_as_error && status >= 400 {
        Err(Error::StatusCode(status))
    } else {
        Ok(Outcome::Deliver)
    }
}

impl Chain {
    /// How many redirects were followed.
    pub closed spec fn followed(self) -> u32 {
        self.followed
    }

    /// How many redirects may be followed.
    pub closed spec fn max_redirects(self) -> u32 {
        self.max_redirects
    }

    /// Whether every hop must be https.
    pub closed spec fn https_only(self) -> bool {
        self.https_only
    }

    /// Whether a status of 400 or more is an error.
    pub closed spec fn http_status_as_error(self) -> bool {
        self.http_status_as_error
    }

    /// The length of the chain: the first request and the redirects.
    pub open spec fn hops(self) -> nat {
        (self.followed() + 1) as nat
    }

    /// What holds of every chain: no more redirects than allowed.
    #[verifier::type_invariant]
    pub closed spec fn wf(self) -> bool {
        self.followed <= self.max_redirects
    }

    /// Starts the chain of a call to a URI of `scheme`. Fails with
    /// [`Error::InsecureRedirect`] where only https is allowed and the
    /// scheme is another.
    pub fn start(config: &Config, scheme: Scheme) -> (r: Result<Chain, Error>)
        ensures
            config.https_only && scheme != Scheme::Https ==> r matches Err(
                Error::InsecureRedirect,
            ),
            !(config.https_only && scheme != Scheme::Https) ==> (r matches Ok(c) && {
                &&& c.followed() == 0
                &&& c.max_redirects() == config.max_redirects
                &&& c.https_only() == config.https_only
                &&& c.http_status_as_error() == config.http_status_as_error
            }),
    {
        if config.https_only && scheme != Scheme::Https {
            return Err(Error::InsecureRedirect);
        }
        Ok(
            Chain {
                followed: 0,
                max_redirects: config.max_redirects,
                https_only: config.https_only,
                http_status_as_error: config.http_status_as_error,
            },
        )
    }

    /// Decides what the response of the current hop leads to, from its
    /// status and, where the protocol made a redirected request of it, the
    /// scheme of that request's target. Following a redirect counts it.
    pub fn on_response(&mut self, status: u16, target: Option<Scheme>) -> (r: Result<
        Outcome,
        Error,
    >)
        ensures
            outcome_is(
                r,
                response_outcome(
                    old(self).followed(),
                    old(self).max_redirects(),
                    old(self).https_only(),
                    old(self).http_status_as_error(),
                    status,
                    target,
                ),
            ),
            final(self).followed() == old(self).followed() + if r == Ok::<Outcome, Error>(
                Outcome::Follow,
            ) {
                1int
            } else {
                0int
            },
            final(self).max_redirects() == old(self).max_redirects(),
            final(self).https_only() == old(self).https_only(),
            final(self).http_status_as_error() == old(self).http_status_as_error(),
            final(self).hops() <= final(self).max_redirects() + 1,
    {
        proof {
            use_type_invariant(&*self);
        }
        let redirect = 300 <= status && status < 400;
        match target {
            Some(scheme) => {
                if redirect && self.followed < self.max_redirects {
                    if self.https_only && scheme != Scheme::Https {
                        return Err(Error::InsecureRedirect);
                    }
                    self.followed = self.followed + 1;
                    return Ok(Outcome::Follow);
                }
            },
            None => {},
        }
        if self.http_status_as_error && status >= 400 {
            Err(Error::StatusCode(status))
        } else {
            Ok(Outcome::Deliver)
        }
    }

    /// How many hops the chain has: never more than the allowed redirects
    /// and the first request.
    pub fn len(&self) -> (n: u64)
        ensures
            n == self.hops(),
            n <= self.max_redirects() + 1,
    {
        proof {
            use_type_invariant(self);
        }
        self.followed as u64 + 1
    }
}

/// Whether `r` is the result that `expected` names: the same outcome, or
/// the same error.
pub open spec fn outcome_is(r: Result<Outcome, Error>, expected: Result<Outcome, Error>) -> bool {
    match expected {
        Ok(o) => r == Ok::<Outcome, Error>(o),
        Err(Error::InsecureRedirect) => r matches Err(Error::InsecureRedirect),
        Err(Error::StatusCode(s)) => r matches Err(Error::StatusCode(t)) && t == s,
        Err(_) => false,
    }
}

/// Whether a hop that failed is tried once more on a fresh connection: only
/// where the connection came from the pool, no byte of a response had
/// arrived, and the hop was not tried again before.
pub open spec fn retries(reused: bool, response_bytes: usize, retried: bool) -> bool {
    reused && response_bytes == 0 && !retried
}

/// Decides whether a hop whose connection failed is tried once more. A
/// connection from the pool may have gone stale while it lay idle; a fresh
/// one has no such excuse, and its failure is the caller's to see.
pub fn should_retry(reused: bool, response_bytes: usize, retried: bool) -> (r: bool)
    ensures
        r == retries(reused, response_bytes, retried),
{
    reused && response_bytes == 0 && !retried
}

/// Where the run of a call stands.
#[derive(Debug, Clone, Copy, PartialEq, Eq, Structural)]
pub enum Stage {
    /// A connection for the current hop is wanted. After a retry the pool
    /// is passed over: the connection must be a fresh one.
    Connecting { retried: bool },
    /// The request of the current hop is on a connection, which came from
    /// the pool where `reused`, and its response is awaited.
    Exchanging { reused: bool, retried: bool },
    /// The call is over.
    Over,
}

/// The run of one call, hop by hop: the library decides what is done next,
/// a driver does it and reports what came of it.
#[derive(Debug, Clone, Copy)]
pub struct Run {
    chain: Chain,
    stage: Stage,
    max_response_header_size: usize,
}

impl Run {
    /// The hops of the call so far.
    pub closed spec fn chain(self) -> Chain {
        self.chain
    }

    /// Where the run stands.
    pub closed spec fn stage(self) -> Stage {
        self.stage
    }

    /// How many bytes the head of a response may have.
    pub closed spec fn max_response_header_size(self) -> usize {
        self.max_response_header_size
    }

    /// Starts the run of a call to a URI of `scheme`: a connection for the
    /// first hop is wanted, from the pool if it has one. Fails as
    /// [`Chain::start`] does.
    pub fn start(config: &Config, scheme: Scheme) -> (r: Result<Run, Error>)
        ensures
            config.https_only && scheme != Scheme::Https ==> r matches Err(
                Error::InsecureRedirect,
            ),
            !(config.https_only && scheme != Scheme::Https) ==> (r matches Ok(run) && {
                &&& run.stage() == (Stage::Connecting { retried: false })
                &&& run.max_response_header_size() == config.max_response_header_size
                &&& run.chain().followed() == 0
                &&& run.chain().max_redirects() == config.max_redirects
                &&& run.chain().https_only() == config.https_only
                &&& run.chain().http_status_as_error() == config.http_status_as_error
            }),
    {
        match Chain::start(config, scheme) {
            Ok(chain) => Ok(
                Run {
                    chain,
                    stage: Stage::Connecting { retried: false },
                    max_response_header_size: config.max_response_header_size,
                },
            ),
            Err(e) => Err(e),
        }
    }

    /// Whether the connection that is wanted may come from the pool: not
    /// after a retry, and not where none is wanted.
    pub fn may_use_pool(&self) -> (r: bool)
        ensures
            r == (self.stage() == Stage::Connecting { retried: false }),
    {
        match self.stage {
            Stage::Connecting { retried } => !retried,
            _ => false,
        }
    }

    /// How many hops the call has had.
    pub fn hops(&self) -> (n: u64)
        ensures
            n == self.chain().hops(),
            n <= self.chain().max_redirects() + 1,
    {
        self.chain.len()
    }

    /// Checks the bytes of a response that have arrived without its head
    /// being complete: fails with [`Error::HeaderTooLarge`] once there are
    /// more of them than the head may have.
    pub fn on_head_bytes(&self, accumulated: usize) -> (r: Result<(), Error>)
        ensures
            accumulated > self.max_response_header_size() ==> r matches Err(
                Error::HeaderTooLarge,
            ),
            accumulated <= self.max_response_header_size() ==> r is Ok,
    {
        if accumulated > self.max_response_header_size {
            Err(Error::HeaderTooLarge)
        } else {
            Ok(())
        }
    }

    /// Takes the connection that was wanted; `reused` says whether it came
    /// from the pool, which it may not after a retry. The request goes out
    /// on it.
    pub fn on_connected(&mut self, reused: bool)
        requires
            old(self).stage() matches Stage::Connecting { retried } && (retried ==> !reused),
        ensures
            final(self).chain() == old(self).chain(),
            final(self).max_response_header_size() == old(self).max_response_header_size(),
            final(self).stage() == (Stage::Exchanging {
                reused,
                retried: old(self).stage()->Connecting_retried,
            }),
    {
        match self.stage {
            Stage::Connecting { retried } => {
                self.stage = Stage::Exchanging { reused, retried };
            },
            _ => {},
        }
    }

    /// Takes the failure of the connection in the middle of the exchange,
    /// after `response_bytes` bytes of the response had arrived. Where
    /// [`retries`] allows it the hop is tried once more, on a fresh
    /// connection; otherwise the call is over and the failure is the
    /// caller's.
    pub fn on_failure(&mut self, response_bytes: usize, error: Error) -> (r: Result<(), Error>)
        requires
            old(self).stage() is Exchanging,
        ensures
            final(self).chain() == old(self).chain(),
            final(self).max_response_header_size() == old(self).max_response_header_size(),
            match old(self).stage() {
                Stage::Exchanging { reused, retried } => if retries(
                    reused,
                    response_bytes,
                    retried,
                ) {
                    r is Ok && final(self).stage() == (Stage::Connecting { retried: true })
                } else {
                    r == Err::<(), Error>(error) && final(self).stage() == Stage::Over
                },
                _ => false,
            },
    {
        match self.stage {
            Stage::Exchanging { reused, retried } => {
                if should_retry(reused, response_bytes, retried) {
                    self.stage = Stage::Connecting { retried: true };
                    return Ok(());
                }
            },
            _ => {},
        }
        self.stage = Stage::Over;
        Err(error)
    }

    /// Takes the status of the response and, where the protocol made a
    /// redirected request of it, the scheme of that request's target, and
    /// decides as [`response_outcome`] says. To follow a redirect is to want
    /// a connection for the next hop; every other outcome ends the run.
    pub fn on_response(&mut self, status: u16, target: Option<Scheme>) -> (r: Result<
        Outcome,
        Error,
    >)
        requires
            old(self).stage() is Exchanging,
        ensures
            outcome_is(
                r,
                response_outcome(
                    old(self).chain().followed(),
                    old(self).chain().max_redirects(),
                    old(self).chain().https_only(),
                    old(self).chain().http_status_as_error(),
                    status,
                    target,
                ),
            ),
            final(self).stage() == if r == Ok::<Outcome, Error>(Outcome::Follow) {
                Stage::Connecting { retried: false }
            } else {
                Stage::Over
            },
            final(self).max_response_header_size() == old(self).max_response_header_size(),
            final(self).chain().followed() == old(self).chain().followed() + if r == Ok::<
                Outcome,
                Error,
            >(Outcome::Follow) {
                1int
            } else {
                0int
            },
            final(self).chain().max_redirects() == old(self).chain().max_redirects(),
            final(self).chain().https_only() == old(self).chain().https_only(),
            final(self).chain().http_status_as_error() == old(self).chain().http_status_as_error(),
            final(self).chain().hops() <= final(self).chain().max_redirects() + 1,
    {
        let r = self.chain.on_response(status, target);
        self.stage = match r {
            Ok(Outcome::Follow) => Stage::Connecting { retried: false },
            _ => Stage::Over,
        };
        r
    }
}

/// A hop is tried again once at most, and never on a connection that was
/// fresh: after a retry the run takes a fresh connection only, and a failure
/// on a fresh connection is never retried.
pub proof fn lemma_one_retry(response_bytes: usize, retried: bool)
    ensures
        !retries(false, response_bytes, retried),
        forall|reused: bool, bytes: usize| !retries(reused, bytes, true),
{
}

/// Under `https_only` a redirect to a target that is not https is never
/// followed: where the protocol permits the redirect and redirects remain,
/// the response ends the call with `InsecureRedirect`.
pub proof fn lemma_insecure_hop_fails(
    followed: u32,
    max_redirects: u32,
    http_status_as_error: bool,
    status: u16,
    target: Scheme,
)
    requires
        target != Scheme::Https,
    ensures
        response_outcome(followed, max_redirects, true, http_status_as_error, status, Some(target))
            != Ok::<Outcome, Error>(Outcome::Follow),
        is_redirection(status) && followed < max_redirects ==> response_outcome(
            followed,
            max_redirects,
            true,
            http_status_as_error,
            status,
            Some(target),
        ) == Err::<Outcome, Error>(Error::InsecureRedirect),
{
}

/// The number of redirects that a run follows that has followed `followed`
/// and then meets `responses`, one after the other, each given by its status
/// and the target that the protocol made of it; the run ends with the first
/// response that is not followed.
pub open spec fn follows(
    followed: u32,
    max_redirects: u32,
    https_only: bool,
    http_status_as_error: bool,
    responses: Seq<(u16, Option<Scheme>)>,
) -> nat
    decreases responses.len(),
{
    if responses.len() > 0 && followed < max_redirects && response_outcome(
        followed,
        max_redirects,
        https_only,
        http_status_as_error,
        responses[0].0,
        responses[0].1,
    ) == Ok::<Outcome, Error>(Outcome::Follow) {
        1 + follows(
            (followed + 1) as u32,
            max_redirects,
            https_only,
            http_status_as_error,
            responses.drop_first(),
        )
    } else {
        0
    }
}

/// Whatever responses a call meets, it follows no more than `max_redirects`
/// redirects: its chain has `max_redirects + 1` hops at most.
pub proof fn lemma_chain_length(
    followed: u32,
    max_redirects: u32,
    https_only: bool,
    http_status_as_error: bool,
    responses: Seq<(u16, Option<Scheme>)>,
)
    requires
        followed <= max_redirects,
    ensures
        followed + follows(followed, max_redirects, https_only, http_status_as_error, responses)
            <= max_redirects,
    decreases responses.len(),
{
    if responses.len() > 0 && followed < max_redirects {
        lemma_chain_length(
            (followed + 1) as u32,
            max_redirects,
            https_only,
            http_status_as_error,
            responses.drop_first(),
        );
    }
}

} // verus!
