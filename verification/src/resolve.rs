//! Link Resolver: classification of lookup outcomes, batch-wise and without
//! short-circuiting.
//!
//! The HTTP exchange with a lookup service happens outside this crate; what
//! comes back for each candidate URL — a status code with a body that did or
//! did not parse into the service's response shape, or a transport failure —
//! is classified here. A batch of outcomes maps to a batch of resolved links
//! of the same length, position by position: one URL's failure never affects
//! its siblings, and there is no early return.

use vstd::prelude::*;

verus! {

/// What one lookup exchange produced, as handed in by the HTTP plumbing:
/// the response status with the parse outcome of its body, or a transport
/// failure (timeout, connection refused, unreadable response).
pub enum ServiceResponse<B> {
    Status { code: u16, parsed: Option<B> },
    TransportFailure,
}

/// Why one resolution errored.
#[derive(Debug, Clone, Copy, PartialEq, Eq)]
pub enum ResolutionErrorCause {
    /// The exchange itself failed: no usable response arrived.
    TransportFailure,
    /// A success status arrived but its body did not parse into the
    /// service's response shape.
    MalformedBody,
    /// A status that neither indicates success nor the service's "no match"
    /// answer.
    UnexpectedStatus(u16),
}

/// The outcome of resolving one candidate URL. `NotFound` is silently
/// dropped from the reply; `ResolutionError` is logged by the caller but
/// must not abort sibling resolutions.
pub enum ResolvedLink<B> {
    Found(B),
    NotFound,
    ResolutionError(ResolutionErrorCause),
}

/// Classification of one lookup outcome: a parsed success body is `Found`;
/// the service's "no match" status 400 is `NotFound`; everything else — an
/// unparseable success body, any other status, or a transport failure — is
/// a `ResolutionError` with its cause.
pub open spec fn classify_spec<B>(resp: ServiceResponse<B>) -> ResolvedLink<B> {
    match resp {
        ServiceResponse::Status { code, parsed } => {
            if 200 <= code < 300 {
                match parsed {
                    Some(b) => ResolvedLink::Found(b),
                    None => ResolvedLink::ResolutionError(ResolutionErrorCause::MalformedBody),
                }
            } else if code == 400 {
                ResolvedLink::NotFound
            } else {
                ResolvedLink::ResolutionError(ResolutionErrorCause::UnexpectedStatus(code))
            }
        },
        ServiceResponse::TransportFailure => ResolvedLink::ResolutionError(
            ResolutionErrorCause::TransportFailure,
        ),
    }
}

/// Classifies one lookup outcome.
pub fn classify_lookup<B>(resp: ServiceResponse<B>) -> (r: ResolvedLink<B>)
    ensures
        r == classify_spec(resp),
{
    match resp {
        ServiceResponse::Status { code, parsed } => {
            if 200 <= code && code < 300 {
                match parsed {
                    Some(b) => ResolvedLink::Found(b),
                    None => ResolvedLink::ResolutionError(ResolutionErrorCause::MalformedBody),
                }
            } else if code == 400 {
                ResolvedLink::NotFound
            } else {
                ResolvedLink::ResolutionError(ResolutionErrorCause::UnexpectedStatus(code))
            }
        },
        ServiceResponse::TransportFailure => ResolvedLink::ResolutionError(
            ResolutionErrorCause::TransportFailure,
        ),
    }
}

/// Classifies a whole batch of lookup outcomes. The result has the same
/// length as the batch and corresponds to it position by position: the
/// batch never short-circuits on a failure.
pub fn classify_batch<B>(resps: Vec<ServiceResponse<B>>) -> (r: Vec<ResolvedLink<B>>)
    ensures
        r@.len() == resps@.len(),
        forall|i: int| 0 <= i < resps@.len() ==> r@[i] == classify_spec(resps@[i]),
{
    let ghost orig = resps@;
    let mut rest = resps;
    let mut r: Vec<ResolvedLink<B>> = Vec::new();
    while rest.len() > 0
        invariant
            r@.len() + rest@.len() == orig.len(),
            rest@ =~= orig.skip(r@.len() as int),
            forall|i: int| 0 <= i < r@.len() ==> r@[i] == classify_spec(orig[i]),
        decreases rest@.len(),
    {
        let next = rest.remove(0);
        assert(next == orig[r@.len() as int]);
        r.push(classify_lookup(next));
    }
    r
}

/// The `Found` records of a batch, in order, with `NotFound` and
/// `ResolutionError` entries dropped.
pub open spec fn found_records<B>(s: Seq<ResolvedLink<B>>) -> Seq<B>
    decreases s.len(),
{
    if s.len() == 0 {
        Seq::empty()
    } else {
        found_records(s.drop_last()) + (match s.last() {
            ResolvedLink::Found(b) => seq![b],
            _ => Seq::empty(),
        })
    }
}

/// Keeps the `Found` records of a batch, in order.
pub fn filter_found<B>(links: Vec<ResolvedLink<B>>) -> (r: Vec<B>)
    ensures
        r@ == found_records(links@),
{
    let ghost orig = links@;
    let mut rest = links;
    let mut r: Vec<B> = Vec::new();
    let ghost mut done: int = 0;
    while rest.len() > 0
        invariant
            0 <= done <= orig.len(),
            rest@.len() + done == orig.len(),
            rest@ =~= orig.skip(done),
            r@ == found_records(orig.take(done)),
        decreases rest@.len(),
    {
        let next = rest.remove(0);
        assert(next == orig[done]);
        match next {
            ResolvedLink::Found(b) => {
                r.push(b);
            },
            ResolvedLink::NotFound => {},
            ResolvedLink::ResolutionError(_) => {},
        }
        proof {
            assert(orig.take(done + 1).drop_last() =~= orig.take(done));
            assert(orig.take(done + 1).last() == orig[done]);
            done = done + 1;
        }
    }
    proof {
        assert(orig.take(orig.len() as int) =~= orig);
    }
    r
}

} // verus!
