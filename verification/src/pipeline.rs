//! The redirect pipeline as a state machine.
//!
//! A request walks a strictly sequential ladder: resolve the secret, derive
//! the per-request object-store configuration, confirm the object exists,
//! sign the retrieval URL, append the access-log record, redirect. Each rung
//! that needs the outside world is driven from the outside: the caller
//! performs the store query, the existence probe, the signing and the log
//! write, and feeds the outcome back as an [`Event`]. [`step`] alone decides
//! what each outcome means, and any failure moves the machine straight to a
//! terminal [`Stage::Failed`] — there is no retry and no branching back.
//!
//! Policy note: a failure to write the access-log record aborts the request
//! as an internal failure; the redirect is only issued once the record is
//! written ("log, then redirect").

use vstd::prelude::*;

use crate::config::DownloadCoordinates;
use crate::config::ObjectStoreConfig;
use crate::config::derive_config;
use crate::config::derived_config_spec;
use crate::failure::Failure;
use crate::failure::status_of;
use crate::presign::PresignedRequest;

verus! {

/// What the store said when asked to resolve the secret.
pub enum ResolveEvent {
    /// Exactly one record matched and its validity window covers now.
    Found(DownloadCoordinates),
    /// No record matched: the secret is invalid, unknown or expired.
    NoMatch,
    /// The store could not be asked; the payload is a server-side detail.
    StoreFault(String),
}

/// What the metadata-only existence probe said about the target object.
pub enum ProbeEvent {
    /// The object is present.
    Exists,
    /// The object store answered that no such object exists.
    Missing,
    /// The probe failed some other way (permission, network, timeout).
    Fault(String),
}

/// What the signer produced.
pub enum SignEvent {
    /// A presigned retrieval request.
    Signed(PresignedRequest),
    /// Signing failed; the payload is a server-side detail.
    Fault(String),
}

/// What the access-log write came to.
pub enum LogEvent {
    /// The record was appended.
    Recorded,
    /// The write failed; the payload is a server-side detail.
    Fault(String),
}

/// One outcome of outside work, handed back to the machine.
pub enum Event {
    Resolution(ResolveEvent),
    Probe(ProbeEvent),
    Signature(SignEvent),
    LogWrite(LogEvent),
}

/// Where a request stands. The two terminal stages absorb every further
/// event; each other stage waits for exactly one kind of outcome.
pub enum Stage {
    /// Waiting for the store to resolve the secret.
    AwaitingResolution,
    /// The secret resolved; waiting for the existence probe, which must use
    /// the derived per-request configuration carried here.
    AwaitingProbe(DownloadCoordinates, ObjectStoreConfig),
    /// The object exists; waiting for the signer.
    AwaitingSignature(DownloadCoordinates, ObjectStoreConfig),
    /// A URL was signed; waiting for the access-log write.
    AwaitingLog(DownloadCoordinates, PresignedRequest),
    /// Terminal: redirect the client to the signed URL.
    Redirected(PresignedRequest),
    /// Terminal: render the failure.
    Failed(Failure),
}

/// The outside work each stage asks of its driver.
pub enum Action {
    /// Ask the store to resolve the secret.
    QuerySecret,
    /// Probe the target object with the derived configuration.
    ProbeObject,
    /// Sign the retrieval request.
    SignRequest,
    /// Append the access-log record.
    WriteLog,
    /// Answer with a temporary redirect to the signed URL.
    RespondRedirect,
    /// Answer with the rendered failure page.
    RespondFailure,
}

/// What one event does to one stage. A resolved secret moves the machine on
/// with the per-request configuration derived from the base; no match and a
/// missing object both fail as `Unauthorized`, every other fault as
/// `InternalFailure` carrying its detail. A terminal stage never moves, and a
/// stage ignores an outcome it is not waiting for.
pub open spec fn step_spec(base: ObjectStoreConfig, stage: Stage, event: Event) -> Stage {
    match stage {
        Stage::AwaitingResolution => match event {
            Event::Resolution(ResolveEvent::Found(c)) => Stage::AwaitingProbe(
                c,
                derived_config_spec(base, c),
            ),
            Event::Resolution(ResolveEvent::NoMatch) => Stage::Failed(Failure::Unauthorized),
            Event::Resolution(ResolveEvent::StoreFault(m)) => Stage::Failed(
                Failure::InternalFailure(m),
            ),
            _ => stage,
        },
        Stage::AwaitingProbe(c, cfg) => match event {
            Event::Probe(ProbeEvent::Exists) => Stage::AwaitingSignature(c, cfg),
            Event::Probe(ProbeEvent::Missing) => Stage::Failed(Failure::Unauthorized),
            Event::Probe(ProbeEvent::Fault(m)) => Stage::Failed(Failure::InternalFailure(m)),
            _ => stage,
        },
        Stage::AwaitingSignature(c, _cfg) => match event {
            Event::Signature(SignEvent::Signed(req)) => Stage::AwaitingLog(c, req),
            Event::Signature(SignEvent::Fault(m)) => Stage::Failed(Failure::InternalFailure(m)),
            _ => stage,
        },
        Stage::AwaitingLog(_c, req) => match event {
            Event::LogWrite(LogEvent::Recorded) => Stage::Redirected(req),
            Event::LogWrite(LogEvent::Fault(m)) => Stage::Failed(Failure::InternalFailure(m)),
            _ => stage,
        },
        Stage::Redirected(_) => stage,
        Stage::Failed(_) => stage,
    }
}

/// Advances the machine by one outcome.
pub fn step(base: &ObjectStoreConfig, stage: Stage, event: Event) -> (next: Stage)
    ensures
        next == step_spec(*base, stage, event),
{
    match stage {
        Stage::AwaitingResolution => match event {
            Event::Resolution(ResolveEvent::Found(c)) => {
                let cfg = derive_config(base, &c);
                Stage::AwaitingProbe(c, cfg)
            },
            Event::Resolution(ResolveEvent::NoMatch) => Stage::Failed(Failure::Unauthorized),
            Event::Resolution(ResolveEvent::StoreFault(m)) => Stage::Failed(
                Failure::InternalFailure(m),
            ),
            _ => Stage::AwaitingResolution,
        },
        Stage::AwaitingProbe(c, cfg) => match event {
            Event::Probe(ProbeEvent::Exists) => Stage::AwaitingSignature(c, cfg),
            Event::Probe(ProbeEvent::Missing) => Stage::Failed(Failure::Unauthorized),
            Event::Probe(ProbeEvent::Fault(m)) => Stage::Failed(Failure::InternalFailure(m)),
            _ => Stage::AwaitingProbe(c, cfg),
        },
        Stage::AwaitingSignature(c, cfg) => match event {
            Event::Signature(SignEvent::Signed(req)) => Stage::AwaitingLog(c, req),
            Event::Signature(SignEvent::Fault(m)) => Stage::Failed(Failure::InternalFailure(m)),
            _ => Stage::AwaitingSignature(c, cfg),
        },
        Stage::AwaitingLog(c, req) => match event {
            Event::LogWrite(LogEvent::Recorded) => Stage::Redirected(req),
            Event::LogWrite(LogEvent::Fault(m)) => Stage::Failed(Failure::InternalFailure(m)),
            _ => Stage::AwaitingLog(c, req),
        },
        Stage::Redirected(req) => Stage::Redirected(req),
        Stage::Failed(f) => Stage::Failed(f),
    }
}

/// The outside work a stage asks for.
pub open spec fn action_spec(stage: Stage) -> Action {
    match stage {
        Stage::AwaitingResolution => Action::QuerySecret,
        Stage::AwaitingProbe(_, _) => Action::ProbeObject,
        Stage::AwaitingSignature(_, _) => Action::SignRequest,
        Stage::AwaitingLog(_, _) => Action::WriteLog,
        Stage::Redirected(_) => Action::RespondRedirect,
        Stage::Failed(_) => Action::RespondFailure,
    }
}

/// Tells the driver what to do next.
pub fn next_action(stage: &Stage) -> (a: Action)
    ensures
        a == action_spec(*stage),
{
    match stage {
        Stage::AwaitingResolution => Action::QuerySecret,
        Stage::AwaitingProbe(_, _) => Action::ProbeObject,
        Stage::AwaitingSignature(_, _) => Action::SignRequest,
        Stage::AwaitingLog(_, _) => Action::WriteLog,
        Stage::Redirected(_) => Action::RespondRedirect,
        Stage::Failed(_) => Action::RespondFailure,
    }
}

/// The HTTP status a terminal stage answers with: a temporary redirect for a
/// signed URL, the failure's own status otherwise; a stage still in flight
/// answers nothing.
pub open spec fn response_status_spec(stage: Stage) -> Option<u16> {
    match stage {
        Stage::Redirected(_) => Some(307u16),
        Stage::Failed(f) => Some(status_of(f)),
        _ => None,
    }
}

/// The status code of a terminal stage.
pub fn response_status(stage: &Stage) -> (r: Option<u16>)
    ensures
        r == response_status_spec(*stage),
{
    match stage {
        Stage::Redirected(_) => Some(307),
        Stage::Failed(f) => Some(f.status_code()),
        _ => None,
    }
}

/// The machine run over a whole sequence of outcomes.
pub open spec fn run_spec(base: ObjectStoreConfig, stage: Stage, events: Seq<Event>) -> Stage
    decreases events.len(),
{
    if events.len() == 0 {
        stage
    } else {
        run_spec(base, step_spec(base, stage, events[0]), events.drop_first())
    }
}

/// A terminal stage stays where it is, whatever else arrives.
pub proof fn lemma_terminal_absorbs(base: ObjectStoreConfig, stage: Stage, events: Seq<Event>)
    requires
        stage is Redirected || stage is Failed,
    ensures
        run_spec(base, stage, events) == stage,
    decreases events.len(),
{
    if events.len() > 0 {
        lemma_terminal_absorbs(base, stage, events.drop_first());
    }
}

/// An invalid, unknown, expired or unresolvable secret fails the request at
/// once — as `Unauthorized` when the store found no record, as an internal
/// failure when the store could not be asked — and however the run goes on,
/// the machine never asks for the existence probe: no probe, signing, or log
/// write follows a failed resolution.
pub proof fn lemma_failed_resolution_never_probes(
    base: ObjectStoreConfig,
    first: Event,
    later: Seq<Event>,
    i: int,
)
    requires
        first matches Event::Resolution(r) && !(r is Found),
        0 <= i <= later.len(),
    ensures
        first == Event::Resolution(ResolveEvent::NoMatch) ==> step_spec(
            base,
            Stage::AwaitingResolution,
            first,
        ) == Stage::Failed(Failure::Unauthorized) && response_status_spec(
            step_spec(base, Stage::AwaitingResolution, first),
        ) == Some(401u16),
        step_spec(base, Stage::AwaitingResolution, first) is Failed,
        action_spec(
            run_spec(base, step_spec(base, Stage::AwaitingResolution, first), later.take(i)),
        ) != Action::ProbeObject,
        action_spec(
            run_spec(base, step_spec(base, Stage::AwaitingResolution, first), later.take(i)),
        ) != Action::SignRequest,
        action_spec(
            run_spec(base, step_spec(base, Stage::AwaitingResolution, first), later.take(i)),
        ) != Action::WriteLog,
{
    let failed = step_spec(base, Stage::AwaitingResolution, first);
    lemma_terminal_absorbs(base, failed, later.take(i));
}

/// A valid secret whose target object is absent fails exactly as an invalid
/// secret does: the very same `Failure` value, so the status code (401) and
/// the rendered body cannot tell the two apart.
pub proof fn lemma_missing_object_indistinguishable(
    base: ObjectStoreConfig,
    coords: DownloadCoordinates,
    cfg: ObjectStoreConfig,
)
    ensures
        step_spec(base, Stage::AwaitingProbe(coords, cfg), Event::Probe(ProbeEvent::Missing))
            == step_spec(
            base,
            Stage::AwaitingResolution,
            Event::Resolution(ResolveEvent::NoMatch),
        ),
        response_status_spec(
            step_spec(base, Stage::AwaitingProbe(coords, cfg), Event::Probe(ProbeEvent::Missing)),
        ) == Some(401u16),
{
}

/// The access-log write is asked for only once a URL has been signed: the
/// machine enters the log stage only from the signature stage, on a signed
/// outcome. A failure before the signature leaves no access-log side effect.
pub proof fn lemma_log_only_after_signature(base: ObjectStoreConfig, stage: Stage, event: Event)
    ensures
        step_spec(base, stage, event) is AwaitingLog ==> (stage is AwaitingLog || (stage
            is AwaitingSignature && event matches Event::Signature(SignEvent::Signed(_)))),
{
}

/// The redirect is issued only once the access-log record is written: the
/// machine reaches the redirect only from the log stage, on a recorded
/// outcome — the "log, then redirect" ordering.
pub proof fn lemma_redirect_only_after_log(base: ObjectStoreConfig, stage: Stage, event: Event)
    ensures
        step_spec(base, stage, event) is Redirected ==> (stage is Redirected || (stage
            is AwaitingLog && event matches Event::LogWrite(LogEvent::Recorded))),
{
}

/// The happy path of one request: the four outcomes that each succeed, the
/// last carrying the signed request.
pub open spec fn successful_run(coords: DownloadCoordinates, req: PresignedRequest) -> Seq<Event> {
    seq![
        Event::Resolution(ResolveEvent::Found(coords)),
        Event::Probe(ProbeEvent::Exists),
        Event::Signature(SignEvent::Signed(req)),
        Event::LogWrite(LogEvent::Recorded),
    ]
}

/// A run of four successful outcomes redirects to exactly the URL that was
/// signed, with a temporary-redirect status, having probed with exactly the
/// configuration derived from the base and these coordinates.
pub proof fn lemma_successful_run(
    base: ObjectStoreConfig,
    coords: DownloadCoordinates,
    req: PresignedRequest,
)
    ensures
        run_spec(base, Stage::AwaitingResolution, successful_run(coords, req)) == Stage::Redirected(
            req,
        ),
        response_status_spec(
            run_spec(base, Stage::AwaitingResolution, successful_run(coords, req)),
        ) == Some(307u16),
{
    let events = successful_run(coords, req);
    let rest1 = events.drop_first();
    let rest2 = rest1.drop_first();
    let rest3 = rest2.drop_first();
    let rest4 = rest3.drop_first();
    assert(rest1 =~= seq![
        Event::Probe(ProbeEvent::Exists),
        Event::Signature(SignEvent::Signed(req)),
        Event::LogWrite(LogEvent::Recorded),
    ]);
    assert(rest2 =~= seq![
        Event::Signature(SignEvent::Signed(req)),
        Event::LogWrite(LogEvent::Recorded),
    ]);
    assert(rest3 =~= seq![Event::LogWrite(LogEvent::Recorded)]);
    assert(rest4 =~= Seq::<Event>::empty());
    let s1 = step_spec(base, Stage::AwaitingResolution, events[0]);
    assert(s1 == Stage::AwaitingProbe(coords, derived_config_spec(base, coords)));
    let s2 = step_spec(base, s1, rest1[0]);
    let s3 = step_spec(base, s2, rest2[0]);
    let s4 = step_spec(base, s3, rest3[0]);
    assert(s4 == Stage::Redirected(req));
    assert(run_spec(base, Stage::AwaitingResolution, events) == run_spec(base, s1, rest1));
    assert(run_spec(base, s1, rest1) == run_spec(base, s2, rest2));
    assert(run_spec(base, s2, rest2) == run_spec(base, s3, rest3));
    assert(run_spec(base, s3, rest3) == run_spec(base, s4, rest4));
    assert(run_spec(base, s4, rest4) == s4);
}

/// Repeating a request with the same secret is independent: each repetition
/// is signed afresh, so the two runs may carry different signed URLs, yet
/// both redirect the same way — same status, each to its own URL.
pub proof fn lemma_repeated_request_independent(
    base: ObjectStoreConfig,
    coords: DownloadCoordinates,
    first_req: PresignedRequest,
    second_req: PresignedRequest,
)
    ensures
        run_spec(base, Stage::AwaitingResolution, successful_run(coords, first_req))
            == Stage::Redirected(first_req),
        run_spec(base, Stage::AwaitingResolution, successful_run(coords, second_req))
            == Stage::Redirected(second_req),
        response_status_spec(
            run_spec(base, Stage::AwaitingResolution, successful_run(coords, first_req)),
        ) == response_status_spec(
            run_spec(base, Stage::AwaitingResolution, successful_run(coords, second_req)),
        ),
{
    lemma_successful_run(base, coords, first_req);
    lemma_successful_run(base, coords, second_req);
}

} // verus!
