//! The transfer session manager: the retire-then-register protocol that
//! replaces one transfer with another.
//!
//! The transfer engine itself is an external collaborator that is reached
//! asynchronously, so the protocol is split at its two remote calls.  The
//! manager is a step machine: [`start_task`] plans the first move of a
//! replace cycle, and [`resume_task`] reacts to each engine reply.  Every
//! step returns the notifications to send outward, in order, and either the
//! next engine request or the finished outcome.  The caller (the owner of the
//! scheduling loop) performs the requests, feeds the replies back, and
//! forwards the emissions to the observers' channel; every decision in
//! between is made and verified here.

use vstd::prelude::*;

use crate::config::{ConfigModel, SyncConfig};
use crate::limits::{rate_limit_bps, spec_rate_limit_bps, RateLimits};
use crate::messages::{
    error_event_count, is_error_event, last_status, Emission, EmissionModel, EventModel,
    StatusModel, SyncEvent, SyncStatus,
};

verus! {

use vstd::string::StringExecFns;

/// Registration options handed to the engine together with the content
/// descriptor.  Transfers of this component are always authoritative
/// re-downloads, so `overwrite` is always set; a transfer starts paused
/// exactly when the user does not want to seed.
pub struct AddOptions {
    pub output_folder: String,
    pub overwrite: bool,
    pub paused: bool,
    pub ratelimits: RateLimits,
}

/// Mathematical model of registration options.
pub struct OptionsModel {
    pub output_folder: Seq<char>,
    pub overwrite: bool,
    pub paused: bool,
    pub ratelimits: RateLimits,
}

impl View for AddOptions {
    type V = OptionsModel;

    open spec fn view(&self) -> OptionsModel {
        OptionsModel {
            output_folder: self.output_folder@,
            overwrite: self.overwrite,
            paused: self.paused,
            ratelimits: self.ratelimits,
        }
    }
}

/// The options a given configuration translates to: destination path as the
/// output folder, overwrite on, paused unless seeding, and each bandwidth cap
/// translated independently.
pub open spec fn spec_add_options(c: ConfigModel) -> OptionsModel {
    OptionsModel {
        output_folder: c.download_path,
        overwrite: true,
        paused: !c.should_seed,
        ratelimits: RateLimits {
            upload_bps: spec_rate_limit_bps(c.max_upload_speed),
            download_bps: spec_rate_limit_bps(c.max_download_speed),
        },
    }
}

/// Build the registration options for a configuration.
pub fn build_add_options(config: &SyncConfig) -> (opts: AddOptions)
    ensures
        opts@ == spec_add_options(config@),
        opts.ratelimits.wf(),
{
    AddOptions {
        output_folder: config.download_path.clone(),
        overwrite: true,
        paused: !config.should_seed,
        ratelimits: RateLimits {
            upload_bps: rate_limit_bps(config.max_upload_speed),
            download_bps: rate_limit_bps(config.max_download_speed),
        },
    }
}

/// A request the manager asks the caller to perform against the engine.
pub enum EngineRequest {
    /// Stop tracking the transfer with this identifier.
    Forget(usize),
    /// Register a new transfer with these options (the caller supplies the
    /// content descriptor it already holds).
    Register(AddOptions),
}

/// What the caller reports back after performing a request.  Failure details
/// arrive as already-rendered messages, since only the caller sees the
/// engine's error values.
pub enum EngineReply {
    /// The forget call succeeded.
    ForgetOk,
    /// The forget call failed with this detail.
    ForgetFailed(String),
    /// The add call succeeded; the engine may or may not have returned an
    /// identifier.
    AddOk(Option<usize>),
    /// The add call itself failed with this detail.
    AddFailed(String),
}

/// Mathematical model of an engine request.
pub enum RequestModel {
    Forget(usize),
    Register(OptionsModel),
}

/// Mathematical model of an engine reply.
pub enum ReplyModel {
    ForgetOk,
    ForgetFailed(Seq<char>),
    AddOk(Option<usize>),
    AddFailed(Seq<char>),
}

impl View for EngineRequest {
    type V = RequestModel;

    open spec fn view(&self) -> RequestModel {
        match self {
            EngineRequest::Forget(id) => RequestModel::Forget(*id),
            EngineRequest::Register(opts) => RequestModel::Register(opts@),
        }
    }
}

impl View for EngineReply {
    type V = ReplyModel;

    open spec fn view(&self) -> ReplyModel {
        match self {
            EngineReply::ForgetOk => ReplyModel::ForgetOk,
            EngineReply::ForgetFailed(m) => ReplyModel::ForgetFailed(m@),
            EngineReply::AddOk(id) => ReplyModel::AddOk(*id),
            EngineReply::AddFailed(m) => ReplyModel::AddFailed(m@),
        }
    }
}

/// The one failure a replace cycle does not absorb: the registration call
/// itself erred.  `context` says which operation failed, `detail` carries the
/// engine's own message.
pub struct SyncError {
    pub context: String,
    pub detail: String,
}

/// Mathematical model of the fatal error.
pub struct ErrorModel {
    pub context: Seq<char>,
    pub detail: Seq<char>,
}

impl View for SyncError {
    type V = ErrorModel;

    open spec fn view(&self) -> ErrorModel {
        ErrorModel { context: self.context@, detail: self.detail@ }
    }
}

/// How a replace cycle ended.  `Completed(None)` is a valid non-error
/// outcome: either the destination was unconfigured, or the engine accepted
/// the registration without returning an identifier.
pub enum TaskOutcome {
    Completed(Option<usize>),
    Failed(SyncError),
}

/// Mathematical model of an outcome.
pub enum OutcomeModel {
    Completed(Option<usize>),
    Failed(ErrorModel),
}

impl View for TaskOutcome {
    type V = OutcomeModel;

    open spec fn view(&self) -> OutcomeModel {
        match self {
            TaskOutcome::Completed(id) => OutcomeModel::Completed(*id),
            TaskOutcome::Failed(e) => OutcomeModel::Failed(e@),
        }
    }
}

/// What to do after a step: either perform a request and come back with the
/// reply, or the cycle is over.
pub enum TaskNext {
    Request(EngineRequest),
    Done(TaskOutcome),
}

/// Mathematical model of a step's continuation.
pub enum NextModel {
    Request(RequestModel),
    Done(OutcomeModel),
}

impl View for TaskNext {
    type V = NextModel;

    open spec fn view(&self) -> NextModel {
        match self {
            TaskNext::Request(r) => NextModel::Request(r@),
            TaskNext::Done(o) => NextModel::Done(o@),
        }
    }
}

/// One step's output: the notifications to send outward, in order, and the
/// continuation.
pub struct StepOutput {
    pub emissions: Vec<Emission>,
    pub next: TaskNext,
}

/// The message reported when the destination path is unconfigured.
pub open spec fn dest_unconfigured_message() -> Seq<char> {
    "destination not configured"@
}

/// The message reported when the engine accepted a registration but returned
/// no identifier.
pub open spec fn no_identifier_message() -> Seq<char> {
    "registered but no identifier returned"@
}

/// The context attached to a fatal registration failure.
pub open spec fn register_context_message() -> Seq<char> {
    "failed to register new transfer with the engine"@
}

/// Notifications of the guard-and-register phase: with an unconfigured
/// destination, one error event and one error status; otherwise the
/// transitional status announcing that the engine is about to be asked.
pub open spec fn guard_emissions(c: ConfigModel) -> Seq<EmissionModel> {
    if c.download_path.len() == 0 {
        seq![
            EmissionModel::Event(EventModel::Error(dest_unconfigured_message())),
            EmissionModel::Status(StatusModel::Error(dest_unconfigured_message())),
        ]
    } else {
        seq![EmissionModel::Status(StatusModel::Updating)]
    }
}

/// Continuation of the guard-and-register phase: with an unconfigured
/// destination the cycle completes without an identifier; otherwise the
/// registration request is issued.
pub open spec fn guard_next(c: ConfigModel) -> NextModel {
    if c.download_path.len() == 0 {
        NextModel::Done(OutcomeModel::Completed(None))
    } else {
        NextModel::Request(RequestModel::Register(spec_add_options(c)))
    }
}

/// Notifications of the first step of a cycle.
pub open spec fn start_emissions(c: ConfigModel, previous: Option<usize>) -> Seq<EmissionModel> {
    match previous {
        Some(_) => seq![EmissionModel::Status(StatusModel::Updating)],
        None => guard_emissions(c),
    }
}

/// Continuation of the first step: with a previous identifier the retire
/// request comes first; otherwise the cycle goes straight to the guard.
pub open spec fn start_next(c: ConfigModel, previous: Option<usize>) -> NextModel {
    match previous {
        Some(id) => NextModel::Request(RequestModel::Forget(id)),
        None => guard_next(c),
    }
}

/// Notifications of a step that reacts to an engine reply.  A retire failure
/// adds one error event and nothing else: the cycle continues exactly as
/// after a successful retire.
pub open spec fn resume_emissions(c: ConfigModel, reply: ReplyModel) -> Seq<EmissionModel> {
    match reply {
        ReplyModel::ForgetOk => guard_emissions(c),
        ReplyModel::ForgetFailed(detail) => seq![
            EmissionModel::Event(EventModel::Error(detail)),
        ] + guard_emissions(c),
        ReplyModel::AddOk(Some(id)) => seq![
            EmissionModel::Event(EventModel::Added(id)),
            EmissionModel::Status(StatusModel::Idle),
        ],
        ReplyModel::AddOk(None) => seq![
            EmissionModel::Event(EventModel::Error(no_identifier_message())),
            EmissionModel::Status(StatusModel::Error(no_identifier_message())),
        ],
        ReplyModel::AddFailed(_) => Seq::empty(),
    }
}

/// Continuation after an engine reply: retire replies lead to the guard,
/// add replies end the cycle.
pub open spec fn resume_next(c: ConfigModel, reply: ReplyModel) -> NextModel {
    match reply {
        ReplyModel::ForgetOk => guard_next(c),
        ReplyModel::ForgetFailed(_) => guard_next(c),
        ReplyModel::AddOk(Some(id)) => NextModel::Done(OutcomeModel::Completed(Some(id))),
        ReplyModel::AddOk(None) => NextModel::Done(OutcomeModel::Completed(None)),
        ReplyModel::AddFailed(detail) => NextModel::Done(OutcomeModel::Failed(
            ErrorModel { context: register_context_message(), detail },
        )),
    }
}

/// The guard-and-register phase, shared by every path into the second half
/// of a cycle: report an unconfigured destination and stop, or announce the
/// transitional status and request registration.
fn guard_and_register(config: &SyncConfig, emissions: &mut Vec<Emission>) -> (next: TaskNext)
    ensures
        final(emissions).deep_view() == old(emissions).deep_view() + guard_emissions(config@),
        next@ == guard_next(config@),
{
    let ghost prefix = emissions.deep_view();
    if config.download_path.as_str().is_empty() {
        let message = String::from_str("destination not configured");
        emissions.push(Emission::Event(SyncEvent::Error(message.clone())));
        emissions.push(Emission::Status(SyncStatus::Error(message)));
        assert(emissions.deep_view() =~= prefix + guard_emissions(config@));
        TaskNext::Done(TaskOutcome::Completed(None))
    } else {
        emissions.push(Emission::Status(SyncStatus::UpdatingTorrent));
        assert(emissions.deep_view() =~= prefix + guard_emissions(config@));
        TaskNext::Request(EngineRequest::Register(build_add_options(config)))
    }
}

/// Begin a replace cycle: with a previous identifier, announce the
/// transitional status and ask the caller to retire it first; otherwise go
/// straight to the guard-and-register phase.
pub fn start_task(config: &SyncConfig, previous: Option<usize>) -> (out: StepOutput)
    ensures
        out.emissions.deep_view() == start_emissions(config@, previous),
        out.next@ == start_next(config@, previous),
{
    let mut emissions: Vec<Emission> = Vec::new();
    match previous {
        Some(id) => {
            emissions.push(Emission::Status(SyncStatus::UpdatingTorrent));
            assert(emissions.deep_view() =~= start_emissions(config@, previous));
            StepOutput { emissions, next: TaskNext::Request(EngineRequest::Forget(id)) }
        },
        None => {
            assert(emissions.deep_view() =~= Seq::<EmissionModel>::empty());
            let next = guard_and_register(config, &mut emissions);
            assert(emissions.deep_view() =~= guard_emissions(config@));
            StepOutput { emissions, next }
        },
    }
}

/// Continue a replace cycle with the reply to the last request.  A failed
/// retire is reported as an error event but never aborts the cycle; a failed
/// registration is the one fatal outcome; a successful registration ends the
/// cycle in `Idle` with the new identifier, or in an `Error` status when the
/// engine returned none.
pub fn resume_task(config: &SyncConfig, reply: EngineReply) -> (out: StepOutput)
    ensures
        out.emissions.deep_view() == resume_emissions(config@, reply@),
        out.next@ == resume_next(config@, reply@),
{
    let mut emissions: Vec<Emission> = Vec::new();
    match reply {
        EngineReply::ForgetOk => {
            let next = guard_and_register(config, &mut emissions);
            assert(emissions.deep_view() =~= resume_emissions(config@, ReplyModel::ForgetOk));
            StepOutput { emissions, next }
        },
        EngineReply::ForgetFailed(detail) => {
            let ghost detail_model = detail@;
            emissions.push(Emission::Event(SyncEvent::Error(detail)));
            let next = guard_and_register(config, &mut emissions);
            assert(emissions.deep_view() =~= resume_emissions(
                config@,
                ReplyModel::ForgetFailed(detail_model),
            ));
            StepOutput { emissions, next }
        },
        EngineReply::AddOk(Some(id)) => {
            emissions.push(Emission::Event(SyncEvent::TorrentAdded(id)));
            emissions.push(Emission::Status(SyncStatus::Idle));
            assert(emissions.deep_view() =~= resume_emissions(
                config@,
                ReplyModel::AddOk(Some(id)),
            ));
            StepOutput {
                emissions,
                next: TaskNext::Done(TaskOutcome::Completed(Some(id))),
            }
        },
        EngineReply::AddOk(None) => {
            let message = String::from_str("registered but no identifier returned");
            emissions.push(Emission::Event(SyncEvent::Error(message.clone())));
            emissions.push(Emission::Status(SyncStatus::Error(message.clone())));
            assert(emissions.deep_view() =~= resume_emissions(
                config@,
                ReplyModel::AddOk(None),
            ));
            StepOutput { emissions, next: TaskNext::Done(TaskOutcome::Completed(None)) }
        },
        EngineReply::AddFailed(detail) => {
            assert(emissions.deep_view() =~= Seq::<EmissionModel>::empty());
            let error = SyncError {
                context: String::from_str("failed to register new transfer with the engine"),
                detail,
            };
            StepOutput { emissions, next: TaskNext::Done(TaskOutcome::Failed(error)) }
        },
    }
}

/// Whether a reply is one the retire request can produce.
pub open spec fn is_forget_reply(r: ReplyModel) -> bool {
    r matches ReplyModel::ForgetOk || r matches ReplyModel::ForgetFailed(_)
}

/// The outcome a finished continuation carries.
pub open spec fn outcome_of(n: NextModel) -> OutcomeModel
    recommends
        n matches NextModel::Done(_),
{
    match n {
        NextModel::Done(o) => o,
        NextModel::Request(_) => arbitrary(),
    }
}

/// All notifications of one replace cycle, as driven by a caller that
/// performs each requested engine call and feeds its reply back:
/// `forget_reply` is consumed only if a retire was requested, `add_reply`
/// only if a registration was requested.
pub open spec fn run_emissions(
    c: ConfigModel,
    previous: Option<usize>,
    forget_reply: ReplyModel,
    add_reply: ReplyModel,
) -> Seq<EmissionModel> {
    match start_next(c, previous) {
        NextModel::Done(_) => start_emissions(c, previous),
        NextModel::Request(RequestModel::Forget(_)) => {
            let head = start_emissions(c, previous) + resume_emissions(c, forget_reply);
            match resume_next(c, forget_reply) {
                NextModel::Done(_) => head,
                NextModel::Request(_) => head + resume_emissions(c, add_reply),
            }
        },
        NextModel::Request(RequestModel::Register(_)) => start_emissions(c, previous)
            + resume_emissions(c, add_reply),
    }
}

/// The outcome of one replace cycle, driven the same way.
pub open spec fn run_outcome(
    c: ConfigModel,
    previous: Option<usize>,
    forget_reply: ReplyModel,
    add_reply: ReplyModel,
) -> OutcomeModel {
    match start_next(c, previous) {
        NextModel::Done(o) => o,
        NextModel::Request(RequestModel::Forget(_)) => match resume_next(c, forget_reply) {
            NextModel::Done(o) => o,
            NextModel::Request(_) => outcome_of(resume_next(c, add_reply)),
        },
        NextModel::Request(RequestModel::Register(_)) => outcome_of(resume_next(c, add_reply)),
    }
}

/// The error-event count of a two-notification sequence.
proof fn lemma_error_event_count2(e0: EmissionModel, e1: EmissionModel)
    ensures
        error_event_count(seq![e0, e1]) == (if is_error_event(e0) {
            1nat
        } else {
            0nat
        }) + (if is_error_event(e1) {
            1nat
        } else {
            0nat
        }),
{
    assert(seq![e0, e1] =~= Seq::empty().push(e0).push(e1));
    crate::messages::lemma_error_event_count_push(Seq::empty().push(e0), e1);
    crate::messages::lemma_error_event_count_push(Seq::empty(), e0);
}

/// A sequence that ends in a status leaves an observer showing it.
proof fn lemma_last_status_end(s: Seq<EmissionModel>, st: StatusModel)
    requires
        s.len() > 0,
        s.last() == EmissionModel::Status(st),
    ensures
        last_status(s) == Some(st),
{
}

/// Law: with an unconfigured destination path, a replace cycle completes
/// without an identifier, sends exactly one error event, and leaves the
/// observers showing an `Error` status, whether or not a previous identifier
/// was supplied.  A failed retire would add a second error event of its own,
/// so the cycle is taken here with the retire succeeding.
pub proof fn lemma_unconfigured_destination(
    c: ConfigModel,
    previous: Option<usize>,
    forget_reply: ReplyModel,
    add_reply: ReplyModel,
)
    requires
        c.download_path.len() == 0,
        previous matches Some(_) ==> forget_reply == ReplyModel::ForgetOk,
    ensures
        run_outcome(c, previous, forget_reply, add_reply) == OutcomeModel::Completed(
            None::<usize>,
        ),
        error_event_count(run_emissions(c, previous, forget_reply, add_reply)) == 1,
        last_status(run_emissions(c, previous, forget_reply, add_reply)) == Some(
            StatusModel::Error(dest_unconfigured_message()),
        ),
{
    let run = run_emissions(c, previous, forget_reply, add_reply);
    let err_event = EmissionModel::Event(EventModel::Error(dest_unconfigured_message()));
    let err_status = EmissionModel::Status(StatusModel::Error(dest_unconfigured_message()));
    let updating = EmissionModel::Status(StatusModel::Updating);
    match previous {
        None => {
            assert(run =~= seq![err_event, err_status]);
            lemma_error_event_count2(err_event, err_status);
        },
        Some(_) => {
            assert(run =~= seq![updating] + seq![err_event, err_status]);
            assert(run =~= seq![updating, err_event, err_status]);
            assert(run =~= Seq::empty().push(updating) + seq![err_event, err_status]);
            crate::messages::lemma_error_event_count_add(
                Seq::empty().push(updating),
                seq![err_event, err_status],
            );
            crate::messages::lemma_error_event_count_push(Seq::empty(), updating);
            lemma_error_event_count2(err_event, err_status);
        },
    }
    lemma_last_status_end(run, StatusModel::Error(dest_unconfigured_message()));
}

/// Law: a failed retire never short-circuits the cycle.  The continuation is
/// the same as after a successful retire — in particular, registration is
/// still requested whenever the destination is configured — and the only
/// difference in the notifications is one leading error event carrying the
/// retire failure.
pub proof fn lemma_retire_failure_never_short_circuits(c: ConfigModel, detail: Seq<char>)
    ensures
        resume_next(c, ReplyModel::ForgetFailed(detail)) == resume_next(c, ReplyModel::ForgetOk),
        c.download_path.len() > 0 ==> resume_next(c, ReplyModel::ForgetFailed(detail))
            == NextModel::Request(RequestModel::Register(spec_add_options(c))),
        resume_emissions(c, ReplyModel::ForgetFailed(detail)) == seq![
            EmissionModel::Event(EventModel::Error(detail)),
        ] + resume_emissions(c, ReplyModel::ForgetOk),
{
}

/// Law: when registration succeeds with an identifier, the cycle returns
/// that identifier, the notifications open with the transitional status, and
/// they close with the `TorrentAdded` event followed directly by the final
/// `Idle` status — the only `Idle` of the whole cycle, so the added event
/// always precedes it.
pub proof fn lemma_registration_success(
    c: ConfigModel,
    previous: Option<usize>,
    forget_reply: ReplyModel,
    id: usize,
)
    requires
        c.download_path.len() > 0,
        previous matches Some(_) ==> is_forget_reply(forget_reply),
    ensures
        run_outcome(c, previous, forget_reply, ReplyModel::AddOk(Some(id)))
            == OutcomeModel::Completed(Some(id)),
        ({
            let run = run_emissions(c, previous, forget_reply, ReplyModel::AddOk(Some(id)));
            &&& run.len() >= 3
            &&& run[0] == EmissionModel::Status(StatusModel::Updating)
            &&& run[run.len() - 2] == EmissionModel::Event(EventModel::Added(id))
            &&& run.last() == EmissionModel::Status(StatusModel::Idle)
            &&& forall|i: int|
                0 <= i < run.len() - 1 ==> run[i] != EmissionModel::Status(StatusModel::Idle)
        }),
{
    let run = run_emissions(c, previous, forget_reply, ReplyModel::AddOk(Some(id)));
    let updating = EmissionModel::Status(StatusModel::Updating);
    let added = EmissionModel::Event(EventModel::Added(id));
    let idle = EmissionModel::Status(StatusModel::Idle);
    match previous {
        None => {
            assert(run =~= seq![updating, added, idle]);
        },
        Some(_) => match forget_reply {
            ReplyModel::ForgetOk => {
                assert(run =~= seq![updating, updating, added, idle]);
            },
            ReplyModel::ForgetFailed(detail) => {
                assert(run =~= seq![
                    updating,
                    EmissionModel::Event(EventModel::Error(detail)),
                    updating,
                    added,
                    idle,
                ]);
            },
            _ => {
                assert(false);
            },
        },
    }
}

/// Law: when the engine accepts the registration but returns no identifier,
/// the cycle still completes — with no identifier — and observers are left
/// showing an `Error` status naming the anomaly.
pub proof fn lemma_registration_without_identifier(
    c: ConfigModel,
    previous: Option<usize>,
    forget_reply: ReplyModel,
)
    requires
        c.download_path.len() > 0,
        previous matches Some(_) ==> is_forget_reply(forget_reply),
    ensures
        run_outcome(c, previous, forget_reply, ReplyModel::AddOk(None)) == OutcomeModel::Completed(
            None::<usize>,
        ),
        last_status(run_emissions(c, previous, forget_reply, ReplyModel::AddOk(None))) == Some(
            StatusModel::Error(no_identifier_message()),
        ),
{
    let run = run_emissions(c, previous, forget_reply, ReplyModel::AddOk(None));
    assert(run.last() == EmissionModel::Status(StatusModel::Error(no_identifier_message())));
    lemma_last_status_end(run, StatusModel::Error(no_identifier_message()));
}

/// Law: when the registration call itself errs, the cycle fails with a
/// context naming the registration, and no `Idle` status is sent at any
/// point — observers are never told the cycle settled.
pub proof fn lemma_registration_failure(
    c: ConfigModel,
    previous: Option<usize>,
    forget_reply: ReplyModel,
    detail: Seq<char>,
)
    requires
        c.download_path.len() > 0,
        previous matches Some(_) ==> is_forget_reply(forget_reply),
    ensures
        run_outcome(c, previous, forget_reply, ReplyModel::AddFailed(detail))
            == OutcomeModel::Failed(ErrorModel { context: register_context_message(), detail }),
        ({
            let run = run_emissions(c, previous, forget_reply, ReplyModel::AddFailed(detail));
            forall|i: int|
                0 <= i < run.len() ==> run[i] != EmissionModel::Status(StatusModel::Idle)
        }),
{
    let run = run_emissions(c, previous, forget_reply, ReplyModel::AddFailed(detail));
    let updating = EmissionModel::Status(StatusModel::Updating);
    match previous {
        None => {
            assert(run =~= seq![updating]);
        },
        Some(_) => match forget_reply {
            ReplyModel::ForgetOk => {
                assert(run =~= seq![updating, updating]);
            },
            ReplyModel::ForgetFailed(d) => {
                assert(run =~= seq![
                    updating,
                    EmissionModel::Event(EventModel::Error(d)),
                    updating,
                ]);
            },
            _ => {
                assert(false);
            },
        },
    }
}

} // verus!
