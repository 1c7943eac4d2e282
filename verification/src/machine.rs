//! The archiving pipeline as an explicit state machine.
//!
//! One call walks four stages: validate the raw URL, resolve it to
//! its post-redirect location, ask the index for a recent snapshot,
//! and submit — with a single compensating existence check if
//! submission reports failure. Every stage's request is retried on
//! transient outcomes up to the configured ceiling.
//!
//! The machine itself performs no I/O: it hands out the next request
//! to perform ([`ArchiveMachine::next_request`]) and consumes what
//! came back ([`ArchiveMachine::step`]). The driving process owns the
//! HTTP client, the waits, and nothing else.

use vstd::prelude::*;

use crate::archivableurl::{
    excluded_domains_spec, validation_verdict, ArchivableUrl, Verdict,
};
use crate::checkresponse::{body_indicates_fresh, body_is_fresh};
use crate::config::{ClientConfig, ConfigModel};
use crate::errors::{Error, ErrorModel};
use crate::retry::{
    backoff_delay_ms, backoff_delay_spec, is_success_status, is_transient_status, success_status,
    transient_status,
};
use crate::strutil::{decimal_of, u16_to_decimal};
use crate::urlparse::{url_model_of, UrlModel};

verus! {

/// The two ways a call can succeed: a fresh submission, with the
/// archived location reported by the service, or the discovery that a
/// recent snapshot already exists.
pub enum ArchiveResult {
    Archived(String),
    RecentArchiveExists,
}

/// An archiving outcome at the specification level.
pub enum ArchiveResultModel {
    Archived(Seq<char>),
    RecentArchiveExists,
}

impl View for ArchiveResult {
    type V = ArchiveResultModel;

    open spec fn view(&self) -> ArchiveResultModel {
        match self {
            ArchiveResult::Archived(s) => ArchiveResultModel::Archived(s@),
            ArchiveResult::RecentArchiveExists => ArchiveResultModel::RecentArchiveExists,
        }
    }
}

/// What the driving process hands back for one performed request:
/// either the connection failed outright, or a response arrived, with
/// its status, its final post-redirect URL, and its body.
pub enum Event {
    Failed(String),
    Response { status: u16, final_url: String, body: Vec<u8> },
}

/// An event at the specification level.
pub enum EventModel {
    Failed(Seq<char>),
    Response { status: u16, final_url: Seq<char>, body: Seq<u8> },
}

impl View for Event {
    type V = EventModel;

    open spec fn view(&self) -> EventModel {
        match self {
            Event::Failed(s) => EventModel::Failed(s@),
            Event::Response { status, final_url, body } => EventModel::Response {
                status: *status,
                final_url: final_url@,
                body: body@,
            },
        }
    }
}

/// Where one archiving call stands.
pub enum MachineState {
    /// Waiting for the plain GET that observes the final location.
    Resolving { raw: String, to_archive: ArchivableUrl, attempts: u32 },
    /// Waiting for the existence query about the resolved URL.
    Checking { raw: String, to_archive: ArchivableUrl, to_check: ArchivableUrl, attempts: u32 },
    /// Waiting for the submission request, which targets the
    /// resolved (post-redirect) location.
    Submitting { raw: String, to_archive: ArchivableUrl, resolved: ArchivableUrl, attempts: u32 },
    /// Submission reported failure; waiting for the compensating
    /// existence query before declaring the call failed.
    Guarding {
        raw: String,
        to_archive: ArchivableUrl,
        status: u16,
        location: String,
        attempts: u32,
    },
    /// The call is decided.
    Finished { outcome: Result<ArchiveResult, Error> },
}

/// A pipeline state at the specification level.
pub enum StateModel {
    Resolving { raw: Seq<char>, to_archive: UrlModel, attempts: u32 },
    Checking { raw: Seq<char>, to_archive: UrlModel, to_check: UrlModel, attempts: u32 },
    Submitting { raw: Seq<char>, to_archive: UrlModel, resolved: UrlModel, attempts: u32 },
    Guarding {
        raw: Seq<char>,
        to_archive: UrlModel,
        status: u16,
        location: Seq<char>,
        attempts: u32,
    },
    Finished { outcome: Result<ArchiveResultModel, ErrorModel> },
}

/// A decided outcome at the specification level.
pub open spec fn outcome_model(r: Result<ArchiveResult, Error>) -> Result<
    ArchiveResultModel,
    ErrorModel,
> {
    match r {
        Ok(a) => Ok(a@),
        Err(e) => Err(e@),
    }
}

impl View for MachineState {
    type V = StateModel;

    open spec fn view(&self) -> StateModel {
        match self {
            MachineState::Resolving { raw, to_archive, attempts } => StateModel::Resolving {
                raw: raw@,
                to_archive: to_archive@,
                attempts: *attempts,
            },
            MachineState::Checking { raw, to_archive, to_check, attempts } => StateModel::Checking {
                raw: raw@,
                to_archive: to_archive@,
                to_check: to_check@,
                attempts: *attempts,
            },
            MachineState::Submitting { raw, to_archive, resolved, attempts } => {
                StateModel::Submitting {
                    raw: raw@,
                    to_archive: to_archive@,
                    resolved: resolved@,
                    attempts: *attempts,
                }
            },
            MachineState::Guarding { raw, to_archive, status, location, attempts } => {
                StateModel::Guarding {
                    raw: raw@,
                    to_archive: to_archive@,
                    status: *status,
                    location: location@,
                    attempts: *attempts,
                }
            },
            MachineState::Finished { outcome } => StateModel::Finished {
                outcome: outcome_model(*outcome),
            },
        }
    }
}

/// One archiving call in flight: the configuration it runs under and
/// where it stands.
pub struct ArchiveMachine {
    pub config: ClientConfig,
    pub state: MachineState,
}

/// A machine at the specification level.
pub struct MachineModel {
    pub config: ConfigModel,
    pub state: StateModel,
}

impl View for ArchiveMachine {
    type V = MachineModel;

    open spec fn view(&self) -> MachineModel {
        MachineModel { config: self.config@, state: self.state@ }
    }
}

/// Where a call starts: an unparsable or rejected URL is decided
/// immediately — no request is ever issued for it — and a valid one
/// awaits resolution.
pub open spec fn start_model(raw: Seq<char>) -> StateModel {
    match url_model_of(raw) {
        None => StateModel::Finished { outcome: Err(ErrorModel::InvalidUrl(raw)) },
        Some(u) => match validation_verdict(u, excluded_domains_spec()) {
            Verdict::Valid => StateModel::Resolving { raw, to_archive: u, attempts: 0 },
            Verdict::Invalid => StateModel::Finished {
                outcome: Err(ErrorModel::InvalidUrl(u.serialization)),
            },
            Verdict::Excluded => StateModel::Finished {
                outcome: Err(ErrorModel::ExcludedUrl(u.serialization)),
            },
        },
    }
}

/// Where resolution lands: the observed final location must itself
/// parse and validate, else its error decides the call.
pub open spec fn resolved_model(
    raw: Seq<char>,
    to_archive: UrlModel,
    final_url: Seq<char>,
) -> StateModel {
    match url_model_of(final_url) {
        None => StateModel::Finished { outcome: Err(ErrorModel::InvalidUrl(final_url)) },
        Some(u) => match validation_verdict(u, excluded_domains_spec()) {
            Verdict::Valid => StateModel::Checking { raw, to_archive, to_check: u, attempts: 0 },
            Verdict::Invalid => StateModel::Finished {
                outcome: Err(ErrorModel::InvalidUrl(u.serialization)),
            },
            Verdict::Excluded => StateModel::Finished {
                outcome: Err(ErrorModel::ExcludedUrl(u.serialization)),
            },
        },
    }
}

/// The transition relation of the pipeline, one event at a time.
///
/// Each stage retries its request while the outcome is transient — a
/// connection failure or a server-side error status — and retries are
/// left. Past that: resolution falls back to the original URL on
/// connection failure and re-validates the final location otherwise;
/// a fresh existence answer ends the call with
/// [`ArchiveResultModel::RecentArchiveExists`] and anything else goes
/// on to submit the resolved location; a successful submission
/// status ends the call with the response's final location as the
/// archived URL, any other status asks the index once more about the
/// original input, and only if that compensating check finds nothing
/// fresh does the call fail with the submission status and the
/// original input. A decided call stays decided.
pub open spec fn step_model(cfg: ConfigModel, s: StateModel, e: EventModel) -> StateModel {
    match s {
        StateModel::Resolving { raw, to_archive, attempts } => match e {
            EventModel::Failed(_) => if attempts < cfg.max_request_retries {
                StateModel::Resolving { raw, to_archive, attempts: (attempts + 1) as u32 }
            } else {
                StateModel::Checking { raw, to_archive, to_check: to_archive, attempts: 0 }
            },
            EventModel::Response { status, final_url, .. } => if transient_status(status)
                && attempts < cfg.max_request_retries {
                StateModel::Resolving { raw, to_archive, attempts: (attempts + 1) as u32 }
            } else {
                resolved_model(raw, to_archive, final_url)
            },
        },
        StateModel::Checking { raw, to_archive, to_check, attempts } => match e {
            EventModel::Failed(_) => if attempts < cfg.max_request_retries {
                StateModel::Checking {
                    raw,
                    to_archive,
                    to_check,
                    attempts: (attempts + 1) as u32,
                }
            } else {
                StateModel::Submitting { raw, to_archive, resolved: to_check, attempts: 0 }
            },
            EventModel::Response { status, body, .. } => if transient_status(status) && attempts
                < cfg.max_request_retries {
                StateModel::Checking {
                    raw,
                    to_archive,
                    to_check,
                    attempts: (attempts + 1) as u32,
                }
            } else if body_is_fresh(body, cfg.archive_threshold_timestamp) {
                StateModel::Finished { outcome: Ok(ArchiveResultModel::RecentArchiveExists) }
            } else {
                StateModel::Submitting { raw, to_archive, resolved: to_check, attempts: 0 }
            },
        },
        StateModel::Submitting { raw, to_archive, resolved, attempts } => match e {
            EventModel::Failed(msg) => if attempts < cfg.max_request_retries {
                StateModel::Submitting {
                    raw,
                    to_archive,
                    resolved,
                    attempts: (attempts + 1) as u32,
                }
            } else {
                StateModel::Finished { outcome: Err(ErrorModel::RequestFailed(msg)) }
            },
            EventModel::Response { status, final_url, .. } => if transient_status(status)
                && attempts < cfg.max_request_retries {
                StateModel::Submitting {
                    raw,
                    to_archive,
                    resolved,
                    attempts: (attempts + 1) as u32,
                }
            } else if success_status(status) {
                StateModel::Finished { outcome: Ok(ArchiveResultModel::Archived(final_url)) }
            } else {
                StateModel::Guarding { raw, to_archive, status, location: final_url, attempts: 0 }
            },
        },
        StateModel::Guarding { raw, to_archive, status: submit_status, location, attempts } => match e {
            EventModel::Failed(_) => if attempts < cfg.max_request_retries {
                StateModel::Guarding {
                    raw,
                    to_archive,
                    status: submit_status,
                    location,
                    attempts: (attempts + 1) as u32,
                }
            } else {
                StateModel::Finished {
                    outcome: Err(
                        ErrorModel::CannotArchive(decimal_of(submit_status as int), raw),
                    ),
                }
            },
            EventModel::Response { status, body, .. } => if transient_status(status) && attempts
                < cfg.max_request_retries {
                StateModel::Guarding {
                    raw,
                    to_archive,
                    status: submit_status,
                    location,
                    attempts: (attempts + 1) as u32,
                }
            } else if body_is_fresh(body, cfg.archive_threshold_timestamp) {
                StateModel::Finished { outcome: Ok(ArchiveResultModel::Archived(location)) }
            } else {
                StateModel::Finished {
                    outcome: Err(
                        ErrorModel::CannotArchive(decimal_of(submit_status as int), raw),
                    ),
                }
            },
        },
        StateModel::Finished { outcome } => StateModel::Finished { outcome },
    }
}

/// The URL of the request a state is waiting on.
pub open spec fn request_url_model(cfg: ConfigModel, s: StateModel) -> Seq<char> {
    match s {
        StateModel::Resolving { to_archive, .. } => to_archive.serialization,
        StateModel::Checking { to_check, .. } => cfg.check_endpoint + to_check.serialization,
        StateModel::Submitting { resolved, .. } => cfg.archive_endpoint + resolved.serialization,
        StateModel::Guarding { to_archive, .. } => cfg.check_endpoint + to_archive.serialization,
        StateModel::Finished { .. } => Seq::empty(),
    }
}

/// How many failures the current stage has already seen.
pub open spec fn state_attempts(s: StateModel) -> u32 {
    match s {
        StateModel::Resolving { attempts, .. } => attempts,
        StateModel::Checking { attempts, .. } => attempts,
        StateModel::Submitting { attempts, .. } => attempts,
        StateModel::Guarding { attempts, .. } => attempts,
        StateModel::Finished { .. } => 0,
    }
}

/// The wait before the request a state is waiting on: none for a
/// first try, the backoff schedule after failures.
pub open spec fn request_delay_model(s: StateModel) -> int {
    if state_attempts(s) == 0 {
        0
    } else {
        backoff_delay_spec((state_attempts(s) - 1) as nat)
    }
}

impl ArchiveMachine {
    /// Begins one archiving call: validates the raw URL and either
    /// decides the call on the spot or awaits resolution.
    pub fn start(config: ClientConfig, url: &str) -> (m: ArchiveMachine)
        ensures
            m@.config == config@,
            m@.state == start_model(url@),
    {
        let state = match ArchivableUrl::parse(url) {
            Ok(a) => MachineState::Resolving {
                raw: String::from_str(url),
                to_archive: a,
                attempts: 0,
            },
            Err(e) => MachineState::Finished { outcome: Err(e) },
        };
        ArchiveMachine { config, state }
    }

    /// Whether the call is decided.
    pub fn finished(&self) -> (r: bool)
        ensures
            r == (self@.state is Finished),
    {
        match &self.state {
            MachineState::Finished { .. } => true,
            _ => false,
        }
    }

    /// The next request to perform: its URL and how many milliseconds
    /// to wait before sending it.
    pub fn next_request(&self) -> (r: (String, u64))
        requires
            !(self@.state is Finished),
        ensures
            r.0@ == request_url_model(self@.config, self@.state),
            r.1 == request_delay_model(self@.state),
    {
        let (url, attempts): (String, u32) = match &self.state {
            MachineState::Resolving { to_archive, attempts, .. } => (
                to_archive.url.serialization.clone(),
                *attempts,
            ),
            MachineState::Checking { to_check, attempts, .. } => (
                self.config.check_endpoint.clone().concat(to_check.url.serialization.as_str()),
                *attempts,
            ),
            MachineState::Submitting { resolved, attempts, .. } => (
                self.config.archive_endpoint.clone().concat(resolved.url.serialization.as_str()),
                *attempts,
            ),
            MachineState::Guarding { to_archive, attempts, .. } => (
                self.config.check_endpoint.clone().concat(to_archive.url.serialization.as_str()),
                *attempts,
            ),
            MachineState::Finished { .. } => unreached(),
        };
        let delay: u64 = if attempts == 0 {
            0
        } else {
            backoff_delay_ms(attempts - 1)
        };
        (url, delay)
    }

    /// Consumes what came back for the pending request and moves the
    /// pipeline along, exactly as [`step_model`] says.
    pub fn step(self, event: Event) -> (m: ArchiveMachine)
        ensures
            m@.config == self@.config,
            m@.state == step_model(self@.config, self@.state, event@),
    {
        let ArchiveMachine { config, state } = self;
        let max = config.max_request_retries;
        let cutoff = config.archive_threshold_timestamp;
        let state = match state {
            MachineState::Resolving { raw, to_archive, attempts } => match event {
                Event::Failed(_) => if attempts < max {
                    MachineState::Resolving { raw, to_archive, attempts: attempts + 1 }
                } else {
                    let to_check = to_archive.clone();
                    MachineState::Checking { raw, to_archive, to_check, attempts: 0 }
                },
                Event::Response { status, final_url, .. } => if is_transient_status(status)
                    && attempts < max {
                    MachineState::Resolving { raw, to_archive, attempts: attempts + 1 }
                } else {
                    match ArchivableUrl::parse(final_url.as_str()) {
                        Ok(resolved) => MachineState::Checking {
                            raw,
                            to_archive,
                            to_check: resolved,
                            attempts: 0,
                        },
                        Err(e) => MachineState::Finished { outcome: Err(e) },
                    }
                },
            },
            MachineState::Checking { raw, to_archive, to_check, attempts } => match event {
                Event::Failed(_) => if attempts < max {
                    MachineState::Checking { raw, to_archive, to_check, attempts: attempts + 1 }
                } else {
                    MachineState::Submitting { raw, to_archive, resolved: to_check, attempts: 0 }
                },
                Event::Response { status, body, .. } => if is_transient_status(status) && attempts
                    < max {
                    MachineState::Checking { raw, to_archive, to_check, attempts: attempts + 1 }
                } else if body_indicates_fresh(&body, &cutoff) {
                    MachineState::Finished { outcome: Ok(ArchiveResult::RecentArchiveExists) }
                } else {
                    MachineState::Submitting { raw, to_archive, resolved: to_check, attempts: 0 }
                },
            },
            MachineState::Submitting { raw, to_archive, resolved, attempts } => match event {
                Event::Failed(msg) => if attempts < max {
                    MachineState::Submitting {
                        raw,
                        to_archive,
                        resolved,
                        attempts: attempts + 1,
                    }
                } else {
                    MachineState::Finished { outcome: Err(Error::RequestFailed(msg)) }
                },
                Event::Response { status, final_url, .. } => if is_transient_status(status)
                    && attempts < max {
                    MachineState::Submitting {
                        raw,
                        to_archive,
                        resolved,
                        attempts: attempts + 1,
                    }
                } else if is_success_status(status) {
                    MachineState::Finished { outcome: Ok(ArchiveResult::Archived(final_url)) }
                } else {
                    MachineState::Guarding {
                        raw,
                        to_archive,
                        status,
                        location: final_url,
                        attempts: 0,
                    }
                },
            },
            MachineState::Guarding { raw, to_archive, status: submit_status, location, attempts } => {
                match event {
                    Event::Failed(_) => if attempts < max {
                        MachineState::Guarding {
                            raw,
                            to_archive,
                            status: submit_status,
                            location,
                            attempts: attempts + 1,
                        }
                    } else {
                        MachineState::Finished {
                            outcome: Err(
                                Error::CannotArchive(u16_to_decimal(submit_status), raw),
                            ),
                        }
                    },
                    Event::Response { status, body, .. } => if is_transient_status(status)
                        && attempts < max {
                        MachineState::Guarding {
                            raw,
                            to_archive,
                            status: submit_status,
                            location,
                            attempts: attempts + 1,
                        }
                    } else if body_indicates_fresh(&body, &cutoff) {
                        MachineState::Finished { outcome: Ok(ArchiveResult::Archived(location)) }
                    } else {
                        MachineState::Finished {
                            outcome: Err(
                                Error::CannotArchive(u16_to_decimal(submit_status), raw),
                            ),
                        }
                    },
                }
            },
            MachineState::Finished { outcome } => MachineState::Finished { outcome },
        };
        ArchiveMachine { config, state }
    }

    /// Hands out the decided outcome.
    pub fn into_result(self) -> (r: Result<ArchiveResult, Error>)
        requires
            self@.state is Finished,
        ensures
            self@.state matches StateModel::Finished { outcome } && outcome_model(r) == outcome,
    {
        match self.state {
            MachineState::Finished { outcome } => outcome,
            _ => unreached(),
        }
    }
}

/// The states one call passes through: where it starts, then one
/// more state after each consumed event.
pub open spec fn run_states(
    cfg: ConfigModel,
    s0: StateModel,
    events: Seq<EventModel>,
) -> Seq<StateModel>
    decreases events.len(),
{
    if events.len() == 0 {
        seq![s0]
    } else {
        seq![s0] + run_states(cfg, step_model(cfg, s0, events[0]), events.drop_first())
    }
}

/// A run has one more state than events consumed.
pub proof fn lemma_run_states_len(cfg: ConfigModel, s0: StateModel, events: Seq<EventModel>)
    ensures
        run_states(cfg, s0, events).len() == events.len() + 1,
    decreases events.len(),
{
    if events.len() > 0 {
        lemma_run_states_len(cfg, step_model(cfg, s0, events[0]), events.drop_first());
    }
}

/// The event answers an existence query with a snapshot newer than
/// the configured cutoff.
pub open spec fn fresh_answer(cfg: ConfigModel, e: EventModel) -> bool {
    e matches EventModel::Response { body, .. } && body_is_fresh(
        body,
        cfg.archive_threshold_timestamp,
    )
}

/// The event resolves a URL to a location that parses and validates.
pub open spec fn resolution_stays_valid(e: EventModel) -> bool {
    match e {
        EventModel::Failed(_) => true,
        EventModel::Response { final_url, .. } => url_model_of(final_url) matches Some(u)
            && validation_verdict(u, excluded_domains_spec()) is Valid,
    }
}

/// The states reachable while every existence answer is fresh: the
/// submission stages never appear, and the only decision is that a
/// recent archive exists.
pub open spec fn never_submits_state(s: StateModel) -> bool {
    ||| s is Resolving
    ||| s is Checking
    ||| s matches StateModel::Finished { outcome: Ok(ArchiveResultModel::RecentArchiveExists) }
}

/// One step preserves [`never_submits_state`], given a fresh answer
/// in the checking stage and a well-behaved resolution.
proof fn lemma_no_submit_step(cfg: ConfigModel, s: StateModel, e: EventModel)
    requires
        never_submits_state(s),
        s is Checking ==> fresh_answer(cfg, e),
        s is Resolving ==> resolution_stays_valid(e),
    ensures
        never_submits_state(step_model(cfg, s, e)),
{
}

/// Law (cost avoidance): as long as every existence query is
/// answered with a snapshot newer than the cutoff, and resolution
/// keeps the call on an archivable URL, a run that starts awaiting
/// resolution never enters a submission or guarding stage — the
/// submission endpoint receives no request — and if it reaches a
/// decision, that decision is that a recent archive exists. Since
/// the transition relation is a function, two successive calls under
/// the same answers both end that way: re-archiving is never
/// attempted for a freshly archived URL.
pub proof fn lemma_recent_snapshot_short_circuits(
    cfg: ConfigModel,
    s0: StateModel,
    events: Seq<EventModel>,
)
    requires
        never_submits_state(s0),
        forall|i: int|
            0 <= i < events.len() && run_states(cfg, s0, events)[i] is Checking ==> fresh_answer(
                cfg,
                events[i],
            ),
        forall|i: int|
            0 <= i < events.len() && run_states(cfg, s0, events)[i] is Resolving
                ==> resolution_stays_valid(events[i]),
    ensures
        forall|i: int|
            0 <= i < run_states(cfg, s0, events).len() ==> never_submits_state(
                #[trigger] run_states(cfg, s0, events)[i],
            ),
    decreases events.len(),
{
    let run = run_states(cfg, s0, events);
    if events.len() == 0 {
        assert(run =~= seq![s0]);
    } else {
        let e0 = events[0];
        let s1 = step_model(cfg, s0, e0);
        let rest = events.drop_first();
        let run1 = run_states(cfg, s1, rest);
        lemma_run_states_len(cfg, s1, rest);
        lemma_run_states_len(cfg, s0, events);
        assert(run == seq![s0] + run1);
        assert(run[0] == s0);
        lemma_no_submit_step(cfg, s0, e0);
        assert forall|i: int|
            0 <= i < rest.len() && run_states(cfg, s1, rest)[i] is Checking implies fresh_answer(
            cfg,
            rest[i],
        ) by {
            assert(run[i + 1] == run1[i]);
            assert(events[i + 1] == rest[i]);
        }
        assert forall|i: int|
            0 <= i < rest.len() && run_states(cfg, s1, rest)[i] is Resolving
            implies resolution_stays_valid(rest[i]) by {
            assert(run[i + 1] == run1[i]);
            assert(events[i + 1] == rest[i]);
        }
        lemma_recent_snapshot_short_circuits(cfg, s1, rest);
        assert forall|i: int| 0 <= i < run.len() implies never_submits_state(run[i]) by {
            if i > 0 {
                assert(run[i] == run1[i - 1]);
            }
        }
    }
}

/// Law (idempotence): start the pipeline on a URL that validates,
/// and let every existence query be answered with a snapshot newer
/// than the cutoff and every resolution stay on an archivable URL.
/// Then no state of the run is a submission or guarding stage, and
/// every decision the run reaches is that a recent archive exists.
/// This holds of each run separately, so two successive calls for a
/// freshly archived URL both return the recent archive and send the
/// submission endpoint nothing.
pub proof fn lemma_archive_call_idempotent(
    cfg: ConfigModel,
    raw: Seq<char>,
    events: Seq<EventModel>,
)
    requires
        start_model(raw) is Resolving,
        forall|i: int|
            0 <= i < events.len() && run_states(cfg, start_model(raw), events)[i] is Checking
                ==> fresh_answer(cfg, events[i]),
        forall|i: int|
            0 <= i < events.len() && run_states(cfg, start_model(raw), events)[i] is Resolving
                ==> resolution_stays_valid(events[i]),
    ensures
        forall|i: int|
            0 <= i < run_states(cfg, start_model(raw), events).len() ==> !(#[trigger] run_states(
                cfg,
                start_model(raw),
                events,
            )[i] is Submitting) && !(run_states(cfg, start_model(raw), events)[i] is Guarding),
        forall|i: int|
            (0 <= i < run_states(cfg, start_model(raw), events).len() && (#[trigger] run_states(
                cfg,
                start_model(raw),
                events,
            )[i] is Finished)) ==> run_states(cfg, start_model(raw), events)[i]->outcome == Ok::<
                ArchiveResultModel,
                ErrorModel,
            >(ArchiveResultModel::RecentArchiveExists),
{
    lemma_recent_snapshot_short_circuits(cfg, start_model(raw), events);
}

/// Law (bounded retries): a stage's failure counter never passes the
/// configured ceiling. Together with the transition relation — a
/// counter at the ceiling never increments, every transient outcome
/// past it leaves the stage — this bounds every stage at one first
/// try plus at most `max_request_retries` retries.
pub proof fn lemma_retries_bounded(cfg: ConfigModel, s: StateModel, e: EventModel)
    requires
        state_attempts(s) <= cfg.max_request_retries,
    ensures
        state_attempts(step_model(cfg, s, e)) <= cfg.max_request_retries,
{
}

/// Law: the pipeline reaches its submission stage only from a
/// checking stage whose existence answer was not fresh (or by
/// retrying within the submission stage itself). Submission is
/// guarded by a failed freshness check, never reached around it.
pub proof fn lemma_submit_needs_stale_check(cfg: ConfigModel, s: StateModel, e: EventModel)
    requires
        step_model(cfg, s, e) is Submitting,
    ensures
        s is Submitting || s is Checking,
        s is Checking ==> !fresh_answer(cfg, e),
{
}

/// The archiving client: a configuration, handed to one pipeline
/// machine per URL.
pub struct WaybackMachineClient {
    pub client_config: ClientConfig,
}

impl WaybackMachineClient {
    /// A client running under the given configuration.
    pub fn new(client_config: ClientConfig) -> (c: WaybackMachineClient)
        ensures
            c.client_config@ == client_config@,
    {
        WaybackMachineClient { client_config }
    }

    /// Begins the archiving pipeline for one raw URL; the returned
    /// machine names each request to perform and consumes its
    /// outcome, until it is finished.
    pub fn archive_url(&self, url: &str) -> (m: ArchiveMachine)
        ensures
            m@.config == self.client_config@,
            m@.state == start_model(url@),
    {
        ArchiveMachine::start(self.client_config.clone(), url)
    }
}

} // verus!
