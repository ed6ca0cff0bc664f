//! The worker that keeps one record current.
//!
//! A worker is a state machine with two states. In `Idle` it compares each
//! observed address with the content it last decided to send and asks for an
//! update when they differ. When an update did not reach the provider the
//! worker is `Retrying`: the next observation of its family makes it ask for
//! the same update again, whatever address that observation holds.
//!
//! The worker sends nothing itself. `on_snapshot` hands back the request to
//! make, and `on_outcome` takes what became of it.

use vstd::prelude::*;
use crate::data::{DnsUpdate, DnsUpdateView};
use crate::provider::{
    spec_bearer,
    spec_record_url,
    update_request,
    HttpMethod,
    ProviderRequest,
    ProviderRequestView,
    UpdateOutcome,
};
use crate::record::{RecordKind, RecordTarget, RecordTargetView};

verus! {

/// One observation of the host's public addresses, each as the text that a
/// record holds. A family that could not be observed is absent.
pub struct AddressSnapshot {
    pub v4: Option<String>,
    pub v6: Option<String>,
}

/// What an `AddressSnapshot` holds, as mathematical values.
pub ghost struct AddressSnapshotView {
    pub v4: Option<Seq<char>>,
    pub v6: Option<Seq<char>>,
}

impl View for AddressSnapshot {
    type V = AddressSnapshotView;

    open spec fn view(&self) -> AddressSnapshotView {
        AddressSnapshotView { v4: self.v4.deep_view(), v6: self.v6.deep_view() }
    }
}

impl AddressSnapshotView {
    /// The address that a record of `kind` holds: IPv4 for `A`, IPv6 for `AAAA`.
    pub open spec fn relevant(self, kind: RecordKind) -> Option<Seq<char>> {
        match kind {
            RecordKind::A => self.v4,
            RecordKind::Aaaa => self.v6,
        }
    }
}

impl AddressSnapshot {
    /// Wraps two observations, either of which may be absent.
    pub fn new(v4: Option<String>, v6: Option<String>) -> (snapshot: AddressSnapshot)
        ensures
            snapshot.v4 == v4,
            snapshot.v6 == v6,
    {
        AddressSnapshot { v4, v6 }
    }

    /// The address that a record of `kind` holds: IPv4 for `A`, IPv6 for `AAAA`.
    pub fn relevant(&self, kind: RecordKind) -> (address: Option<&String>)
        ensures
            address.deep_view() == self@.relevant(kind),
    {
        match kind {
            RecordKind::A => self.v4.as_ref(),
            RecordKind::Aaaa => self.v6.as_ref(),
        }
    }
}

/// The mutable part of a worker: the content it last decided to send, and
/// whether that decision still waits to reach the provider.
pub struct RecordWorkerState {
    pub last_sent_content: String,
    pub pending_retry: bool,
}

/// What a `RecordWorkerState` holds, as mathematical values.
pub ghost struct RecordWorkerStateView {
    pub last_sent_content: Seq<char>,
    pub pending_retry: bool,
}

impl View for RecordWorkerState {
    type V = RecordWorkerStateView;

    open spec fn view(&self) -> RecordWorkerStateView {
        RecordWorkerStateView {
            last_sent_content: self.last_sent_content@,
            pending_retry: self.pending_retry,
        }
    }
}

impl RecordWorkerStateView {
    /// The state of a worker that has seen nothing yet: `Idle`, with no content.
    pub open spec fn initial() -> RecordWorkerStateView {
        RecordWorkerStateView { last_sent_content: Seq::empty(), pending_retry: false }
    }

    /// `Idle`: no update waits to be sent again.
    pub open spec fn is_idle(self) -> bool {
        !self.pending_retry
    }

    /// `Retrying`: the last update did not reach the provider.
    pub open spec fn is_retrying(self) -> bool {
        self.pending_retry
    }
}

/// How an update attempt ended, as the worker reports it.
#[derive(Clone, Copy, Debug, PartialEq, Eq, Structural)]
pub enum UpdateVerdict {
    /// The provider accepted the update.
    Confirmed,
    /// The provider answered and refused the update.
    Rejected,
    /// The provider could not be reached.
    Unreachable,
}

/// A worker as a mathematical value: its target, the family it follows, and its state.
pub ghost struct RecordWorkerView {
    pub target: RecordTargetView,
    pub kind: RecordKind,
    pub state: RecordWorkerStateView,
}

impl RecordWorkerView {
    /// The content that the worker asks to send on a snapshot, if any.
    ///
    /// Without an address of its family the worker asks for nothing. While
    /// retrying it asks for the content it holds; while idle, for the
    /// observed address when that differs from the content it holds.
    pub open spec fn content_to_push(self, snapshot: AddressSnapshotView) -> Option<Seq<char>> {
        match snapshot.relevant(self.kind) {
            None => None,
            Some(address) => if self.state.pending_retry {
                Some(self.state.last_sent_content)
            } else if address == self.state.last_sent_content {
                None
            } else {
                Some(address)
            },
        }
    }

    /// The worker after a snapshot: an idle worker adopts an address of its
    /// family; nothing else changes.
    pub open spec fn after_snapshot(self, snapshot: AddressSnapshotView) -> RecordWorkerView {
        match snapshot.relevant(self.kind) {
            Some(address) if !self.state.pending_retry => RecordWorkerView {
                state: RecordWorkerStateView { last_sent_content: address, ..self.state },
                ..self
            },
            _ => self,
        }
    }

    /// The worker after an update attempt: it is retrying exactly when the
    /// attempt did not reach the provider.
    pub open spec fn after_outcome(self, reached: bool) -> RecordWorkerView {
        RecordWorkerView {
            state: RecordWorkerStateView { pending_retry: !reached, ..self.state },
            ..self
        }
    }

    /// The request that writes `content` to the worker's record.
    pub open spec fn update_of(self, content: Seq<char>) -> ProviderRequestView {
        ProviderRequestView {
            method: HttpMethod::Put,
            url: spec_record_url(self.target.zone_id, self.target.record_id),
            authorization: spec_bearer(self.target.api_key),
            body: Some(DnsUpdateView { entry: self.target.entry, content }),
        }
    }

    /// The request that the worker asks to make on a snapshot, if any.
    pub open spec fn request_on(self, snapshot: AddressSnapshotView) -> Option<
        ProviderRequestView,
    > {
        match self.content_to_push(snapshot) {
            Some(content) => Some(self.update_of(content)),
            None => None,
        }
    }
}

/// What a worker meets in its life: a snapshot, or the end of an update attempt.
pub ghost enum WorkerEvent {
    /// A snapshot was delivered.
    Snapshot(AddressSnapshotView),
    /// An update attempt ended; `reached` says whether the provider answered.
    Outcome { reached: bool },
}

impl RecordWorkerView {
    /// The worker after one event.
    pub open spec fn after_event(self, event: WorkerEvent) -> RecordWorkerView {
        match event {
            WorkerEvent::Snapshot(snapshot) => self.after_snapshot(snapshot),
            WorkerEvent::Outcome { reached } => self.after_outcome(reached),
        }
    }

    /// The worker after a run of events, taken in order.
    pub open spec fn after_events(self, events: Seq<WorkerEvent>) -> RecordWorkerView
        decreases events.len(),
    {
        if events.len() == 0 {
            self
        } else {
            self.after_events(events.drop_last()).after_event(events.last())
        }
    }
}

/// How the last update attempt of a run ended, if the run holds one.
pub open spec fn last_outcome(events: Seq<WorkerEvent>) -> Option<bool>
    decreases events.len(),
{
    if events.len() == 0 {
        None
    } else {
        match events.last() {
            WorkerEvent::Outcome { reached } => Some(reached),
            WorkerEvent::Snapshot(_) => last_outcome(events.drop_last()),
        }
    }
}

/// Whether an update attempt reached the provider.
pub open spec fn spec_reached(outcome: UpdateOutcome) -> bool {
    outcome is Answered
}

/// How an update attempt ended.
pub open spec fn spec_verdict(outcome: UpdateOutcome) -> UpdateVerdict {
    match outcome {
        UpdateOutcome::TransportFailure => UpdateVerdict::Unreachable,
        UpdateOutcome::Answered(response) => if response.success {
            UpdateVerdict::Confirmed
        } else {
            UpdateVerdict::Rejected
        },
    }
}

/// The worker of one record.
pub struct RecordWorker {
    target: RecordTarget,
    kind: RecordKind,
    state: RecordWorkerState,
}

impl View for RecordWorker {
    type V = RecordWorkerView;

    closed spec fn view(&self) -> RecordWorkerView {
        RecordWorkerView { target: self.target@, kind: self.kind, state: self.state@ }
    }
}

impl RecordWorker {
    #[verifier::type_invariant]
    spec fn follows_its_record_type(&self) -> bool {
        self.target@.kind() == Some(self.kind)
    }

    /// Starts the worker of `target`: idle, with no content, so that the first
    /// address of its family counts as a change.
    ///
    /// A target whose record type is neither `A` nor `AAAA` gets no worker.
    pub fn start(target: RecordTarget) -> (worker: Option<RecordWorker>)
        ensures
            match target@.kind() {
                Some(kind) => worker matches Some(w) && w@ == (RecordWorkerView {
                    target: target@,
                    kind,
                    state: RecordWorkerStateView::initial(),
                }),
                None => worker is None,
            },
    {
        match target.kind() {
            Some(kind) => Some(
                RecordWorker {
                    target,
                    kind,
                    state: RecordWorkerState {
                        last_sent_content: String::new(),
                        pending_retry: false,
                    },
                },
            ),
            None => None,
        }
    }

    /// The record that the worker keeps current.
    pub fn target(&self) -> (target: &RecordTarget)
        ensures
            target@ == self@.target,
            target@.kind() == Some(self@.kind),
    {
        proof {
            use_type_invariant(self);
        }
        &self.target
    }

    /// The family that the worker follows.
    pub fn kind(&self) -> (kind: RecordKind)
        ensures
            kind == self@.kind,
    {
        self.kind
    }

    /// The content last decided on, and whether it waits to be sent again.
    pub fn state(&self) -> (state: &RecordWorkerState)
        ensures
            state@ == self@.state,
    {
        &self.state
    }

    /// Takes one snapshot and hands back the request to make, if any.
    ///
    /// A snapshot without an address of the worker's family changes nothing
    /// and asks for nothing. An idle worker that sees the content it holds
    /// asks for nothing; one that sees another address adopts it and asks to
    /// send it. A retrying worker asks to send the content it holds again and
    /// leaves the observed address aside.
    pub fn on_snapshot(&mut self, snapshot: &AddressSnapshot) -> (request: Option<ProviderRequest>)
        ensures
            final(self)@ == old(self)@.after_snapshot(snapshot@),
            match request {
                Some(r) => Some(r@),
                None => None,
            } == old(self)@.request_on(snapshot@),
    {
        proof {
            use_type_invariant(&*self);
        }
        let address = match snapshot.relevant(self.kind) {
            Some(address) => address,
            None => {
                return None;
            },
        };
        if !self.state.pending_retry {
            if *address == self.state.last_sent_content {
                return None;
            }
            self.state.last_sent_content = address.clone();
        }
        let update = DnsUpdate {
            entry: self.target.entry.clone(),
            content: self.state.last_sent_content.clone(),
        };
        Some(
            update_request(
                self.target.zone_id.as_str(),
                self.target.record_id.as_str(),
                self.target.api_key.as_str(),
                update,
            ),
        )
    }

    /// Takes what became of the request that `on_snapshot` last handed back.
    ///
    /// The worker is retrying afterwards exactly when the provider was not
    /// reached. An answer ends the attempt whether the provider accepted the
    /// update or refused it; the content that the worker holds stays as it is.
    pub fn on_outcome(&mut self, outcome: &UpdateOutcome) -> (verdict: UpdateVerdict)
        ensures
            final(self)@ == old(self)@.after_outcome(spec_reached(*outcome)),
            verdict == spec_verdict(*outcome),
    {
        proof {
            use_type_invariant(&*self);
        }
        match outcome {
            UpdateOutcome::TransportFailure => {
                self.state.pending_retry = true;
                UpdateVerdict::Unreachable
            },
            UpdateOutcome::Answered(response) => {
                self.state.pending_retry = false;
                if response.success {
                    UpdateVerdict::Confirmed
                } else {
                    UpdateVerdict::Rejected
                }
            },
        }
    }
}

/// An idle worker that observes the content it holds asks for nothing and
/// stays as it is.
pub proof fn law_idle_same_address_is_quiet(worker: RecordWorkerView, snapshot: AddressSnapshotView)
    requires
        worker.state.is_idle(),
        snapshot.relevant(worker.kind) == Some(worker.state.last_sent_content),
    ensures
        worker.request_on(snapshot) is None,
        worker.after_snapshot(snapshot) == worker,
{
}

/// An idle worker that observes an address other than the content it holds
/// asks for exactly one update, which carries the observed address, and holds
/// that address from then on.
pub proof fn law_idle_new_address_is_sent(
    worker: RecordWorkerView,
    snapshot: AddressSnapshotView,
    address: Seq<char>,
)
    requires
        worker.state.is_idle(),
        snapshot.relevant(worker.kind) == Some(address),
        address != worker.state.last_sent_content,
    ensures
        worker.request_on(snapshot) == Some(worker.update_of(address)),
        worker.update_of(address).body == Some(
            DnsUpdateView { entry: worker.target.entry, content: address },
        ),
        worker.after_snapshot(snapshot).state.last_sent_content == address,
        worker.after_snapshot(snapshot).state.is_idle(),
{
}

/// A worker whose update did not reach the provider is retrying, and the next
/// snapshot that holds any address of its family makes it ask for the update
/// that failed, with the content that failed, and not for the address just
/// observed.
pub proof fn law_retry_resends_decided_content(
    worker: RecordWorkerView,
    first: AddressSnapshotView,
    later: AddressSnapshotView,
)
    requires
        worker.request_on(first) is Some,
        later.relevant(worker.kind) is Some,
    ensures
        ({
            let sent = worker.content_to_push(first)->Some_0;
            let failed = worker.after_snapshot(first).after_outcome(false);
            &&& failed.state.is_retrying()
            &&& failed.state.last_sent_content == sent
            &&& failed.request_on(later) == worker.request_on(first)
            &&& failed.request_on(later) == Some(failed.update_of(sent))
            &&& failed.after_snapshot(later) == failed
        }),
{
}

/// A retrying worker returns to idle on any answer of the provider, whether
/// the answer accepts the update or refuses it.
pub proof fn law_answer_ends_retry(worker: RecordWorkerView, outcome: UpdateOutcome)
    requires
        worker.state.is_retrying(),
        outcome is Answered,
    ensures
        worker.after_outcome(spec_reached(outcome)).state.is_idle(),
        worker.after_outcome(spec_reached(outcome)).state.last_sent_content
            == worker.state.last_sent_content,
{
}

/// A snapshot without an address of the worker's family leaves the worker as
/// it is, idle or retrying, and asks for nothing.
pub proof fn law_missing_family_changes_nothing(
    worker: RecordWorkerView,
    snapshot: AddressSnapshotView,
)
    requires
        snapshot.relevant(worker.kind) is None,
    ensures
        worker.after_snapshot(snapshot) == worker,
        worker.request_on(snapshot) is None,
{
}

/// The content that a worker holds changes in one case only: an idle worker
/// observes an address of its family other than that content. No update
/// attempt changes it, however it ends.
pub proof fn law_content_changes_only_on_new_address(
    worker: RecordWorkerView,
    snapshot: AddressSnapshotView,
    reached: bool,
)
    ensures
        worker.after_outcome(reached).state.last_sent_content == worker.state.last_sent_content,
        worker.after_snapshot(snapshot).state.last_sent_content != worker.state.last_sent_content
            ==> worker.state.is_idle() && snapshot.relevant(worker.kind) == Some(
            worker.after_snapshot(snapshot).state.last_sent_content,
        ),
        worker.after_snapshot(snapshot).state.pending_retry == worker.state.pending_retry,
        worker.after_snapshot(snapshot).target == worker.target,
        worker.after_snapshot(snapshot).kind == worker.kind,
{
}

/// A worker that has seen nothing yet sends the first address of its family,
/// whatever it is, unless that address is the empty text.
pub proof fn law_first_address_is_sent(
    worker: RecordWorkerView,
    snapshot: AddressSnapshotView,
    address: Seq<char>,
)
    requires
        worker.state == RecordWorkerStateView::initial(),
        snapshot.relevant(worker.kind) == Some(address),
        address.len() > 0,
    ensures
        worker.request_on(snapshot) == Some(worker.update_of(address)),
{
}

/// Every request carries the content that the worker holds once it has asked.
pub proof fn law_request_carries_held_content(
    worker: RecordWorkerView,
    snapshot: AddressSnapshotView,
)
    requires
        worker.request_on(snapshot) is Some,
    ensures
        worker.content_to_push(snapshot) == Some(
            worker.after_snapshot(snapshot).state.last_sent_content,
        ),
        worker.request_on(snapshot) == Some(
            worker.update_of(worker.after_snapshot(snapshot).state.last_sent_content),
        ),
{
}

/// After any run of events a worker is retrying exactly when the last update
/// attempt of the run did not reach the provider. A run without an attempt
/// leaves that as it was. Target and family never change.
pub proof fn law_retrying_iff_last_attempt_failed(
    worker: RecordWorkerView,
    events: Seq<WorkerEvent>,
)
    ensures
        worker.after_events(events).state.pending_retry == match last_outcome(events) {
            Some(reached) => !reached,
            None => worker.state.pending_retry,
        },
        worker.after_events(events).target == worker.target,
        worker.after_events(events).kind == worker.kind,
    decreases events.len(),
{
    if events.len() > 0 {
        law_retrying_iff_last_attempt_failed(worker, events.drop_last());
    }
}

} // verus!
