//! One enforcement cycle as a state machine. The machine decides; the
//! caller performs the pending action and reports what came of it.

use vstd::prelude::*;
use vstd::string::*;
use crate::config::settings::BotConfig;
use crate::error::BotError;

verus! {

/// Seconds between the final warning at curfew and the last presence check.
pub const FINAL_GRACE_SECONDS: u64 = 10;

/// A user seen in the monitored channel at one moment.
#[derive(Debug, Clone)]
pub struct Occupant {
    /// Identifier of the user.
    pub user_id: u64,
    /// Name under which the user is shown.
    pub display_name: String,
    /// Whether the account is a bot; bots are never counted, warned or evicted.
    pub is_bot: bool,
}

/// An occupant as contracts speak of it.
pub struct OccupantView {
    pub user_id: u64,
    pub display_name: Seq<char>,
    pub is_bot: bool,
}

impl View for Occupant {
    type V = OccupantView;

    open spec fn view(&self) -> OccupantView {
        OccupantView {
            user_id: self.user_id,
            display_name: self.display_name@,
            is_bot: self.is_bot,
        }
    }
}

impl Occupant {
    /// A copy of this occupant.
    pub fn duplicate(&self) -> (copy: Occupant)
        ensures
            copy == *self,
    {
        Occupant {
            user_id: self.user_id,
            display_name: self.display_name.clone(),
            is_bot: self.is_bot,
        }
    }
}

/// The views of a list of occupants, in order.
pub open spec fn occupant_views(list: Seq<Occupant>) -> Seq<OccupantView> {
    list.map_values(|o: Occupant| o@)
}

/// The occupants of `list` that are no bots, in order.
pub open spec fn present_users(list: Seq<OccupantView>) -> Seq<OccupantView> {
    list.filter(|o: OccupantView| !o.is_bot)
}

/// Drops the bots from a presence snapshot and keeps the order of the rest.
pub fn without_bots(members: &Vec<Occupant>) -> (present: Vec<Occupant>)
    ensures
        occupant_views(present@) == present_users(occupant_views(members@)),
        forall|i: int| 0 <= i < present@.len() ==> !(#[trigger] present@[i]).is_bot,
        present@.len() <= members@.len(),
{
    let ghost keep = |o: OccupantView| !o.is_bot;
    let ghost views = occupant_views(members@);
    let mut present: Vec<Occupant> = Vec::new();
    let mut i: usize = 0;
    while i < members.len()
        invariant
            i <= members.len(),
            views == occupant_views(members@),
            keep == |o: OccupantView| !o.is_bot,
            occupant_views(present@) == views.take(i as int).filter(keep),
            forall|k: int| 0 <= k < present@.len() ==> !(#[trigger] present@[k]).is_bot,
            present@.len() <= i,
        decreases members.len() - i,
    {
        let member = &members[i];
        proof {
            let prefix = views.take(i as int);
            assert(views.take(i as int + 1) =~= prefix.push(views[i as int]));
            prefix.lemma_filter_push(views[i as int], keep);
        }
        if !member.is_bot {
            present.push(member.duplicate());
        }
        i = i + 1;
    }
    proof {
        assert(views.take(members.len() as int) =~= views);
    }
    present
}

/// Which trigger a cycle answers to.
#[derive(Debug, Clone, Copy, PartialEq, Eq, Structural)]
pub enum CycleKind {
    /// The curfew instant: final warning, short grace, last check, eviction.
    Curfew,
    /// A tick of the recurring schedule: warning, configured wait, check, eviction.
    Interval,
    /// A moderator's command: eviction of whoever is present, without warning.
    Manual,
}

/// Which warning a cycle sends.
#[derive(Debug, Clone, Copy, PartialEq, Eq, Structural)]
pub enum WarningKind {
    /// The curfew is near, or a tick of the schedule has come.
    Initial,
    /// The curfew has come and eviction follows.
    Final,
    /// The curfew has come and nobody will be evicted.
    Merciful,
}

/// Where a cycle stands.
#[derive(Debug, Clone, Copy, PartialEq, Eq, Structural)]
pub enum CyclePhase {
    /// Created, not started.
    Idle,
    /// Waiting for the first presence snapshot.
    PresenceCheck,
    /// Waiting to hear whether the warning was accepted.
    WarningPhase,
    /// Waiting for the delay after the warning to pass.
    Waiting,
    /// Waiting for the presence snapshot taken after the delay.
    Recheck,
    /// Waiting to hear whether the current occupant was disconnected.
    Evicting,
    /// Still evicting: waiting for the confirmation of the last eviction to be delivered.
    Confirming,
    /// Ended: nobody was there.
    DoneEmpty,
    /// Ended: lenient mode, nobody was evicted.
    DoneLenient,
    /// Ended: everybody had left when checked again.
    DoneSelfResolved,
    /// Ended: every occupant of the last snapshot was tried.
    Done,
    /// Ended: a presence snapshot could not be read.
    Aborted,
}

/// What of the configuration a cycle goes by, fixed when the cycle is made.
#[derive(Debug, Clone, Copy, PartialEq, Eq, Structural)]
pub struct CyclePolicy {
    /// Which trigger the cycle answers to.
    pub kind: CycleKind,
    /// Whether a channel for warnings is configured.
    pub warnings_enabled: bool,
    /// Lenient mode: warn only, never evict.
    pub warning_only: bool,
    /// Whether each eviction is confirmed in a log channel.
    pub confirm_evictions: bool,
    /// Seconds to wait after a warning before checking presence again.
    pub wait_seconds: u64,
}

impl CyclePolicy {
    /// The policy of a cycle at the curfew instant.
    pub open spec fn curfew_of(config: BotConfig) -> CyclePolicy {
        CyclePolicy {
            kind: CycleKind::Curfew,
            warnings_enabled: config.warning_channel_id is Some,
            warning_only: config.warning_only,
            confirm_evictions: config.log_channel_id is Some,
            wait_seconds: FINAL_GRACE_SECONDS,
        }
    }

    /// The policy of a cycle on a tick of the recurring schedule.
    pub open spec fn interval_of(config: BotConfig) -> CyclePolicy {
        CyclePolicy {
            kind: CycleKind::Interval,
            warnings_enabled: config.warning_channel_id is Some,
            warning_only: config.warning_only,
            confirm_evictions: config.log_channel_id is Some,
            wait_seconds: config.warning_delay_seconds,
        }
    }

    /// The policy of a cycle that evicts without a warning.
    pub open spec fn manual_of(config: BotConfig) -> CyclePolicy {
        CyclePolicy {
            kind: CycleKind::Manual,
            warnings_enabled: config.warning_channel_id is Some,
            warning_only: config.warning_only,
            confirm_evictions: config.log_channel_id is Some,
            wait_seconds: 0,
        }
    }

    /// The policy of a cycle at the curfew instant.
    pub fn curfew(config: &BotConfig) -> (policy: CyclePolicy)
        ensures
            policy == CyclePolicy::curfew_of(*config),
    {
        CyclePolicy {
            kind: CycleKind::Curfew,
            warnings_enabled: config.has_warnings_enabled(),
            warning_only: config.is_warning_only_mode(),
            confirm_evictions: config.log_channel_id.is_some(),
            wait_seconds: FINAL_GRACE_SECONDS,
        }
    }

    /// The policy of a cycle on a tick of the recurring schedule.
    pub fn interval(config: &BotConfig) -> (policy: CyclePolicy)
        ensures
            policy == CyclePolicy::interval_of(*config),
    {
        CyclePolicy {
            kind: CycleKind::Interval,
            warnings_enabled: config.has_warnings_enabled(),
            warning_only: config.is_warning_only_mode(),
            confirm_evictions: config.log_channel_id.is_some(),
            wait_seconds: config.warning_delay(),
        }
    }

    /// The policy of a cycle that a moderator's command starts.
    pub fn manual(config: &BotConfig) -> (policy: CyclePolicy)
        ensures
            policy == CyclePolicy::manual_of(*config),
    {
        CyclePolicy {
            kind: CycleKind::Manual,
            warnings_enabled: config.has_warnings_enabled(),
            warning_only: config.is_warning_only_mode(),
            confirm_evictions: config.log_channel_id.is_some(),
            wait_seconds: 0,
        }
    }

    /// The warning that a cycle under this policy sends.
    pub open spec fn spec_warning_kind(self) -> WarningKind {
        match self.kind {
            CycleKind::Curfew => if self.warning_only {
                WarningKind::Merciful
            } else {
                WarningKind::Final
            },
            _ => WarningKind::Initial,
        }
    }

    /// The warning that a cycle under this policy sends.
    pub fn warning_kind(&self) -> (kind: WarningKind)
        ensures
            kind == self.spec_warning_kind(),
    {
        match self.kind {
            CycleKind::Curfew => if self.warning_only {
                WarningKind::Merciful
            } else {
                WarningKind::Final
            },
            _ => WarningKind::Initial,
        }
    }

    /// Whether a cycle under this policy may never evict: lenient mode, on
    /// any trigger but a moderator's command.
    pub open spec fn forbids_eviction(self) -> bool {
        self.warning_only && self.kind != CycleKind::Manual
    }
}

/// An occupant that could not be disconnected.
#[derive(Debug, Clone)]
pub struct EvictionFailure {
    /// Identifier of the user.
    pub user_id: u64,
    /// Name under which the user is shown.
    pub display_name: String,
    /// What the transport said.
    pub error: String,
}

/// A failed eviction as contracts speak of it.
pub struct EvictionFailureView {
    pub user_id: u64,
    pub display_name: Seq<char>,
    pub error: Seq<char>,
}

impl View for EvictionFailure {
    type V = EvictionFailureView;

    open spec fn view(&self) -> EvictionFailureView {
        EvictionFailureView {
            user_id: self.user_id,
            display_name: self.display_name@,
            error: self.error@,
        }
    }
}

/// The views of a list of failures, in order.
pub open spec fn failure_views(list: Seq<EvictionFailure>) -> Seq<EvictionFailureView> {
    list.map_values(|f: EvictionFailure| f@)
}

/// What the caller reports to a cycle.
#[derive(Debug)]
pub enum CycleEvent {
    /// The trigger fired.
    Start,
    /// A presence snapshot was read, or could not be.
    Presence(Result<Vec<Occupant>, String>),
    /// The warning was sent; `true` where the transport accepted it.
    WarningResult(bool),
    /// The delay has passed.
    WaitElapsed,
    /// The current occupant was disconnected, or could not be.
    DisconnectResult(Result<(), String>),
    /// The confirmation was sent; `true` where the transport accepted it.
    ConfirmationResult(bool),
}

/// An event as contracts speak of it.
pub enum CycleEventView {
    Start,
    Presence(Result<Seq<OccupantView>, Seq<char>>),
    WarningResult(bool),
    WaitElapsed,
    DisconnectResult(Result<(), Seq<char>>),
    ConfirmationResult(bool),
}

impl View for CycleEvent {
    type V = CycleEventView;

    open spec fn view(&self) -> CycleEventView {
        match self {
            CycleEvent::Start => CycleEventView::Start,
            CycleEvent::Presence(Ok(list)) => CycleEventView::Presence(
                Ok(occupant_views(list@)),
            ),
            CycleEvent::Presence(Err(e)) => CycleEventView::Presence(Err(e@)),
            CycleEvent::WarningResult(sent) => CycleEventView::WarningResult(*sent),
            CycleEvent::WaitElapsed => CycleEventView::WaitElapsed,
            CycleEvent::DisconnectResult(Ok(())) => CycleEventView::DisconnectResult(Ok(())),
            CycleEvent::DisconnectResult(Err(e)) => CycleEventView::DisconnectResult(Err(e@)),
            CycleEvent::ConfirmationResult(sent) => CycleEventView::ConfirmationResult(*sent),
        }
    }
}

/// What a cycle asks its caller to do next.
#[derive(Debug, Clone, Copy, PartialEq, Eq, Structural)]
pub enum CycleAction {
    /// Report the trigger.
    AwaitStart,
    /// Read who is in the monitored channel and report the snapshot.
    ReadPresence,
    /// Send this warning to the occupants of the cycle and report the result.
    SendWarning(WarningKind),
    /// Wait this many seconds and report that they have passed.
    Wait(u64),
    /// Disconnect the user with this identifier and report the result.
    Disconnect(u64),
    /// Confirm in the log channel that the user with this identifier was
    /// disconnected, and report the result.
    Confirm(u64),
    /// Nothing: the cycle has ended.
    Finish,
}

/// A cycle as contracts speak of it.
pub struct CycleRunView {
    /// What of the configuration the cycle goes by.
    pub policy: CyclePolicy,
    /// Where the cycle stands.
    pub phase: CyclePhase,
    /// The occupants of the latest snapshot, bots left out.
    pub occupants: Seq<OccupantView>,
    /// How many occupants of the snapshot the eviction is done with.
    pub next: nat,
    /// How many warnings the transport accepted.
    pub warnings_sent: nat,
    /// How many occupants the accepted warning went to.
    pub warned: nat,
    /// How many occupants were disconnected.
    pub evicted: nat,
    /// The occupants that could not be disconnected, in the order tried.
    pub failures: Seq<EvictionFailureView>,
    /// Why the cycle was given up, where it was.
    pub abort_cause: Option<Seq<char>>,
}

impl CycleRunView {
    /// A cycle that has not started.
    pub open spec fn initial(policy: CyclePolicy) -> CycleRunView {
        CycleRunView {
            policy,
            phase: CyclePhase::Idle,
            occupants: Seq::empty(),
            next: 0,
            warnings_sent: 0,
            warned: 0,
            evicted: 0,
            failures: Seq::empty(),
            abort_cause: None,
        }
    }

    /// A cycle that evicts the users of `list` at once: under way where
    /// there are any, ended where there are none.
    pub open spec fn evicting(policy: CyclePolicy, list: Seq<OccupantView>) -> CycleRunView {
        let present = present_users(list);
        CycleRunView {
            policy,
            phase: if present.len() == 0 {
                CyclePhase::DoneEmpty
            } else {
                CyclePhase::Evicting
            },
            occupants: present,
            next: 0,
            warnings_sent: 0,
            warned: 0,
            evicted: 0,
            failures: Seq::empty(),
            abort_cause: None,
        }
    }

    /// Whether the cycle has ended.
    pub open spec fn is_finished(self) -> bool {
        match self.phase {
            CyclePhase::DoneEmpty
            | CyclePhase::DoneLenient
            | CyclePhase::DoneSelfResolved
            | CyclePhase::Done
            | CyclePhase::Aborted => true,
            _ => false,
        }
    }

    /// Whether eviction is under way.
    pub open spec fn is_evicting(self) -> bool {
        self.phase == CyclePhase::Evicting || self.phase == CyclePhase::Confirming
    }

    /// What holds of every cycle: no bot among the occupants, at most one
    /// warning, and counters that fit the phase.
    pub open spec fn well_formed(self) -> bool {
        &&& forall|i: int| 0 <= i < self.occupants.len() ==> !(#[trigger] self.occupants[i]).is_bot
        &&& self.warnings_sent == 0 <==> self.warned == 0
        &&& self.phase == CyclePhase::Aborted <==> self.abort_cause is Some
        &&& match self.phase {
            CyclePhase::Idle | CyclePhase::PresenceCheck | CyclePhase::DoneEmpty => {
                &&& self.occupants.len() == 0
                &&& self.warnings_sent == 0
                &&& self.untouched()
            },
            CyclePhase::WarningPhase => {
                &&& self.occupants.len() > 0
                &&& self.warnings_sent == 0
                &&& self.untouched()
            },
            CyclePhase::Waiting | CyclePhase::Recheck => {
                &&& self.warnings_sent == 1
                &&& self.untouched()
            },
            CyclePhase::DoneSelfResolved => {
                &&& self.occupants.len() == 0
                &&& self.warnings_sent == 1
                &&& self.untouched()
            },
            CyclePhase::DoneLenient | CyclePhase::Aborted => {
                &&& self.warnings_sent <= 1
                &&& self.untouched()
            },
            CyclePhase::Evicting => {
                &&& self.warnings_sent <= 1
                &&& self.next < self.occupants.len()
                &&& self.evicted + self.failures.len() == self.next
            },
            CyclePhase::Confirming => {
                &&& self.warnings_sent <= 1
                &&& self.next < self.occupants.len()
                &&& self.evicted + self.failures.len() == self.next + 1
                &&& self.evicted >= 1
            },
            CyclePhase::Done => {
                &&& self.warnings_sent <= 1
                &&& self.occupants.len() > 0
                &&& self.next == self.occupants.len()
                &&& self.evicted + self.failures.len() == self.next
            },
        }
    }

    /// Whether no eviction was tried yet.
    pub open spec fn untouched(self) -> bool {
        self.next == 0 && self.evicted == 0 && self.failures.len() == 0
    }

    /// What the cycle came to: nothing while it runs; the cause where it
    /// was given up because presence could not be read; otherwise how many
    /// occupants were disconnected.
    pub open spec fn outcome(self) -> Option<Result<nat, Seq<char>>> {
        if !self.is_finished() {
            None
        } else {
            match self.abort_cause {
                Some(cause) => Some(Err(cause)),
                None => Some(Ok(self.evicted)),
            }
        }
    }

    /// What the cycle asks its caller to do next.
    pub open spec fn pending_action(self) -> CycleAction {
        match self.phase {
            CyclePhase::Idle => CycleAction::AwaitStart,
            CyclePhase::PresenceCheck | CyclePhase::Recheck => CycleAction::ReadPresence,
            CyclePhase::WarningPhase => CycleAction::SendWarning(self.policy.spec_warning_kind()),
            CyclePhase::Waiting => CycleAction::Wait(self.policy.wait_seconds),
            CyclePhase::Evicting => CycleAction::Disconnect(
                self.occupants[self.next as int].user_id,
            ),
            CyclePhase::Confirming => CycleAction::Confirm(
                self.occupants[self.next as int].user_id,
            ),
            _ => CycleAction::Finish,
        }
    }

    /// The cycle with eviction begun on the occupants it holds.
    pub open spec fn begin_eviction(self) -> CycleRunView {
        CycleRunView { phase: CyclePhase::Evicting, next: 0, ..self }
    }

    /// The cycle after it is done with the current occupant: on to the
    /// next, or ended where there is none.
    pub open spec fn after_current(self) -> CycleRunView {
        CycleRunView {
            phase: if self.next + 1 < self.occupants.len() {
                CyclePhase::Evicting
            } else {
                CyclePhase::Done
            },
            next: self.next + 1,
            ..self
        }
    }

    /// The cycle after the first snapshot `list` was read.
    pub open spec fn after_first_snapshot(self, list: Seq<OccupantView>) -> CycleRunView {
        let present = present_users(list);
        let seen = CycleRunView { occupants: present, ..self };
        if present.len() == 0 {
            CycleRunView { phase: CyclePhase::DoneEmpty, ..seen }
        } else if self.policy.kind == CycleKind::Manual {
            seen.begin_eviction()
        } else if self.policy.warnings_enabled {
            CycleRunView { phase: CyclePhase::WarningPhase, ..seen }
        } else if self.policy.warning_only {
            CycleRunView { phase: CyclePhase::DoneLenient, ..seen }
        } else {
            seen.begin_eviction()
        }
    }

    /// The cycle after the snapshot `list` was read once the delay had
    /// passed: the occupants seen before the delay are forgotten.
    pub open spec fn after_recheck(self, list: Seq<OccupantView>) -> CycleRunView {
        let present = present_users(list);
        let seen = CycleRunView { occupants: present, ..self };
        if self.policy.warning_only {
            CycleRunView { phase: CyclePhase::DoneLenient, ..seen }
        } else if present.len() == 0 {
            CycleRunView { phase: CyclePhase::DoneSelfResolved, ..seen }
        } else {
            seen.begin_eviction()
        }
    }

    /// The cycle after `event`. An event that the phase does not wait for
    /// changes nothing.
    pub open spec fn advance(self, event: CycleEventView) -> CycleRunView {
        match (self.phase, event) {
            (CyclePhase::Idle, CycleEventView::Start) => CycleRunView {
                phase: CyclePhase::PresenceCheck,
                ..self
            },
            (CyclePhase::PresenceCheck, CycleEventView::Presence(Ok(list))) => {
                self.after_first_snapshot(list)
            },
            (CyclePhase::PresenceCheck, CycleEventView::Presence(Err(cause))) => CycleRunView {
                phase: CyclePhase::Aborted,
                abort_cause: Some(cause),
                ..self
            },
            (CyclePhase::WarningPhase, CycleEventView::WarningResult(sent)) => {
                if sent {
                    CycleRunView {
                        phase: CyclePhase::Waiting,
                        warnings_sent: self.warnings_sent + 1,
                        warned: self.occupants.len(),
                        ..self
                    }
                } else if self.policy.warning_only {
                    CycleRunView { phase: CyclePhase::DoneLenient, ..self }
                } else {
                    self.begin_eviction()
                }
            },
            (CyclePhase::Waiting, CycleEventView::WaitElapsed) => CycleRunView {
                phase: CyclePhase::Recheck,
                ..self
            },
            (CyclePhase::Recheck, CycleEventView::Presence(Ok(list))) => self.after_recheck(list),
            (CyclePhase::Recheck, CycleEventView::Presence(Err(cause))) => CycleRunView {
                phase: CyclePhase::Aborted,
                abort_cause: Some(cause),
                ..self
            },
            (CyclePhase::Evicting, CycleEventView::DisconnectResult(Ok(_))) => {
                let counted = CycleRunView { evicted: self.evicted + 1, ..self };
                if self.policy.confirm_evictions {
                    CycleRunView { phase: CyclePhase::Confirming, ..counted }
                } else {
                    counted.after_current()
                }
            },
            (CyclePhase::Evicting, CycleEventView::DisconnectResult(Err(error))) => {
                let current = self.occupants[self.next as int];
                (CycleRunView {
                    failures: self.failures.push(
                        EvictionFailureView {
                            user_id: current.user_id,
                            display_name: current.display_name,
                            error,
                        },
                    ),
                    ..self
                }).after_current()
            },
            (CyclePhase::Confirming, CycleEventView::ConfirmationResult(_)) => {
                self.after_current()
            },
            _ => self,
        }
    }

    /// The cycle after the events of `events`, in order.
    pub open spec fn advance_all(self, events: Seq<CycleEventView>) -> CycleRunView
        decreases events.len(),
    {
        if events.len() == 0 {
            self
        } else {
            self.advance_all(events.drop_last()).advance(events.last())
        }
    }
}

/// One enforcement cycle: its policy, where it stands, and what it has
/// counted so far.
#[derive(Debug)]
pub struct CycleRun {
    policy: CyclePolicy,
    phase: CyclePhase,
    occupants: Vec<Occupant>,
    next: usize,
    warnings_sent: u8,
    warned: usize,
    evicted: usize,
    failures: Vec<EvictionFailure>,
    abort_cause: Option<String>,
}

impl View for CycleRun {
    type V = CycleRunView;

    closed spec fn view(&self) -> CycleRunView {
        CycleRunView {
            policy: self.policy,
            phase: self.phase,
            occupants: occupant_views(self.occupants@),
            next: self.next as nat,
            warnings_sent: self.warnings_sent as nat,
            warned: self.warned as nat,
            evicted: self.evicted as nat,
            failures: failure_views(self.failures@),
            abort_cause: match self.abort_cause {
                Some(cause) => Some(cause@),
                None => None,
            },
        }
    }
}

impl CycleRun {
    #[verifier::type_invariant]
    spec fn holds(self) -> bool {
        self@.well_formed()
    }

    /// A cycle under `policy` that has not started.
    pub fn new(policy: CyclePolicy) -> (run: CycleRun)
        ensures
            run@ == CycleRunView::initial(policy),
            run@.well_formed(),
    {
        let run = CycleRun {
            policy,
            phase: CyclePhase::Idle,
            occupants: Vec::new(),
            next: 0,
            warnings_sent: 0,
            warned: 0,
            evicted: 0,
            failures: Vec::new(),
            abort_cause: None,
        };
        proof {
            assert(occupant_views(run.occupants@) =~= Seq::<OccupantView>::empty());
            assert(failure_views(run.failures@) =~= Seq::<EvictionFailureView>::empty());
        }
        run
    }

    /// A cycle under `policy` that evicts the users of `members` at once,
    /// without a warning and without a presence check of its own.
    pub fn evicting(policy: CyclePolicy, members: &Vec<Occupant>) -> (run: CycleRun)
        ensures
            run@ == CycleRunView::evicting(policy, occupant_views(members@)),
            run@.well_formed(),
    {
        let occupants = without_bots(members);
        let phase = if occupants.len() == 0 {
            CyclePhase::DoneEmpty
        } else {
            CyclePhase::Evicting
        };
        let run = CycleRun {
            policy,
            phase,
            occupants,
            next: 0,
            warnings_sent: 0,
            warned: 0,
            evicted: 0,
            failures: Vec::new(),
            abort_cause: None,
        };
        proof {
            assert(failure_views(run.failures@) =~= Seq::<EvictionFailureView>::empty());
        }
        run
    }

    /// What of the configuration the cycle goes by.
    pub fn policy(&self) -> (policy: CyclePolicy)
        ensures
            policy == self@.policy,
    {
        self.policy
    }

    /// Where the cycle stands.
    pub fn phase(&self) -> (phase: CyclePhase)
        ensures
            phase == self@.phase,
            self@.well_formed(),
    {
        proof {
            use_type_invariant(self);
        }
        self.phase
    }

    /// Whether the cycle has ended.
    pub fn is_finished(&self) -> (finished: bool)
        ensures
            finished == self@.is_finished(),
    {
        match self.phase {
            CyclePhase::DoneEmpty
            | CyclePhase::DoneLenient
            | CyclePhase::DoneSelfResolved
            | CyclePhase::Done
            | CyclePhase::Aborted => true,
            _ => false,
        }
    }

    /// The occupants of the latest snapshot, bots left out.
    pub fn occupants(&self) -> (list: &Vec<Occupant>)
        ensures
            occupant_views(list@) == self@.occupants,
    {
        &self.occupants
    }

    /// How many warnings the transport accepted.
    pub fn warnings_sent(&self) -> (count: usize)
        ensures
            count == self@.warnings_sent,
    {
        self.warnings_sent as usize
    }

    /// How many occupants the accepted warning went to.
    pub fn warned_count(&self) -> (count: usize)
        ensures
            count == self@.warned,
    {
        self.warned
    }

    /// How many occupants were disconnected.
    pub fn evicted_count(&self) -> (count: usize)
        ensures
            count == self@.evicted,
    {
        self.evicted
    }

    /// What the cycle came to: nothing while it runs; an error of the
    /// platform with the cause where the cycle was given up because
    /// presence could not be read; otherwise how many occupants were
    /// disconnected.
    pub fn outcome(&self) -> (r: Option<Result<usize, BotError>>)
        ensures
            match r {
                None => self@.outcome() is None,
                Some(Ok(count)) => self@.outcome() == Some(
                    Ok::<nat, Seq<char>>(count as nat),
                ),
                Some(Err(e)) => e matches BotError::DiscordError(cause) && self@.outcome()
                    == Some(Err::<nat, Seq<char>>(cause@)),
            },
    {
        if !self.is_finished() {
            return None;
        }
        match &self.abort_cause {
            Some(cause) => Some(Err(BotError::DiscordError(cause.clone()))),
            None => Some(Ok(self.evicted)),
        }
    }

    /// The occupants that could not be disconnected, in the order tried.
    pub fn failures(&self) -> (list: &Vec<EvictionFailure>)
        ensures
            failure_views(list@) == self@.failures,
    {
        &self.failures
    }

    /// What the cycle asks its caller to do next.
    pub fn pending_action(&self) -> (action: CycleAction)
        ensures
            action == self@.pending_action(),
    {
        proof {
            use_type_invariant(self);
        }
        match self.phase {
            CyclePhase::Idle => CycleAction::AwaitStart,
            CyclePhase::PresenceCheck | CyclePhase::Recheck => CycleAction::ReadPresence,
            CyclePhase::WarningPhase => CycleAction::SendWarning(self.policy.warning_kind()),
            CyclePhase::Waiting => CycleAction::Wait(self.policy.wait_seconds),
            CyclePhase::Evicting => CycleAction::Disconnect(self.occupants[self.next].user_id),
            CyclePhase::Confirming => CycleAction::Confirm(self.occupants[self.next].user_id),
            _ => CycleAction::Finish,
        }
    }

    /// Takes the cycle one step further on what the caller reports. An
    /// event that the phase does not wait for changes nothing.
    pub fn advance(self, event: CycleEvent) -> (after: CycleRun)
        ensures
            after@ == self@.advance(event@),
            after@.well_formed(),
    {
        proof {
            use_type_invariant(&self);
            lemma_advance_keeps_well_formed(self@, event@);
        }
        let CycleRun {
            policy,
            phase,
            occupants,
            next,
            warnings_sent,
            warned,
            evicted,
            failures,
            abort_cause,
        } = self;
        let mut abort_cause = abort_cause;
        let mut phase = phase;
        let mut warned = warned;
        let mut occupants = occupants;
        let mut next = next;
        let mut warnings_sent = warnings_sent;
        let mut evicted = evicted;
        let mut failures = failures;
        match phase {
            CyclePhase::Idle => match event {
                CycleEvent::Start => {
                    phase = CyclePhase::PresenceCheck;
                },
                _ => {},
            },
            CyclePhase::PresenceCheck => match event {
                CycleEvent::Presence(Ok(list)) => {
                    occupants = without_bots(&list);
                    phase =
                    if occupants.len() == 0 {
                        CyclePhase::DoneEmpty
                    } else if policy.kind == CycleKind::Manual {
                        CyclePhase::Evicting
                    } else if policy.warnings_enabled {
                        CyclePhase::WarningPhase
                    } else if policy.warning_only {
                        CyclePhase::DoneLenient
                    } else {
                        CyclePhase::Evicting
                    };
                },
                CycleEvent::Presence(Err(cause)) => {
                    phase = CyclePhase::Aborted;
                    abort_cause = Some(cause);
                },
                _ => {},
            },
            CyclePhase::WarningPhase => match event {
                CycleEvent::WarningResult(sent) => {
                    if sent {
                        phase = CyclePhase::Waiting;
                        warnings_sent = warnings_sent + 1;
                        warned = occupants.len();
                    } else if policy.warning_only {
                        phase = CyclePhase::DoneLenient;
                    } else {
                        phase = CyclePhase::Evicting;
                    }
                },
                _ => {},
            },
            CyclePhase::Waiting => match event {
                CycleEvent::WaitElapsed => {
                    phase = CyclePhase::Recheck;
                },
                _ => {},
            },
            CyclePhase::Recheck => match event {
                CycleEvent::Presence(Ok(list)) => {
                    occupants = without_bots(&list);
                    phase =
                    if policy.warning_only {
                        CyclePhase::DoneLenient
                    } else if occupants.len() == 0 {
                        CyclePhase::DoneSelfResolved
                    } else {
                        CyclePhase::Evicting
                    };
                },
                CycleEvent::Presence(Err(cause)) => {
                    phase = CyclePhase::Aborted;
                    abort_cause = Some(cause);
                },
                _ => {},
            },
            CyclePhase::Evicting => match event {
                CycleEvent::DisconnectResult(Ok(_)) => {
                    let total: usize = occupants.len();
                    evicted = evicted + 1;
                    if policy.confirm_evictions {
                        phase = CyclePhase::Confirming;
                    } else {
                        next = next + 1;
                        phase =
                        if next < total {
                            CyclePhase::Evicting
                        } else {
                            CyclePhase::Done
                        };
                    }
                },
                CycleEvent::DisconnectResult(Err(error)) => {
                    let ghost old_failures = failure_views(failures@);
                    let current = &occupants[next];
                    let failure = EvictionFailure {
                        user_id: current.user_id,
                        display_name: current.display_name.clone(),
                        error,
                    };
                    failures.push(failure);
                    proof {
                        assert(failure_views(failures@) =~= old_failures.push(failure@));
                    }
                    let total: usize = occupants.len();
                    next = next + 1;
                    phase =
                    if next < total {
                        CyclePhase::Evicting
                    } else {
                        CyclePhase::Done
                    };
                },
                _ => {},
            },
            CyclePhase::Confirming => match event {
                CycleEvent::ConfirmationResult(_) => {
                    let total: usize = occupants.len();
                    next = next + 1;
                    phase =
                    if next < total {
                        CyclePhase::Evicting
                    } else {
                        CyclePhase::Done
                    };
                },
                _ => {},
            },
            _ => {},
        }
        CycleRun {
            policy,
            phase,
            occupants,
            next,
            warnings_sent,
            warned,
            evicted,
            failures,
            abort_cause,
        }
    }
}

/// Every step keeps a cycle well formed.
pub proof fn lemma_advance_keeps_well_formed(run: CycleRunView, event: CycleEventView)
    requires
        run.well_formed(),
    ensures
        run.advance(event).well_formed(),
{
    broadcast use Seq::lemma_filter_pred;

}

/// Every cycle that starts idle is well formed whatever is reported to it.
pub proof fn lemma_reachable_is_well_formed(policy: CyclePolicy, events: Seq<CycleEventView>)
    ensures
        CycleRunView::initial(policy).advance_all(events).well_formed(),
    decreases events.len(),
{
    if events.len() > 0 {
        lemma_reachable_is_well_formed(policy, events.drop_last());
        lemma_advance_keeps_well_formed(
            CycleRunView::initial(policy).advance_all(events.drop_last()),
            events.last(),
        );
    }
}

/// A cycle that finds the channel empty ends at once, with no warning sent
/// and nobody evicted, whatever its policy; bots do not count as occupants.
pub proof fn law_empty_channel_ends_empty(policy: CyclePolicy, snapshot: Seq<OccupantView>)
    requires
        present_users(snapshot).len() == 0,
    ensures
        ({
            let end = CycleRunView::initial(policy).advance(CycleEventView::Start).advance(
                CycleEventView::Presence(Ok(snapshot)),
            );
            &&& end.phase == CyclePhase::DoneEmpty
            &&& end.warnings_sent == 0
            &&& end.warned == 0
            &&& end.evicted == 0
            &&& end.failures.len() == 0
            &&& end.pending_action() == CycleAction::Finish
        }),
{
}

/// In lenient mode no scheduled cycle ever evicts: whatever is reported to
/// it, and in whatever order, it never asks for a disconnection, never
/// stands in eviction, and counts nobody as evicted.
pub proof fn law_lenient_never_evicts(policy: CyclePolicy, events: Seq<CycleEventView>)
    requires
        policy.forbids_eviction(),
    ensures
        ({
            let run = CycleRunView::initial(policy).advance_all(events);
            &&& run.policy == policy
            &&& !run.is_evicting()
            &&& run.phase != CyclePhase::Done
            &&& !(run.pending_action() is Disconnect)
            &&& !(run.pending_action() is Confirm)
            &&& run.evicted == 0
            &&& run.failures.len() == 0
        }),
    decreases events.len(),
{
    if events.len() > 0 {
        law_lenient_never_evicts(policy, events.drop_last());
        lemma_reachable_is_well_formed(policy, events.drop_last());
    }
}

/// The check after the delay replaces the occupants seen before it: what
/// the cycle holds afterwards, and so whom it evicts, is who was present at
/// that check, bots left out, and nobody else.
pub proof fn law_recheck_replaces_snapshot(run: CycleRunView, snapshot: Seq<OccupantView>)
    requires
        run.well_formed(),
        run.phase == CyclePhase::Recheck,
    ensures
        ({
            let after = run.advance(CycleEventView::Presence(Ok(snapshot)));
            &&& after.occupants == present_users(snapshot)
            &&& after.is_evicting() ==> after.pending_action() == CycleAction::Disconnect(
                present_users(snapshot)[0].user_id,
            )
            &&& after.is_evicting() <==> !run.policy.warning_only && present_users(
                snapshot,
            ).len() > 0
        }),
{
}

/// While eviction is under way the occupants stay as they were when it
/// began, and each is asked for in turn: no event changes whom the cycle
/// evicts, and the request always names the occupant at the cycle's place.
pub proof fn law_eviction_keeps_snapshot(run: CycleRunView, event: CycleEventView)
    requires
        run.well_formed(),
        run.is_evicting(),
    ensures
        run.advance(event).occupants == run.occupants,
        run.advance(event).next == run.next || run.advance(event).next == run.next + 1,
        run.advance(event).phase == CyclePhase::Evicting ==> run.advance(event).pending_action()
            == CycleAction::Disconnect(
            run.occupants[run.advance(event).next as int].user_id,
        ),
{
}

/// A failed disconnection stops nothing: it is recorded with the user and
/// the error, the count of evictions stays, and the cycle goes on to the
/// next occupant where there is one.
pub proof fn law_failure_is_isolated(run: CycleRunView, error: Seq<char>)
    requires
        run.well_formed(),
        run.phase == CyclePhase::Evicting,
    ensures
        ({
            let after = run.advance(CycleEventView::DisconnectResult(Err(error)));
            let current = run.occupants[run.next as int];
            &&& after.evicted == run.evicted
            &&& after.failures == run.failures.push(
                EvictionFailureView {
                    user_id: current.user_id,
                    display_name: current.display_name,
                    error,
                },
            )
            &&& after.next == run.next + 1
            &&& run.next + 1 < run.occupants.len() ==> after.pending_action()
                == CycleAction::Disconnect(run.occupants[run.next as int + 1].user_id)
            &&& run.next + 1 == run.occupants.len() ==> after.phase == CyclePhase::Done
        }),
{
}

/// A cycle that has ended after eviction has tried every occupant once:
/// evictions and failures together are as many as the occupants.
pub proof fn law_done_accounts_for_everyone(policy: CyclePolicy, events: Seq<CycleEventView>)
    ensures
        ({
            let run = CycleRunView::initial(policy).advance_all(events);
            run.phase == CyclePhase::Done ==> run.evicted + run.failures.len()
                == run.occupants.len()
        }),
{
    lemma_reachable_is_well_formed(policy, events);
}

/// The place of a phase in the course of a cycle: a cycle never goes from
/// a phase to one with a lower place.
pub open spec fn phase_rank(phase: CyclePhase) -> int {
    match phase {
        CyclePhase::Idle => 0,
        CyclePhase::PresenceCheck => 1,
        CyclePhase::WarningPhase => 2,
        CyclePhase::Waiting => 3,
        CyclePhase::Recheck => 4,
        CyclePhase::Evicting | CyclePhase::Confirming => 5,
        _ => 6,
    }
}

/// A cycle only goes forward: no event takes it back to an earlier phase,
/// lowers a counter, or takes an occupant off the list of failures; and
/// during eviction its place among the occupants never goes back.
pub proof fn law_cycle_only_advances(run: CycleRunView, event: CycleEventView)
    requires
        run.well_formed(),
    ensures
        ({
            let after = run.advance(event);
            &&& phase_rank(after.phase) >= phase_rank(run.phase)
            &&& after.policy == run.policy
            &&& after.warnings_sent >= run.warnings_sent
            &&& after.evicted >= run.evicted
            &&& after.failures.len() >= run.failures.len()
            &&& after.failures.take(run.failures.len() as int) == run.failures
            &&& run.is_evicting() ==> after.next >= run.next
        }),
{
}

/// A cycle that has ended stays as it is whatever is reported to it.
pub proof fn law_finished_is_final(run: CycleRunView, event: CycleEventView)
    requires
        run.is_finished(),
    ensures
        run.advance(event) == run,
{
}

/// The place in `events` of the presence snapshot that a cycle under
/// `policy` took its occupants from, if it took any: the last snapshot
/// that was read while the cycle waited for one.
pub open spec fn last_snapshot(policy: CyclePolicy, events: Seq<CycleEventView>) -> Option<int>
    decreases events.len(),
{
    if events.len() == 0 {
        None
    } else {
        let before = CycleRunView::initial(policy).advance_all(events.drop_last());
        if (before.phase == CyclePhase::PresenceCheck || before.phase == CyclePhase::Recheck)
            && events.last() matches CycleEventView::Presence(Ok(_)) {
            Some(events.len() - 1)
        } else {
            last_snapshot(policy, events.drop_last())
        }
    }
}

/// The place in `events` of the end of the wait of a cycle under `policy`,
/// if the cycle has waited.
pub open spec fn wait_ended(policy: CyclePolicy, events: Seq<CycleEventView>) -> Option<int>
    decreases events.len(),
{
    if events.len() == 0 {
        None
    } else {
        let before = CycleRunView::initial(policy).advance_all(events.drop_last());
        if before.phase == CyclePhase::Waiting && events.last() is WaitElapsed {
            Some(events.len() - 1)
        } else {
            wait_ended(policy, events.drop_last())
        }
    }
}

/// The users of the snapshot at the place `at` of `events`, bots left out.
pub open spec fn snapshot_users(events: Seq<CycleEventView>, at: int) -> Seq<OccupantView> {
    match events[at] {
        CycleEventView::Presence(Ok(list)) => present_users(list),
        _ => Seq::empty(),
    }
}

/// What links the occupants of a cycle to the snapshots reported to it.
pub open spec fn snapshot_is_current(policy: CyclePolicy, events: Seq<CycleEventView>) -> bool {
    let run = CycleRunView::initial(policy).advance_all(events);
    &&& match last_snapshot(policy, events) {
        Some(at) => 0 <= at < events.len() && run.occupants == snapshot_users(events, at),
        None => run.occupants.len() == 0,
    }
    &&& match wait_ended(policy, events) {
        Some(end) => {
            &&& 0 <= end < events.len()
            &&& run.warnings_sent == 1
            &&& run.phase != CyclePhase::Waiting
            &&& run.phase != CyclePhase::Recheck && run.phase != CyclePhase::Aborted ==> (
            last_snapshot(policy, events) matches Some(at) && end < at)
        },
        None => run.phase == CyclePhase::Waiting || run.warnings_sent == 0,
    }
}

/// The occupants of a cycle always come from the last snapshot it read.
pub proof fn lemma_snapshot_is_current(policy: CyclePolicy, events: Seq<CycleEventView>)
    ensures
        snapshot_is_current(policy, events),
    decreases events.len(),
{
    if events.len() > 0 {
        let earlier = events.drop_last();
        lemma_snapshot_is_current(policy, earlier);
        lemma_reachable_is_well_formed(policy, earlier);
        lemma_reachable_is_well_formed(policy, events);
    }
}

/// A cycle never evicts from a snapshot older than its wait: whatever is
/// reported to it, once it evicts, or has ended after eviction, its
/// occupants are those of the last presence snapshot it read, bots left
/// out; and where it has waited after a warning, that snapshot was
/// reported after the wait had ended.
pub proof fn law_eviction_follows_latest_snapshot(
    policy: CyclePolicy,
    events: Seq<CycleEventView>,
)
    ensures
        ({
            let run = CycleRunView::initial(policy).advance_all(events);
            run.is_evicting() || run.phase == CyclePhase::Done ==> {
                &&& last_snapshot(policy, events) matches Some(at)
                &&& 0 <= at < events.len()
                &&& run.occupants == snapshot_users(events, at)
                &&& run.warnings_sent == 1 ==> (wait_ended(policy, events) matches Some(end)
                    && end < at)
            }
        }),
{
    lemma_snapshot_is_current(policy, events);
    lemma_reachable_is_well_formed(policy, events);
}

} // verus!
