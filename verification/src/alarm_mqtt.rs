use vstd::prelude::*;
use crate::handlers::{lookup_bridge, bridge_position};
use crate::models::{AlertSeverity, AlertType, BRIDGE_COUNT, MessageKind};

verus! {

/// What the alarm worker does with a message.
#[derive(Debug, Clone, Copy, PartialEq, Eq, Structural)]
pub enum AlarmStep {
    /// Evaluate an aerodynamic result against the alert thresholds.
    EvaluateResult,
    /// Forward an alert that was raised elsewhere.
    DispatchAlert,
    /// Log and skip the message.
    Ignore,
    /// Leave the receive loop.
    Stop,
}

pub fn alarm_step(kind: MessageKind) -> (s: AlarmStep)
    ensures
        s == (match kind {
            MessageKind::AerodynamicResultReady => AlarmStep::EvaluateResult,
            MessageKind::AlertTriggered => AlarmStep::DispatchAlert,
            MessageKind::Shutdown => AlarmStep::Stop,
            _ => AlarmStep::Ignore,
        }),
{
    match kind {
        MessageKind::AerodynamicResultReady => AlarmStep::EvaluateResult,
        MessageKind::AlertTriggered => AlarmStep::DispatchAlert,
        MessageKind::Shutdown => AlarmStep::Stop,
        _ => AlarmStep::Ignore,
    }
}

/// Whether an alert of `severity` is queued for publication: every alert
/// is, except mere information.
pub fn should_publish(severity: AlertSeverity) -> (b: bool)
    ensures
        b <==> severity != AlertSeverity::Info,
{
    match severity {
        AlertSeverity::Info => false,
        _ => true,
    }
}

/// Number of alert types.
pub const ALERT_TYPE_COUNT: usize = 5;

impl AlertType {
    /// Position of the alert type in declaration order.
    pub open spec fn position(self) -> nat {
        match self {
            AlertType::VibrationExceeded => 0,
            AlertType::WindSpeedCritical => 1,
            AlertType::CableForceAnomaly => 2,
            AlertType::FlutterImminent => 3,
            AlertType::SensorOffline => 4,
        }
    }

    pub fn index(&self) -> (i: usize)
        ensures
            i == self.position(),
            i < ALERT_TYPE_COUNT,
    {
        match self {
            AlertType::VibrationExceeded => 0,
            AlertType::WindSpeedCritical => 1,
            AlertType::CableForceAnomaly => 2,
            AlertType::FlutterImminent => 3,
            AlertType::SensorOffline => 4,
        }
    }
}

/// Slot of the ledger that holds alerts of type `alert_type` about the
/// bridge at catalogue position `bridge`.
pub open spec fn ledger_slot(bridge: nat, alert_type: AlertType) -> int {
    (bridge * ALERT_TYPE_COUNT + alert_type.position()) as int
}

/// Whether an alert is dispatched, given the severity at which the same
/// alert is currently raised (`previous`) and what the latest evaluation
/// raised: it is dispatched when it is raised and was not already raised at
/// that severity.
pub open spec fn dispatch_due(previous: Option<AlertSeverity>, raised: Option<AlertSeverity>) -> bool {
    raised is Some && previous != raised
}

/// Alerts currently raised, per bridge and alert type, so that an alert is
/// dispatched once when it is raised or changes severity, and suppressed
/// while it persists unchanged.
pub struct AlertLedger {
    raised: Vec<Option<AlertSeverity>>,
}

impl View for AlertLedger {
    type V = Seq<Option<AlertSeverity>>;

    closed spec fn view(&self) -> Seq<Option<AlertSeverity>> {
        self.raised@
    }
}

impl AlertLedger {
    /// Every ledger has one slot per catalogued bridge and alert type.
    pub open spec fn wf(&self) -> bool {
        self@.len() == BRIDGE_COUNT * ALERT_TYPE_COUNT
    }

    pub fn new() -> (l: Self)
        ensures
            l.wf(),
            forall|i: int| 0 <= i < BRIDGE_COUNT * ALERT_TYPE_COUNT ==> (#[trigger] l@[i]) is None,
    {
        let mut raised: Vec<Option<AlertSeverity>> = Vec::new();
        let mut k: usize = 0;
        while k < BRIDGE_COUNT * ALERT_TYPE_COUNT
            invariant
                k <= BRIDGE_COUNT * ALERT_TYPE_COUNT,
                raised@.len() == k,
                forall|i: int| 0 <= i < k ==> (#[trigger] raised@[i]) is None,
            decreases BRIDGE_COUNT * ALERT_TYPE_COUNT - k,
        {
            raised.push(None);
            k = k + 1;
        }
        AlertLedger { raised }
    }

    /// Records what the latest evaluation of `bridge_id` raised for
    /// `alert_type` (`None`: nothing) and says whether the alert is to be
    /// dispatched. Alerts about a bridge that is not catalogued are not
    /// tracked and are dispatched whenever raised.
    pub fn observe(&mut self, bridge_id: &str, alert_type: AlertType, raised: Option<AlertSeverity>) -> (send: bool)
        requires
            old(self).wf(),
        ensures
            final(self).wf(),
            bridge_position(bridge_id@) is None ==> send == raised is Some && final(self)@ == old(self)@,
            bridge_position(bridge_id@) matches Some(b) ==> {
                &&& send == dispatch_due(old(self)@[ledger_slot(b as nat, alert_type)], raised)
                &&& final(self)@ == old(self)@.update(ledger_slot(b as nat, alert_type), raised)
            },
    {
        match lookup_bridge(bridge_id) {
            None => raised.is_some(),
            Some(b) => {
                let k: usize = b * ALERT_TYPE_COUNT + alert_type.index();
                let previous = self.raised[k];
                let send: bool = match (previous, raised) {
                    (_, None) => false,
                    (None, Some(_)) => true,
                    (Some(p), Some(r)) => p != r,
                };
                self.raised.set(k, raised);
                send
            },
        }
    }
}

/// The same alert is not dispatched twice in a row: once an evaluation has
/// raised it at some severity, a later evaluation that raises it at that
/// severity again is suppressed, whereas a first raise, a raise after it
/// cleared, and a change of severity are dispatched; slots of other bridges
/// and types are untouched.
pub proof fn lemma_alert_dispatched_once(ledger: Seq<Option<AlertSeverity>>, slot: int, other: int, s: AlertSeverity, t: AlertSeverity)
    requires
        0 <= slot < ledger.len(),
        0 <= other < ledger.len(),
        other != slot,
    ensures
        !dispatch_due(ledger.update(slot, Some(s))[slot], Some(s)),
        dispatch_due(None, Some(s)),
        s != t ==> dispatch_due(Some(s), Some(t)),
        !dispatch_due(ledger[slot], None),
        ledger.update(slot, Some(s))[other] == ledger[other],
{
}

/// Distinct catalogued bridges and alert types use distinct ledger slots.
pub proof fn lemma_ledger_slots_distinct(b1: nat, t1: AlertType, b2: nat, t2: AlertType)
    requires
        b1 < BRIDGE_COUNT,
        b2 < BRIDGE_COUNT,
        b1 != b2 || t1 != t2,
    ensures
        ledger_slot(b1, t1) != ledger_slot(b2, t2),
        0 <= ledger_slot(b1, t1) < BRIDGE_COUNT * ALERT_TYPE_COUNT,
{
}

} // verus!
