use vstd::prelude::*;

verus! {

/// Cross-section family of the bridge deck.
#[derive(Debug, Clone, Copy, PartialEq, Eq, Structural)]
pub enum DeckShapeType {
    Flat,
    Streamlined,
    Box,
    Slotted,
}

/// What an alert is about.
#[derive(Debug, Clone, Copy, PartialEq, Eq, Structural)]
pub enum AlertType {
    VibrationExceeded,
    WindSpeedCritical,
    CableForceAnomaly,
    FlutterImminent,
    SensorOffline,
}

/// How urgent an alert is, from least to most urgent.
#[derive(Debug, Clone, Copy, PartialEq, Eq, Structural, PartialOrd, Ord)]
pub enum AlertSeverity {
    Info,
    Warning,
    Critical,
    Emergency,
}

/// Which kind of message travels on the service channels.
#[derive(Debug, Clone, Copy, PartialEq, Eq, Structural)]
pub enum MessageKind {
    DtuPayloadReceived,
    AerodynamicResultReady,
    OptimizationRequest,
    OptimizationResultReady,
    AlertTriggered,
    StorageWriteRequest,
    Shutdown,
}

/// What a channel worker does with one message.
#[derive(Debug, Clone, Copy, PartialEq, Eq, Structural)]
pub enum WorkerStep {
    /// Hand the message to the worker's handler.
    Handle,
    /// Log and skip the message.
    Ignore,
    /// Leave the receive loop.
    Stop,
}

/// The step of a worker that handles exactly the messages of kind `own`.
pub open spec fn worker_step_for(kind: MessageKind, own: MessageKind) -> WorkerStep {
    if kind == MessageKind::Shutdown {
        WorkerStep::Stop
    } else if kind == own {
        WorkerStep::Handle
    } else {
        WorkerStep::Ignore
    }
}

/// The readings of a payload in the order they are processed: the list of
/// readings first, then the single optional reading when there is one.
pub open spec fn readings_in_order<T>(list: Seq<T>, single: Option<T>) -> Seq<T> {
    match single {
        Some(w) => list.push(w),
        None => list,
    }
}

/// Gathers references to the readings of a payload in processing order.
pub fn collect_readings<'a, T>(list: &'a Vec<T>, single: &'a Option<T>) -> (r: Vec<&'a T>)
    ensures
        r@.len() == readings_in_order(list@, *single).len(),
        forall|i: int| 0 <= i < r@.len() ==> *r@[i] == readings_in_order(list@, *single)[i],
        r@.len() == list@.len() + (if single is Some { 1int } else { 0int }),
        forall|i: int| 0 <= i < list@.len() ==> *r@[i] == list@[i],
        single matches Some(w) ==> *r@[list@.len() as int] == w,
{
    let mut r: Vec<&'a T> = Vec::new();
    let mut k: usize = 0;
    while k < list.len()
        invariant
            k <= list@.len(),
            r@.len() == k,
            forall|i: int| 0 <= i < k ==> *r@[i] == list@[i],
        decreases list@.len() - k,
    {
        r.push(&list[k]);
        k = k + 1;
    }
    match single {
        Some(w) => {
            r.push(w);
        },
        None => {},
    }
    r
}

/// The readings of a payload are processed as the list followed by the
/// single reading, when there is one: the single reading is never dropped,
/// also when the list is empty, and nothing is added when it is absent.
pub proof fn lemma_readings_in_order<T>(list: Seq<T>, w: T)
    ensures
        readings_in_order(list, Some(w)).len() == list.len() + 1,
        readings_in_order(list, Some(w)).last() == w,
        readings_in_order(list, Some(w)).contains(w),
        readings_in_order(list, Some(w)).subrange(0, list.len() as int) == list,
        readings_in_order(list, None) == list,
{
    let r = readings_in_order(list, Some(w));
    assert(r[list.len() as int] == w);
    assert(r.subrange(0, list.len() as int) =~= list);
}

/// Number of monitored bridges.
pub const BRIDGE_COUNT: usize = 10;

/// Identifiers of the monitored bridges, in catalogue order.
pub open spec fn bridge_ids() -> Seq<Seq<char>> {
    seq!["BS001"@, "BS002"@, "BS003"@, "BS004"@, "BS005"@, "BS006"@, "BS007"@, "BS008"@, "BS009"@, "BS010"@]
}

/// Identifier of the bridge at position `i` of the catalogue.
pub fn bridge_id_at(i: usize) -> (id: &'static str)
    requires
        i < BRIDGE_COUNT,
    ensures
        id@ == bridge_ids()[i as int],
        id@.len() == 5,
        id@[0] == 'B',
        id@[1] == 'S',
        '0' <= id@[2] <= '9',
        '0' <= id@[3] <= '9',
        '0' <= id@[4] <= '9',
        id_number(id@) == i + 1,
{
    proof {
        lemma_bridge_numbering(i as int);
    }
    match i {
        0 => "BS001",
        1 => "BS002",
        2 => "BS003",
        3 => "BS004",
        4 => "BS005",
        5 => "BS006",
        6 => "BS007",
        7 => "BS008",
        8 => "BS009",
        _ => "BS010",
    }
}

/// The number written by the three characters that follow "BS" in a bridge
/// identifier, each read as a decimal digit.
pub open spec fn id_number(id: Seq<char>) -> int {
    (id[2] as int - '0' as int) * 100 + (id[3] as int - '0' as int) * 10 + (id[4] as int - '0' as int)
}

/// The identifier at catalogue position `i` is "BS" followed by the number
/// `i + 1` written with three decimal digits.
pub proof fn lemma_bridge_numbering(i: int)
    requires
        0 <= i < BRIDGE_COUNT,
    ensures
        bridge_ids()[i].len() == 5,
        bridge_ids()[i][0] == 'B',
        bridge_ids()[i][1] == 'S',
        '0' <= bridge_ids()[i][2] <= '9',
        '0' <= bridge_ids()[i][3] <= '9',
        '0' <= bridge_ids()[i][4] <= '9',
        id_number(bridge_ids()[i]) == i + 1,
{
    reveal_strlit("BS001");
    reveal_strlit("BS002");
    reveal_strlit("BS003");
    reveal_strlit("BS004");
    reveal_strlit("BS005");
    reveal_strlit("BS006");
    reveal_strlit("BS007");
    reveal_strlit("BS008");
    reveal_strlit("BS009");
    reveal_strlit("BS010");
}

/// No two bridges of the catalogue share an identifier.
pub proof fn lemma_bridge_ids_distinct(i: int, j: int)
    requires
        0 <= i < BRIDGE_COUNT,
        0 <= j < BRIDGE_COUNT,
        i != j,
    ensures
        bridge_ids()[i] != bridge_ids()[j],
{
    reveal_strlit("BS001");
    reveal_strlit("BS002");
    reveal_strlit("BS003");
    reveal_strlit("BS004");
    reveal_strlit("BS005");
    reveal_strlit("BS006");
    reveal_strlit("BS007");
    reveal_strlit("BS008");
    reveal_strlit("BS009");
    reveal_strlit("BS010");
    assert(bridge_ids()[i][3] != bridge_ids()[j][3] || bridge_ids()[i][4] != bridge_ids()[j][4]);
}

} // verus!
