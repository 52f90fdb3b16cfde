use vstd::prelude::*;
use crate::models::{BRIDGE_COUNT, bridge_ids, bridge_id_at, id_number, lemma_bridge_ids_distinct, lemma_bridge_numbering};

verus! {

/// Position of the bridge `id` in the catalogue, if it is catalogued.
pub open spec fn bridge_position(id: Seq<char>) -> Option<usize> {
    if exists|i: int| 0 <= i < BRIDGE_COUNT && bridge_ids()[i] == id {
        Some((choose|i: int| 0 <= i < BRIDGE_COUNT && bridge_ids()[i] == id) as usize)
    } else {
        None
    }
}

/// Whether two string slices hold the same text.
fn same_text(a: &str, b: &str) -> (r: bool)
    ensures
        r == (a@ == b@),
{
    let x = a.to_owned();
    let y = b.to_owned();
    x == y
}

/// Finds the catalogue position of the bridge `bridge_id`.
pub fn lookup_bridge(bridge_id: &str) -> (r: Option<usize>)
    ensures
        r == bridge_position(bridge_id@),
        r matches Some(i) ==> i < BRIDGE_COUNT && bridge_ids()[i as int] == bridge_id@,
        r is None <==> forall|j: int| 0 <= j < BRIDGE_COUNT ==> bridge_ids()[j] != bridge_id@,
        r matches Some(i) ==> id_number(bridge_id@) == i + 1,
{
    let mut k: usize = 0;
    while k < BRIDGE_COUNT
        invariant
            k <= BRIDGE_COUNT,
            forall|j: int| 0 <= j < k ==> bridge_ids()[j] != bridge_id@,
        decreases BRIDGE_COUNT - k,
    {
        if same_text(bridge_id_at(k), bridge_id) {
            proof {
                lemma_bridge_numbering(k as int);
                let i = choose|i: int| 0 <= i < BRIDGE_COUNT && bridge_ids()[i] == bridge_id@;
                if i != k as int {
                    lemma_bridge_ids_distinct(i, k as int);
                }
            }
            return Some(k);
        }
        k = k + 1;
    }
    None
}

/// A bridge is found by its number: the identifier "BS" followed by the
/// three decimal digits of `n`, for `1 <= n <= BRIDGE_COUNT`, stands at
/// catalogue position `n - 1` (so "BS005" is found at position 4).
pub proof fn lemma_lookup_by_number(id: Seq<char>)
    requires
        id.len() == 5,
        id[0] == 'B',
        id[1] == 'S',
        '0' <= id[2] <= '9',
        '0' <= id[3] <= '9',
        '0' <= id[4] <= '9',
        1 <= id_number(id) <= BRIDGE_COUNT,
    ensures
        bridge_position(id) == Some((id_number(id) - 1) as usize),
{
    let i = id_number(id) - 1;
    lemma_bridge_numbering(i);
    let b = bridge_ids()[i];
    assert(b[2] == id[2] && b[3] == id[3] && b[4] == id[4]);
    assert(b =~= id);
    assert(exists|k: int| 0 <= k < BRIDGE_COUNT && bridge_ids()[k] == id);
    let c: int = bridge_position(id)->0 as int;
    assert(0 <= c < BRIDGE_COUNT && bridge_ids()[c] == id);
    if c != i {
        lemma_bridge_ids_distinct(i, c);
    }
}

/// Calls `chrono::Utc::now` and returns the instant as whole seconds since
/// the Unix epoch (`DateTime::timestamp`) and the nanoseconds past that second
/// (`DateTime::timestamp_subsec_nanos`). Nothing is stated of the value: it
/// depends on the system clock.
#[verifier::external_body]
fn now_parts() -> (i64, u32) {
    let now = chrono::Utc::now();
    (now.timestamp(), now.timestamp_subsec_nanos())
}

/// Query naming a bridge.
pub struct BridgeQuery {
    pub bridge_id: String,
}

/// Envelope of every API answer: either data or an error message, with the
/// time the answer was made.
pub struct ApiResponse<T> {
    pub success: bool,
    pub data: Option<T>,
    pub error: Option<String>,
    /// Whole seconds since the Unix epoch, UTC.
    pub timestamp_secs: i64,
    /// Nanoseconds past `timestamp_secs`.
    pub timestamp_subsec_nanos: u32,
}

impl<T> ApiResponse<T> {
    /// A successful answer carrying `data`, dated at the instant
    /// `timestamp_secs` seconds and `timestamp_subsec_nanos` nanoseconds after
    /// the Unix epoch.
    pub fn ok_at(data: T, timestamp_secs: i64, timestamp_subsec_nanos: u32) -> (r: Self)
        ensures
            r.success,
            r.data == Some(data),
            r.error is None,
            r.timestamp_secs == timestamp_secs,
            r.timestamp_subsec_nanos == timestamp_subsec_nanos,
    {
        ApiResponse { success: true, data: Some(data), error: None, timestamp_secs, timestamp_subsec_nanos }
    }

    /// A failed answer carrying the message `msg`, dated at the given instant.
    pub fn err_at(msg: &str, timestamp_secs: i64, timestamp_subsec_nanos: u32) -> (r: Self)
        ensures
            !r.success,
            r.data is None,
            r.error matches Some(e) && e@ == msg@,
            r.timestamp_secs == timestamp_secs,
            r.timestamp_subsec_nanos == timestamp_subsec_nanos,
    {
        ApiResponse { success: false, data: None, error: Some(msg.to_owned()), timestamp_secs, timestamp_subsec_nanos }
    }

    /// A successful answer carrying `data`, dated by a reading of the system
    /// clock.
    pub fn ok(data: T) -> (r: Self)
        ensures
            r.success,
            r.data == Some(data),
            r.error is None,
    {
        let (timestamp_secs, timestamp_subsec_nanos) = now_parts();
        Self::ok_at(data, timestamp_secs, timestamp_subsec_nanos)
    }

    /// A failed answer carrying the message `msg`, dated by a reading of the
    /// system clock.
    pub fn err(msg: &str) -> (r: Self)
        ensures
            !r.success,
            r.data is None,
            r.error matches Some(e) && e@ == msg@,
    {
        let (timestamp_secs, timestamp_subsec_nanos) = now_parts();
        Self::err_at(msg, timestamp_secs, timestamp_subsec_nanos)
    }
}


/// How an optimisation request ended.
#[derive(Debug, Clone, Copy, PartialEq, Eq, Structural)]
pub enum OptimizationOutcome {
    /// The request named a bridge that is not catalogued.
    UnknownBridge,
    /// The optimisation worker's queue refused the request.
    QueueClosed,
    /// The worker answered with a result.
    Finished,
    /// The worker dropped the answer channel without answering.
    ResultChannelClosed,
    /// No answer came within the waiting time.
    TimedOut,
}

/// The HTTP answer to an optimisation request, and whether the request must
/// be withdrawn from the pending registry.
pub struct OptimizationReply {
    pub status: u16,
    pub error: Option<&'static str>,
    pub withdraw_request: bool,
}

pub open spec fn optimization_reply_spec(outcome: OptimizationOutcome) -> (u16, Option<Seq<char>>, bool) {
    match outcome {
        OptimizationOutcome::UnknownBridge => (404, Some("Bridge not found"@), false),
        OptimizationOutcome::QueueClosed => (500, Some("Optimization service unavailable"@), true),
        OptimizationOutcome::Finished => (200, None, false),
        OptimizationOutcome::ResultChannelClosed => (500, Some("Optimization result channel closed"@), false),
        OptimizationOutcome::TimedOut => (408, Some("Optimization timed out after 120s"@), true),
    }
}

/// Decides the answer to an optimisation request from how it ended.
pub fn optimization_reply(outcome: OptimizationOutcome) -> (r: OptimizationReply)
    ensures
        r.status == optimization_reply_spec(outcome).0,
        r.error is Some == optimization_reply_spec(outcome).1 is Some,
        r.error matches Some(e) ==> optimization_reply_spec(outcome).1 == Some(e@),
        r.withdraw_request == optimization_reply_spec(outcome).2,
{
    match outcome {
        OptimizationOutcome::UnknownBridge =>
            OptimizationReply { status: 404, error: Some("Bridge not found"), withdraw_request: false },
        OptimizationOutcome::QueueClosed =>
            OptimizationReply { status: 500, error: Some("Optimization service unavailable"), withdraw_request: true },
        OptimizationOutcome::Finished =>
            OptimizationReply { status: 200, error: None, withdraw_request: false },
        OptimizationOutcome::ResultChannelClosed =>
            OptimizationReply { status: 500, error: Some("Optimization result channel closed"), withdraw_request: false },
        OptimizationOutcome::TimedOut =>
            OptimizationReply { status: 408, error: Some("Optimization timed out after 120s"), withdraw_request: true },
    }
}

/// Every optimisation request that ends without the worker having taken
/// it out of the registry (a refused queue or a timeout) is withdrawn, and
/// only a finished request is answered with success.
pub proof fn lemma_abandoned_requests_withdrawn(outcome: OptimizationOutcome)
    ensures
        (outcome == OptimizationOutcome::QueueClosed || outcome == OptimizationOutcome::TimedOut)
            ==> optimization_reply_spec(outcome).2,
        optimization_reply_spec(outcome).0 == 200 <==> outcome == OptimizationOutcome::Finished,
        optimization_reply_spec(outcome).1 is None <==> outcome == OptimizationOutcome::Finished,
{
}

} // verus!
