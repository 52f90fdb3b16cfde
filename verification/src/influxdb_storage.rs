use vstd::prelude::*;

verus! {

/// Character of a decimal digit.
pub open spec fn digit_char(d: nat) -> char {
    if d == 0 { '0' } else if d == 1 { '1' } else if d == 2 { '2' } else if d == 3 { '3' }
    else if d == 4 { '4' } else if d == 5 { '5' } else if d == 6 { '6' } else if d == 7 { '7' }
    else if d == 8 { '8' } else { '9' }
}

/// Decimal representation of `n`, without sign or leading zeros.
pub open spec fn decimal(n: nat) -> Seq<char>
    decreases n,
{
    if n < 10 {
        seq![digit_char(n)]
    } else {
        decimal(n / 10).push(digit_char(n % 10))
    }
}

/// The number that a string of decimal digits reads as: each character
/// stands for its distance from '0', the last one counting units.
pub open spec fn numeral_value(s: Seq<char>) -> int
    decreases s.len(),
{
    if s.len() == 0 {
        0
    } else {
        numeral_value(s.drop_last()) * 10 + (s.last() as int - '0' as int)
    }
}

/// Whether every character of `s` is one of the digits '0' to '9'.
pub open spec fn all_digits(s: Seq<char>) -> bool {
    forall|i: int| 0 <= i < s.len() ==> '0' <= #[trigger] s[i] <= '9'
}

/// `decimal(n)` is the ordinary base-10 numeral of `n`: a non-empty string of
/// digits that reads back as `n`, with no leading zero unless `n` is 0.
pub proof fn lemma_decimal_numeral(n: nat)
    ensures
        decimal(n).len() >= 1,
        all_digits(decimal(n)),
        numeral_value(decimal(n)) == n,
        n >= 10 ==> decimal(n)[0] != '0',
        n < 10 ==> decimal(n).len() == 1,
    decreases n,
{
    if n < 10 {
        let d = decimal(n);
        assert(d.drop_last() =~= Seq::<char>::empty());
        assert(numeral_value(d.drop_last()) == 0);
    } else {
        let q = (n / 10) as nat;
        lemma_decimal_numeral(q);
        let d = decimal(n);
        assert(d.drop_last() =~= decimal(q));
        assert(d.last() == digit_char((n % 10) as nat));
        assert(numeral_value(d) == numeral_value(decimal(q)) * 10 + (n % 10));
        assert(d[0] == decimal(q)[0]);
    }
}

fn digit_str(d: usize) -> (s: &'static str)
    requires
        d < 10,
    ensures
        s@ == seq![digit_char(d as nat)],
{
    proof {
        reveal_strlit("0"); reveal_strlit("1"); reveal_strlit("2"); reveal_strlit("3");
        reveal_strlit("4"); reveal_strlit("5"); reveal_strlit("6"); reveal_strlit("7");
        reveal_strlit("8"); reveal_strlit("9");
    }
    match d {
        0 => "0",
        1 => "1",
        2 => "2",
        3 => "3",
        4 => "4",
        5 => "5",
        6 => "6",
        7 => "7",
        8 => "8",
        _ => "9",
    }
}

/// Appends the decimal representation of `n` to `out`.
fn append_decimal(out: &mut String, n: usize)
    ensures
        final(out)@ == old(out)@ + decimal(n as nat),
    decreases n,
{
    if n >= 10 {
        append_decimal(out, n / 10);
    }
    out.append(digit_str(n % 10));
    proof {
        if n >= 10 {
            assert(decimal(n as nat) == decimal((n / 10) as nat).push(digit_char((n % 10) as nat)));
        }
    }
}

/// Text of the query for the `limit` latest wind records of `bridge_id`.
pub open spec fn recent_wind_query_text(bridge_id: Seq<char>, limit: nat) -> Seq<char> {
    "SELECT time, bridge_id, sensor_id, wind_speed, wind_direction, attack_angle, temperature, humidity FROM wind_data WHERE bridge_id = '"@
        + bridge_id + "' ORDER BY time DESC LIMIT "@ + decimal(limit)
}

/// Builds the query for the `limit` latest wind records of `bridge_id`.
pub fn recent_wind_query(bridge_id: &str, limit: usize) -> (q: String)
    ensures
        q@ == recent_wind_query_text(bridge_id@, limit as nat),
{
    let mut q = String::new();
    q.append("SELECT time, bridge_id, sensor_id, wind_speed, wind_direction, attack_angle, temperature, humidity FROM wind_data WHERE bridge_id = '");
    q.append(bridge_id);
    q.append("' ORDER BY time DESC LIMIT ");
    append_decimal(&mut q, limit);
    q
}

/// The query for the latest wind records ends in the limit written in
/// decimal: what follows "LIMIT " is a string of digits that reads back as
/// `limit` (so a limit of 100 gives "... LIMIT 100").
pub proof fn lemma_recent_wind_query_limit(bridge_id: Seq<char>, limit: nat)
    ensures
        ({
            let q = recent_wind_query_text(bridge_id, limit);
            let head = "SELECT time, bridge_id, sensor_id, wind_speed, wind_direction, attack_angle, temperature, humidity FROM wind_data WHERE bridge_id = '"@
                + bridge_id + "' ORDER BY time DESC LIMIT "@;
            &&& q.subrange(0, head.len() as int) == head
            &&& all_digits(q.subrange(head.len() as int, q.len() as int))
            &&& numeral_value(q.subrange(head.len() as int, q.len() as int)) == limit
        }),
{
    let q = recent_wind_query_text(bridge_id, limit);
    let head = "SELECT time, bridge_id, sensor_id, wind_speed, wind_direction, attack_angle, temperature, humidity FROM wind_data WHERE bridge_id = '"@
        + bridge_id + "' ORDER BY time DESC LIMIT "@;
    lemma_decimal_numeral(limit);
    assert(q =~= head + decimal(limit));
    assert(q.subrange(0, head.len() as int) =~= head);
    assert(q.subrange(head.len() as int, q.len() as int) =~= decimal(limit));
}

/// Text of the query for the aerodynamic results of `bridge_id` between the
/// instants `start` and `end` (both included), given as formatted times.
pub open spec fn aerodynamic_history_query_text(bridge_id: Seq<char>, start: Seq<char>, end: Seq<char>) -> Seq<char> {
    "SELECT time, bridge_id, wind_speed, attack_angle, aerodynamic_damping, vibration_amplitude, flutter_critical_speed, flutter_margin, is_safe FROM aerodynamic_result WHERE bridge_id = '"@
        + bridge_id + "' AND time >= '"@ + start + "' AND time <= '"@ + end + "'"@
}

/// Builds the query for the aerodynamic results of `bridge_id` between the
/// formatted instants `start` and `end`.
pub fn aerodynamic_history_query(bridge_id: &str, start: &str, end: &str) -> (q: String)
    ensures
        q@ == aerodynamic_history_query_text(bridge_id@, start@, end@),
{
    let mut q = String::new();
    q.append("SELECT time, bridge_id, wind_speed, attack_angle, aerodynamic_damping, vibration_amplitude, flutter_critical_speed, flutter_margin, is_safe FROM aerodynamic_result WHERE bridge_id = '");
    q.append(bridge_id);
    q.append("' AND time >= '");
    q.append(start);
    q.append("' AND time <= '");
    q.append(end);
    q.append("'");
    q
}

} // verus!
