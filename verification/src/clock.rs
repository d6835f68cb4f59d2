//! Wall-clock timestamps in the `"<seconds>.<nanoseconds>Z"` form used across traces.
use vstd::prelude::*;
use crate::text::{decimal, push_decimal};

verus! {

/// Seconds and sub-second nanoseconds since the Unix epoch, or `None` when the
/// system clock reads earlier than the epoch.
///
/// Wraps `SystemTime::now().duration_since(UNIX_EPOCH)`. Nothing is promised of the
/// reading itself (it is the machine's clock); `Duration::subsec_nanos` is documented
/// to be below one second.
#[verifier::external_body]
fn unix_time_now() -> (r: Option<(u64, u32)>)
    ensures
        r matches Some((_, nanos)) ==> nanos < 1_000_000_000,
{
    match std::time::SystemTime::now().duration_since(std::time::UNIX_EPOCH) {
        Ok(d) => Some((d.as_secs(), d.subsec_nanos())),
        Err(_) => None,
    }
}

/// `n` rendered in decimal, left-padded with zeros to nine digits (`{:09}` for a
/// value below one billion).
pub open spec fn nine_digits(n: nat) -> Seq<char> {
    Seq::new((9 - decimal(n).len()) as nat, |i: int| '0') + decimal(n)
}

/// The timestamp text for `secs` seconds and `nanos` nanoseconds: `"<secs>.<nanos:09>Z"`.
pub open spec fn timestamp_text(secs: nat, nanos: nat) -> Seq<char> {
    decimal(secs) + seq!['.'] + nine_digits(nanos) + seq!['Z']
}

spec fn ten_pow(k: nat) -> nat
    decreases k,
{
    if k == 0 { 1 } else { 10 * ten_pow((k - 1) as nat) }
}

proof fn lemma_decimal_len_bound(n: nat, k: nat)
    requires
        n < ten_pow(k),
        k >= 1,
    ensures
        decimal(n).len() <= k,
    decreases k,
{
    if n < 10 {
    } else {
        assert(k >= 2) by {
            if k == 1 {
                assert(ten_pow(0) == 1);
            }
        }
        let b2 = ten_pow((k - 1) as nat);
        assert(n / 10 < b2) by (nonlinear_arith)
            requires n < 10 * b2;
        lemma_decimal_len_bound(n / 10, (k - 1) as nat);
    }
}

/// Renders a timestamp from a clock reading.
pub fn format_timestamp(secs: u64, nanos: u32) -> (s: String)
    requires
        nanos < 1_000_000_000,
    ensures
        s@ == timestamp_text(secs as nat, nanos as nat),
{
    let mut s = String::new();
    push_decimal(&mut s, secs);
    s.append(".");
    let mut digits = String::new();
    push_decimal(&mut digits, nanos as u64);
    proof {
        reveal_strlit(".");
        reveal_strlit("0");
        reveal_strlit("Z");
        assert(ten_pow(9) == 1_000_000_000) by {
            reveal_with_fuel(ten_pow, 10);
        }
        lemma_decimal_len_bound(nanos as nat, 9);
    }
    let width = digits.unicode_len();
    let mut pad: usize = width;
    let ghost start = s@;
    while pad < 9
        invariant
            width == decimal(nanos as nat).len(),
            width <= pad <= 9,
            s@ == start + Seq::new((pad - width) as nat, |i: int| '0'),
        decreases 9 - pad,
    {
        s.append("0");
        proof {
            reveal_strlit("0");
        }
        pad = pad + 1;
        assert(s@ =~= start + Seq::new((pad - width) as nat, |i: int| '0'));
    }
    s.append(digits.as_str());
    s.append("Z");
    assert(s@ =~= timestamp_text(secs as nat, nanos as nat));
    s
}

/// `s` is a timestamp `"<secs>.<nanos:09>Z"`.
pub open spec fn is_timestamp(s: Seq<char>) -> bool {
    exists|secs: nat, nanos: nat| nanos < 1_000_000_000 && s == timestamp_text(secs, nanos)
}

/// The current time as `"<secs>.<nanos:09>Z"`; `"0.000000000Z"` when the clock reads
/// before the epoch.
pub fn now_utc() -> (s: String)
    ensures
        is_timestamp(s@),
{
    match unix_time_now() {
        Some((secs, nanos)) => format_timestamp(secs, nanos),
        None => {
            let s = format_timestamp(0, 0);
            s
        },
    }
}

} // verus!

verus! {

/// The monotonic clock's instant type.
#[verifier::external_type_specification]
#[verifier::external_body]
pub struct ExInstant(std::time::Instant);

/// The current instant of the monotonic clock (`Instant::now`). Nothing is promised of
/// the reading.
#[verifier::external_body]
pub(crate) fn start_timer() -> (t: std::time::Instant) {
    std::time::Instant::now()
}

/// Whole milliseconds elapsed since `start` (`Instant::elapsed().as_millis()`, truncated to
/// 64 bits). Nothing is promised of the reading: it is the machine's clock.
#[verifier::external_body]
pub(crate) fn elapsed_ms(start: &std::time::Instant) -> (ms: u64) {
    start.elapsed().as_millis() as u64
}

} // verus!
