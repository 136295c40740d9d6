//! Allocation of connection ids, with optional reset-by-count and
//! reset-by-time policies, and the parsers for the interval and count
//! configuration strings.

use vstd::prelude::*;
use vstd::string::*;
use crate::text::{
    all_digits,
    char_is_digit,
    digits_val,
    is_digit,
    lemma_digits_val_extend,
    lemma_digits_val_push,
    secs2_string,
    spec_dec,
    spec_secs2,
    spec_trim,
    trim_of,
    u64_to_string,
};

verus! {

/// Milliseconds from `last` to `now`, zero if the clock went backwards.
pub open spec fn spec_elapsed_ms(last: u64, now: u64) -> u64 {
    if now >= last {
        (now - last) as u64
    } else {
        0
    }
}

/// Fetch-and-increment successor: wraps to zero at `u64::MAX`.
pub open spec fn wrap_inc(x: u64) -> u64 {
    if x == u64::MAX {
        0
    } else {
        (x + 1) as u64
    }
}

/// Relies on `std::time::SystemTime::now` and
/// `SystemTime::duration_since(UNIX_EPOCH)`: wall-clock milliseconds since
/// the Unix epoch, zero if the clock reads before the epoch. Nothing is
/// promised of the value; every caller states what holds whatever comes
/// back.
#[verifier::external_body]
fn now_millis() -> u64 {
    match std::time::SystemTime::now().duration_since(std::time::UNIX_EPOCH) {
        Ok(d) => d.as_millis() as u64,
        Err(_) => 0,
    }
}

/// The record of one counter reset: its sequence number, which of the two
/// triggers fired, the counter value that was live when it fired, and the
/// time since the previous reset.
#[derive(Debug, Clone, Copy, PartialEq, Eq, Structural)]
pub struct ResetEvent {
    pub sequence: u64,
    pub by_count: bool,
    pub by_time: bool,
    pub last_id: u64,
    pub elapsed_millis: u64,
}

impl ResetEvent {
    /// The diagnostic line recording this reset.
    pub open spec fn spec_describe(&self) -> Seq<char> {
        "Connection ID reset #"@ + spec_dec(self.sequence as nat) + ": "@ + (if self.by_count
            && self.by_time {
            "both count and time triggered"@
        } else if self.by_count {
            "count threshold reached"@
        } else if self.by_time {
            "time interval elapsed"@
        } else {
            "unknown trigger"@
        }) + " (last_id: "@ + spec_dec(self.last_id as nat) + ", elapsed: "@ + spec_secs2(
            self.elapsed_millis as nat,
        ) + "s)"@
    }

    pub fn describe(&self) -> (line: String)
        ensures
            line@ == self.spec_describe(),
    {
        let mut s = String::from_str("Connection ID reset #");
        s.append(u64_to_string(self.sequence).as_str());
        s.append(": ");
        if self.by_count && self.by_time {
            s.append("both count and time triggered");
        } else if self.by_count {
            s.append("count threshold reached");
        } else if self.by_time {
            s.append("time interval elapsed");
        } else {
            s.append("unknown trigger");
        }
        s.append(" (last_id: ");
        s.append(u64_to_string(self.last_id).as_str());
        s.append(", elapsed: ");
        s.append(secs2_string(self.elapsed_millis).as_str());
        s.append("s)");
        proof {
            assert(s@ =~= self.spec_describe());
        }
        s
    }
}

/// Allocator of connection ids: a fetch-and-increment counter that restarts
/// at zero when the configured count threshold is reached or the configured
/// interval has elapsed since the last reset. With neither policy configured
/// the counter only ever increments.
pub struct ConnectionIdManager {
    pub counter: u64,
    pub last_reset_millis: u64,
    pub last_reset_count: u64,
    pub reset_interval_millis: Option<u64>,
    pub reset_threshold: Option<u64>,
}

impl ConnectionIdManager {
    /// The count policy fires: a threshold is configured and the live
    /// counter has reached it.
    pub open spec fn count_due(&self) -> bool {
        match self.reset_threshold {
            Some(t) => self.counter >= t,
            None => false,
        }
    }

    /// The time policy fires at `now_millis`: an interval is configured and
    /// at least that long has passed since the last reset.
    pub open spec fn time_due(&self, now_millis: u64) -> bool {
        match self.reset_interval_millis {
            Some(iv) => spec_elapsed_ms(self.last_reset_millis, now_millis) >= iv,
            None => false,
        }
    }

    pub open spec fn reset_due(&self, now_millis: u64) -> bool {
        self.count_due() || self.time_due(now_millis)
    }

    /// A manager whose epoch for the time policy is `now_millis`.
    pub fn new_at(
        reset_interval_millis: Option<u64>,
        reset_threshold: Option<u64>,
        now_millis: u64,
    ) -> (m: Self)
        ensures
            m.counter == 0,
            m.last_reset_millis == now_millis,
            m.last_reset_count == 0,
            m.reset_interval_millis == reset_interval_millis,
            m.reset_threshold == reset_threshold,
    {
        ConnectionIdManager {
            counter: 0,
            last_reset_millis: now_millis,
            last_reset_count: 0,
            reset_interval_millis,
            reset_threshold,
        }
    }

    /// A manager whose epoch for the time policy is the present moment.
    pub fn new(reset_interval_millis: Option<u64>, reset_threshold: Option<u64>) -> (m: Self)
        ensures
            m.counter == 0,
            m.last_reset_count == 0,
            m.reset_interval_millis == reset_interval_millis,
            m.reset_threshold == reset_threshold,
    {
        let now = now_millis();
        Self::new_at(reset_interval_millis, reset_threshold, now)
    }

    /// Whether a call observing `current_count` at `now_millis` must reset
    /// before allocating.
    pub fn should_reset(&self, current_count: u64, now_millis: u64) -> (b: bool)
        ensures
            b == ((match self.reset_threshold {
                Some(t) => current_count >= t,
                None => false,
            }) || self.time_due(now_millis)),
    {
        let by_count = match self.reset_threshold {
            Some(t) => current_count >= t,
            None => false,
        };
        if by_count {
            return true;
        }
        match self.reset_interval_millis {
            Some(iv) => {
                let elapsed: u64 = if now_millis >= self.last_reset_millis {
                    now_millis - self.last_reset_millis
                } else {
                    0
                };
                elapsed >= iv
            },
            None => false,
        }
    }

    /// Restart the counter at zero, stamp the reset time, and return the
    /// record of the reset. `last_id` is the counter value that triggered
    /// it.
    pub fn reset(&mut self, last_id: u64, now_millis: u64) -> (ev: ResetEvent)
        ensures
            final(self).counter == 0,
            final(self).last_reset_millis == now_millis,
            final(self).last_reset_count == wrap_inc(old(self).last_reset_count),
            final(self).reset_interval_millis == old(self).reset_interval_millis,
            final(self).reset_threshold == old(self).reset_threshold,
            ev.sequence == final(self).last_reset_count,
            ev.by_count == (match old(self).reset_threshold {
                Some(t) => last_id >= t,
                None => false,
            }),
            ev.by_time == (match old(self).reset_interval_millis {
                Some(iv) => spec_elapsed_ms(old(self).last_reset_millis, now_millis) >= iv,
                None => false,
            }),
            ev.last_id == last_id,
            ev.elapsed_millis == spec_elapsed_ms(old(self).last_reset_millis, now_millis),
    {
        let elapsed: u64 = if now_millis >= self.last_reset_millis {
            now_millis - self.last_reset_millis
        } else {
            0
        };
        let seqn: u64 = if self.last_reset_count == u64::MAX {
            0
        } else {
            self.last_reset_count + 1
        };
        self.last_reset_count = seqn;
        let by_count = match self.reset_threshold {
            Some(t) => last_id >= t,
            None => false,
        };
        let by_time = match self.reset_interval_millis {
            Some(iv) => elapsed >= iv,
            None => false,
        };
        self.counter = 0;
        self.last_reset_millis = now_millis;
        ResetEvent { sequence: seqn, by_count, by_time, last_id, elapsed_millis: elapsed }
    }

    /// Allocate the next id as of `now_millis`. If either reset policy is
    /// due, the counter restarts and this call returns id 0 together with
    /// the record of the reset; otherwise it returns the pre-increment
    /// counter value, so the first call returns 0, the second 1, and so on.
    pub fn next_id_at(&mut self, now_millis: u64) -> (r: (u64, Option<ResetEvent>))
        ensures
            final(self).reset_interval_millis == old(self).reset_interval_millis,
            final(self).reset_threshold == old(self).reset_threshold,
            old(self).reset_due(now_millis) ==> {
                &&& r.0 == 0
                &&& final(self).counter == 1
                &&& final(self).last_reset_millis == now_millis
                &&& final(self).last_reset_count == wrap_inc(old(self).last_reset_count)
                &&& r.1 matches Some(ev) && ev.sequence == wrap_inc(old(self).last_reset_count)
                    && ev.by_count == old(self).count_due() && ev.by_time == old(self).time_due(
                    now_millis,
                ) && ev.last_id == old(self).counter && ev.elapsed_millis == spec_elapsed_ms(
                    old(self).last_reset_millis,
                    now_millis,
                )
            },
            !old(self).reset_due(now_millis) ==> {
                &&& r.0 == old(self).counter
                &&& final(self).counter == wrap_inc(old(self).counter)
                &&& final(self).last_reset_millis == old(self).last_reset_millis
                &&& final(self).last_reset_count == old(self).last_reset_count
                &&& r.1 is None
            },
    {
        let current = self.counter;
        if self.should_reset(current, now_millis) {
            let ev = self.reset(current, now_millis);
            self.counter = 1;
            (0, Some(ev))
        } else {
            let id = self.counter;
            self.counter = if id == u64::MAX {
                0
            } else {
                id + 1
            };
            (id, None)
        }
    }

    /// Allocate the next id as of the present moment. Whatever the clock
    /// reads: a due count threshold always resets and returns 0; with no
    /// interval configured and the threshold not due, this is a plain
    /// fetch-and-increment; with an interval configured it is one of the
    /// two.
    pub fn next_id(&mut self) -> (id: u64)
        ensures
            final(self).reset_interval_millis == old(self).reset_interval_millis,
            final(self).reset_threshold == old(self).reset_threshold,
            old(self).count_due() ==> {
                &&& id == 0
                &&& final(self).counter == 1
                &&& final(self).last_reset_count == wrap_inc(old(self).last_reset_count)
            },
            !old(self).count_due() && old(self).reset_interval_millis is None ==> {
                &&& id == old(self).counter
                &&& final(self).counter == wrap_inc(old(self).counter)
                &&& final(self).last_reset_millis == old(self).last_reset_millis
                &&& final(self).last_reset_count == old(self).last_reset_count
            },
            !old(self).count_due() && old(self).reset_interval_millis is Some ==> ({
                &&& id == 0
                &&& final(self).counter == 1
                &&& final(self).last_reset_count == wrap_inc(old(self).last_reset_count)
            } || {
                &&& id == old(self).counter
                &&& final(self).counter == wrap_inc(old(self).counter)
                &&& final(self).last_reset_millis == old(self).last_reset_millis
                &&& final(self).last_reset_count == old(self).last_reset_count
            }),
    {
        let now = now_millis();
        let (id, _ev) = self.next_id_at(now);
        id
    }
}

/// Seconds per unit letter of the interval grammar, case-insensitively:
/// `d`ays, `h`ours, `m`inutes, `s`econds.
pub open spec fn dur_unit_mult(c: char) -> Option<u64> {
    if c == 'd' || c == 'D' {
        Some(86400u64)
    } else if c == 'h' || c == 'H' {
        Some(3600u64)
    } else if c == 'm' || c == 'M' {
        Some(60u64)
    } else if c == 's' || c == 'S' {
        Some(1u64)
    } else {
        None
    }
}

/// One step of the interval grammar: `t` is the trimmed input, `i` the
/// position reached, `run_start` the start of the digit run in progress, and
/// `total` the seconds accumulated so far. The grammar is a sequence of
/// digit-run/unit pairs; the result is the summed seconds, or the error for
/// the first offence.
pub open spec fn spec_dur_step(t: Seq<char>, i: int, run_start: int, total: u64) -> Result<
    u64,
    Seq<char>,
>
    recommends
        0 <= run_start <= i <= t.len(),
    decreases t.len() - i,
{
    if i >= t.len() {
        if run_start < i {
            Err("Duration must include a unit (d/h/m/s)"@)
        } else if total == 0 {
            Err("Duration must be greater than 0"@)
        } else {
            Ok(total)
        }
    } else {
        let c = t[i];
        if is_digit(c) {
            spec_dur_step(t, i + 1, run_start, total)
        } else if run_start == i {
            Err("Invalid duration format: missing number before '"@ + seq![c] + "'"@)
        } else {
            let ds = t.subrange(run_start, i);
            if digits_val(ds) > u64::MAX {
                Err("Invalid number: "@ + ds)
            } else {
                match dur_unit_mult(c) {
                    Some(mult) => {
                        if digits_val(ds) * mult + total > u64::MAX {
                            Err("Duration value too large"@)
                        } else {
                            spec_dur_step(
                                t,
                                i + 1,
                                i + 1,
                                (total + (digits_val(ds) as u64) * mult) as u64,
                            )
                        }
                    },
                    None => Err("Invalid time unit: '"@ + seq![c] + "'"@),
                }
            }
        }
    }
}

/// What `parse_duration` returns on the trimmed input `t`: the summed
/// seconds of the digit-run/unit pairs, or the error for the first offence.
pub open spec fn spec_parse_duration(t: Seq<char>) -> Result<u64, Seq<char>> {
    if t.len() == 0 {
        Err("Empty duration string"@)
    } else {
        spec_dur_step(t, 0, 0, 0u64)
    }
}

fn unit_mult_of(c: char) -> (o: Option<u64>)
    ensures
        o == dur_unit_mult(c),
{
    if c == 'd' || c == 'D' {
        Some(86400)
    } else if c == 'h' || c == 'H' {
        Some(3600)
    } else if c == 'm' || c == 'M' {
        Some(60)
    } else if c == 's' || c == 'S' {
        Some(1)
    } else {
        None
    }
}

/// Parse a human-friendly interval such as `1d12h` into whole seconds: one
/// or more digit-run/unit pairs with no separators, units `d`, `h`, `m`,
/// `s`, case-insensitive, summed. A bare number, an empty string and a zero
/// total are errors, as is a sum beyond `u64::MAX` seconds.
pub fn parse_duration(s: &str) -> (r: Result<u64, String>)
    ensures
        ({
            let sr = spec_parse_duration(spec_trim(s@));
            match r {
                Ok(v) => sr matches Ok(w) && v == w,
                Err(m) => sr matches Err(w) && m@ == w,
            }
        }),
{
    let t = trim_of(s);
    let n = t.unicode_len();
    if n == 0 {
        return Err(String::from_str("Empty duration string"));
    }
    let mut i: usize = 0;
    let mut run_start: usize = 0;
    let mut total: u64 = 0;
    let mut run_val: Option<u64> = Some(0);
    proof {
        assert(t@.subrange(0, 0) =~= Seq::<char>::empty());
    }
    while i < n
        invariant
            t@ == spec_trim(s@),
            n == t@.len(),
            n > 0,
            0 <= run_start <= i <= n,
            (match run_val {
                Some(v) => digits_val(t@.subrange(run_start as int, i as int)) == v,
                None => digits_val(t@.subrange(run_start as int, i as int)) > u64::MAX,
            }),
            spec_dur_step(t@, i as int, run_start as int, total) == spec_dur_step(t@, 0, 0, 0u64),
        decreases n - i,
    {
        let c = t.get_char(i);
        if char_is_digit(c) {
            let d: u64 = ((c as u32) - 48) as u64;
            proof {
                lemma_digits_val_push(t@.subrange(run_start as int, i as int), c);
                assert(t@.subrange(run_start as int, (i + 1) as int) =~= t@.subrange(
                    run_start as int,
                    i as int,
                ).push(t@[i as int]));
            }
            run_val = match run_val {
                Some(v) => match v.checked_mul(10) {
                    Some(x) => x.checked_add(d),
                    None => None,
                },
                None => None,
            };
            i = i + 1;
        } else {
            if run_start == i {
                let mut m = String::from_str("Invalid duration format: missing number before '");
                m.append(t.substring_char(i, i + 1));
                m.append("'");
                proof {
                    assert(t@.subrange(i as int, (i + 1) as int) =~= seq![t@[i as int]]);
                }
                return Err(m);
            }
            match run_val {
                None => {
                    let mut m = String::from_str("Invalid number: ");
                    m.append(t.substring_char(run_start, i));
                    return Err(m);
                },
                Some(num) => {
                    match unit_mult_of(c) {
                        None => {
                            let mut m = String::from_str("Invalid time unit: '");
                            m.append(t.substring_char(i, i + 1));
                            m.append("'");
                            proof {
                                assert(t@.subrange(i as int, (i + 1) as int) =~= seq![
                                    t@[i as int],
                                ]);
                            }
                            return Err(m);
                        },
                        Some(mult) => {
                            let amt_opt = match num.checked_mul(mult) {
                                Some(amt) => total.checked_add(amt),
                                None => None,
                            };
                            match amt_opt {
                                None => {
                                    return Err(String::from_str("Duration value too large"));
                                },
                                Some(nt) => {
                                    total = nt;
                                    i = i + 1;
                                    run_start = i;
                                    run_val = Some(0);
                                    proof {
                                        assert(t@.subrange(i as int, i as int)
                                            =~= Seq::<char>::empty());
                                    }
                                },
                            }
                        },
                    }
                },
            }
        }
    }
    if run_start < n {
        return Err(String::from_str("Duration must include a unit (d/h/m/s)"));
    }
    if total == 0 {
        return Err(String::from_str("Duration must be greater than 0"));
    }
    Ok(total)
}

/// Multiplier per count-suffix letter, case-insensitively: `k` thousand,
/// `m` million, `g` billion.
pub open spec fn count_suffix_mult(c: char) -> Option<u64> {
    if c == 'k' || c == 'K' {
        Some(1000u64)
    } else if c == 'm' || c == 'M' {
        Some(1000000u64)
    } else if c == 'g' || c == 'G' {
        Some(1000000000u64)
    } else {
        None
    }
}

/// Where the digits of a count's number part begin: after one optional
/// leading `+`.
pub open spec fn spec_count_num_start(p: Seq<char>) -> int {
    if p.len() > 0 && p[0] == '+' {
        1
    } else {
        0
    }
}

/// The number part of a count is valid as a `u64`: at least one digit after
/// the optional `+`, digits only, value within range.
pub open spec fn spec_count_num_valid(p: Seq<char>) -> bool {
    let s = spec_count_num_start(p);
    p.len() > s && all_digits(p.subrange(s, p.len() as int)) && digits_val(
        p.subrange(s, p.len() as int),
    ) <= u64::MAX
}

pub open spec fn spec_count_num_val(p: Seq<char>) -> nat {
    digits_val(p.subrange(spec_count_num_start(p), p.len() as int))
}

/// What `parse_count` returns on the trimmed input `t`: the number part
/// scaled by the optional suffix, or the error for the first offence.
pub open spec fn spec_parse_count(t: Seq<char>) -> Result<u64, Seq<char>> {
    if t.len() == 0 {
        Err("Empty count string"@)
    } else {
        let ne: int = match count_suffix_mult(t.last()) {
            Some(_) => t.len() - 1,
            None => t.len() as int,
        };
        let mult: u64 = match count_suffix_mult(t.last()) {
            Some(m) => m,
            None => 1u64,
        };
        let p = t.subrange(0, ne);
        if !spec_count_num_valid(p) {
            Err("Invalid number: "@ + p)
        } else if spec_count_num_val(p) == 0 {
            Err("Count must be greater than 0"@)
        } else if spec_count_num_val(p) * mult > u64::MAX {
            Err("Count value too large"@)
        } else {
            Ok((spec_count_num_val(p) * mult) as u64)
        }
    }
}

fn count_mult_of(c: char) -> (o: Option<u64>)
    ensures
        o == count_suffix_mult(c),
{
    if c == 'k' || c == 'K' {
        Some(1000)
    } else if c == 'm' || c == 'M' {
        Some(1000000)
    } else if c == 'g' || c == 'G' {
        Some(1000000000)
    } else {
        None
    }
}

/// Parse a count such as `100k`: an integer with an optional `k`/`m`/`g`
/// suffix scaling it by a thousand, a million or a billion,
/// case-insensitive. Zero, an empty string, a malformed number and a scaled
/// value beyond `u64::MAX` are errors.
pub fn parse_count(s: &str) -> (r: Result<u64, String>)
    ensures
        ({
            let sr = spec_parse_count(spec_trim(s@));
            match r {
                Ok(v) => sr matches Ok(w) && v == w,
                Err(m) => sr matches Err(w) && m@ == w,
            }
        }),
{
    let t = trim_of(s);
    let n = t.unicode_len();
    if n == 0 {
        return Err(String::from_str("Empty count string"));
    }
    let lastc = t.get_char(n - 1);
    let num_end: usize;
    let mult: u64;
    match count_mult_of(lastc) {
        Some(m) => {
            num_end = n - 1;
            mult = m;
        },
        None => {
            num_end = n;
            mult = 1;
        },
    }
    let ghost p: Seq<char> = t@.subrange(0, num_end as int);
    let start: usize = if num_end > 0 && t.get_char(0) == '+' {
        1
    } else {
        0
    };
    proof {
        assert(num_end > 0 ==> p[0] == t@[0]);
        assert(spec_count_num_start(p) == start);
        assert(p.subrange(start as int, p.len() as int) =~= t@.subrange(
            start as int,
            num_end as int,
        ));
    }
    if num_end <= start {
        let mut m = String::from_str("Invalid number: ");
        m.append(t.substring_char(0, num_end));
        return Err(m);
    }
    let mut j: usize = start;
    let mut acc: u64 = 0;
    proof {
        assert(t@.subrange(start as int, start as int) =~= Seq::<char>::empty());
    }
    while j < num_end
        invariant
            t@ == spec_trim(s@),
            n == t@.len(),
            0 < n,
            num_end <= n,
            start <= j <= num_end,
            start < num_end,
            num_end as int == (match count_suffix_mult(t@.last()) {
                Some(_) => t@.len() - 1,
                None => t@.len() as int,
            }),
            mult == (match count_suffix_mult(t@.last()) {
                Some(m) => m,
                None => 1u64,
            }),
            p == t@.subrange(0, num_end as int),
            spec_count_num_start(p) == start,
            p.subrange(start as int, p.len() as int) == t@.subrange(start as int, num_end as int),
            all_digits(t@.subrange(start as int, j as int)),
            acc == digits_val(t@.subrange(start as int, j as int)),
        decreases num_end - j,
    {
        let c = t.get_char(j);
        if !char_is_digit(c) {
            proof {
                let sub = t@.subrange(start as int, num_end as int);
                assert(sub[j - start] == t@[j as int]);
                assert(!all_digits(sub));
            }
            let mut m = String::from_str("Invalid number: ");
            m.append(t.substring_char(0, num_end));
            return Err(m);
        }
        let d: u64 = ((c as u32) - 48) as u64;
        proof {
            lemma_digits_val_push(t@.subrange(start as int, j as int), c);
            assert(t@.subrange(start as int, (j + 1) as int) =~= t@.subrange(
                start as int,
                j as int,
            ).push(t@[j as int]));
        }
        let acc_opt = match acc.checked_mul(10) {
            Some(x) => x.checked_add(d),
            None => None,
        };
        match acc_opt {
            Some(v) => {
                acc = v;
            },
            None => {
                proof {
                    lemma_digits_val_extend(
                        t@.subrange(start as int, (j + 1) as int),
                        t@.subrange((j + 1) as int, num_end as int),
                    );
                    assert(t@.subrange(start as int, (j + 1) as int) + t@.subrange(
                        (j + 1) as int,
                        num_end as int,
                    ) =~= t@.subrange(start as int, num_end as int));
                }
                let mut m = String::from_str("Invalid number: ");
                m.append(t.substring_char(0, num_end));
                return Err(m);
            },
        }
        j = j + 1;
    }
    if acc == 0 {
        return Err(String::from_str("Count must be greater than 0"));
    }
    match acc.checked_mul(mult) {
        Some(v) => Ok(v),
        None => Err(String::from_str("Count value too large")),
    }
}

} // verus!
