//! Character classification, decimal rendering, whitespace trimming and
//! colon-splitting over `Seq<char>` models, shared by the parsers and the
//! log-line formatters.

use vstd::prelude::*;
use vstd::string::*;

verus! {

/// The ASCII whitespace characters that trimming removes.
pub open spec fn is_ws(c: char) -> bool {
    c == ' ' || c == '\t' || c == '\n' || c == '\r' || c == '\u{000B}' || c == '\u{000C}'
}

/// ASCII decimal digit.
pub open spec fn is_digit(c: char) -> bool {
    48 <= (c as u32) && (c as u32) <= 57
}

/// Numeric value of an ASCII decimal digit.
pub open spec fn digit_val(c: char) -> nat
    recommends
        is_digit(c),
{
    ((c as u32) - 48) as nat
}

/// The ASCII character for one decimal digit.
pub open spec fn digit_char(d: nat) -> char
    recommends
        d < 10,
{
    if d == 0 {
        '0'
    } else if d == 1 {
        '1'
    } else if d == 2 {
        '2'
    } else if d == 3 {
        '3'
    } else if d == 4 {
        '4'
    } else if d == 5 {
        '5'
    } else if d == 6 {
        '6'
    } else if d == 7 {
        '7'
    } else if d == 8 {
        '8'
    } else {
        '9'
    }
}

/// Decimal rendering of a natural number, most significant digit first.
pub open spec fn spec_dec(n: nat) -> Seq<char>
    decreases n,
{
    if n < 10 {
        seq![digit_char(n)]
    } else {
        spec_dec(n / 10).push(digit_char(n % 10))
    }
}

pub proof fn lemma_spec_dec_len(n: nat)
    ensures
        spec_dec(n).len() >= 1,
    decreases n,
{
    if n >= 10 {
        lemma_spec_dec_len(n / 10);
    }
}

/// Value of a sequence of ASCII digits read as a decimal number.
pub open spec fn digits_val(ds: Seq<char>) -> nat
    decreases ds.len(),
{
    if ds.len() == 0 {
        0
    } else {
        digits_val(ds.drop_last()) * 10 + digit_val(ds.last())
    }
}

pub open spec fn all_digits(ds: Seq<char>) -> bool {
    forall|i: int| 0 <= i < ds.len() ==> is_digit(#[trigger] ds[i])
}

/// Law: the decimal rendering of a number is all digits and reads back as
/// that number.
pub proof fn lemma_dec_reads_back(n: nat)
    ensures
        all_digits(spec_dec(n)),
        digits_val(spec_dec(n)) == n,
    decreases n,
{
    if n < 10 {
        let s = seq![digit_char(n)];
        assert(s.drop_last() =~= Seq::<char>::empty());
        assert(digits_val(Seq::<char>::empty()) == 0);
        assert(s.last() == digit_char(n));
        assert(digits_val(s) == digits_val(s.drop_last()) * 10 + digit_val(s.last()));
    } else {
        lemma_dec_reads_back(n / 10);
        lemma_digits_val_push(spec_dec(n / 10), digit_char(n % 10));
        assert forall|i: int| 0 <= i < spec_dec(n).len() implies is_digit(
            #[trigger] spec_dec(n)[i],
        ) by {
            if i < spec_dec(n / 10).len() {
                assert(spec_dec(n)[i] == spec_dec(n / 10)[i]);
            }
        }
    }
}

/// `s` with leading and trailing ASCII whitespace removed.
pub open spec fn spec_trim(s: Seq<char>) -> Seq<char>
    decreases s.len(),
{
    if s.len() > 0 && is_ws(s[0]) {
        spec_trim(s.drop_first())
    } else if s.len() > 0 && is_ws(s[s.len() - 1]) {
        spec_trim(s.drop_last())
    } else {
        s
    }
}

pub exec fn char_is_ws(c: char) -> (b: bool)
    ensures
        b == is_ws(c),
{
    c == ' ' || c == '\t' || c == '\n' || c == '\r' || c == '\u{000B}' || c == '\u{000C}'
}

pub exec fn char_is_digit(c: char) -> (b: bool)
    ensures
        b == is_digit(c),
{
    let u = c as u32;
    48 <= u && u <= 57
}

/// Appending one more digit multiplies the value by ten and adds the digit.
pub proof fn lemma_digits_val_push(ds: Seq<char>, c: char)
    ensures
        digits_val(ds.push(c)) == digits_val(ds) * 10 + digit_val(c),
{
    assert(ds.push(c).drop_last() =~= ds);
    assert(ds.push(c).last() == c);
}

/// Extending a digit run never lowers its value.
pub proof fn lemma_digits_val_extend(a: Seq<char>, b: Seq<char>)
    ensures
        digits_val(a) <= digits_val(a + b),
    decreases b.len(),
{
    if b.len() == 0 {
        assert(a + b =~= a);
    } else {
        lemma_digits_val_extend(a, b.drop_last());
        assert((a + b).drop_last() =~= a + b.drop_last());
        assert(digits_val(a + b) == digits_val(a + b.drop_last()) * 10 + digit_val((a + b).last()));
        assert(digits_val(a + b.drop_last()) * 10 >= digits_val(a + b.drop_last()));
    }
}

/// A trimming scan that found `from` and `to` has found exactly the
/// boundaries of `spec_trim`.
pub proof fn lemma_trim_bounds(s: Seq<char>, from: int, to: int)
    requires
        0 <= from <= to <= s.len(),
        forall|j: int| 0 <= j < from ==> is_ws(#[trigger] s[j]),
        forall|j: int| to <= j < s.len() ==> is_ws(#[trigger] s[j]),
        from < to ==> !is_ws(s[from]),
        from < to ==> !is_ws(s[to - 1]),
        from == to ==> from == s.len(),
    ensures
        spec_trim(s) == s.subrange(from, to),
    decreases s.len(),
{
    if s.len() == 0 {
        assert(s.subrange(0, 0) =~= s);
    } else if is_ws(s[0]) {
        assert(from >= 1);
        let d = s.drop_first();
        lemma_trim_bounds(d, from - 1, to - 1);
        assert(d.subrange(from - 1, to - 1) =~= s.subrange(from, to));
    } else {
        assert(from == 0);
        if is_ws(s[s.len() - 1]) {
            assert(from < to);
            assert(to <= s.len() - 1);
            let d = s.drop_last();
            lemma_trim_bounds(d, 0, to);
            assert(d.subrange(0, to) =~= s.subrange(0, to));
        } else {
            assert(to == s.len());
            assert(s.subrange(0, s.len() as int) =~= s);
        }
    }
}

/// Slice of `s` with leading and trailing ASCII whitespace removed.
pub exec fn trim_of(s: &str) -> (t: &str)
    ensures
        t@ == spec_trim(s@),
{
    let n = s.unicode_len();
    let mut from: usize = 0;
    while from < n && char_is_ws(s.get_char(from))
        invariant
            n == s@.len(),
            0 <= from <= n,
            forall|j: int| 0 <= j < from ==> is_ws(#[trigger] s@[j]),
        decreases n - from,
    {
        from = from + 1;
    }
    let mut to: usize = n;
    while to > from && char_is_ws(s.get_char(to - 1))
        invariant
            n == s@.len(),
            0 <= from <= to <= n,
            forall|j: int| to <= j < n ==> is_ws(#[trigger] s@[j]),
            from < n ==> !is_ws(s@[from as int]),
        decreases to,
    {
        to = to - 1;
    }
    proof {
        lemma_trim_bounds(s@, from as int, to as int);
    }
    s.substring_char(from, to)
}

/// The ASCII string for one decimal digit.
pub exec fn digit_str(d: u64) -> (r: &'static str)
    requires
        d < 10,
    ensures
        r@ == seq![digit_char(d as nat)],
{
    proof {
        reveal_strlit("0");
        reveal_strlit("1");
        reveal_strlit("2");
        reveal_strlit("3");
        reveal_strlit("4");
        reveal_strlit("5");
        reveal_strlit("6");
        reveal_strlit("7");
        reveal_strlit("8");
        reveal_strlit("9");
    }
    let r = if d == 0 {
        "0"
    } else if d == 1 {
        "1"
    } else if d == 2 {
        "2"
    } else if d == 3 {
        "3"
    } else if d == 4 {
        "4"
    } else if d == 5 {
        "5"
    } else if d == 6 {
        "6"
    } else if d == 7 {
        "7"
    } else if d == 8 {
        "8"
    } else {
        "9"
    };
    assert(r@ =~= seq![digit_char(d as nat)]);
    r
}

/// Decimal rendering of `n`.
pub exec fn u64_to_string(n: u64) -> (r: String)
    ensures
        r@ == spec_dec(n as nat),
    decreases n,
{
    if n < 10 {
        String::from_str(digit_str(n))
    } else {
        let mut r = u64_to_string(n / 10);
        r.append(digit_str(n % 10));
        proof {
            assert(spec_dec((n / 10) as nat).push(digit_char((n % 10) as nat)) =~= spec_dec(
                (n / 10) as nat,
            ) + seq![digit_char((n % 10) as nat)]);
        }
        r
    }
}

/// Milliseconds rounded to whole centiseconds, ties to the even neighbour.
pub open spec fn spec_centis(ms: nat) -> nat {
    let q = ms / 10;
    let r = ms % 10;
    if r > 5 || (r == 5 && q % 2 == 1) {
        q + 1
    } else {
        q
    }
}

/// A millisecond count rendered as seconds with two decimal places.
pub open spec fn spec_secs2(ms: nat) -> Seq<char> {
    let c = spec_centis(ms);
    spec_dec(c / 100) + "."@ + seq![digit_char(((c / 10) % 10) as nat), digit_char((c % 10) as nat)]
}

/// `ms` milliseconds rendered as seconds with two decimal places.
pub exec fn secs2_string(ms: u64) -> (r: String)
    ensures
        r@ == spec_secs2(ms as nat),
{
    let q: u64 = ms / 10;
    let rm: u64 = ms % 10;
    let c: u64 = if rm > 5 || (rm == 5 && q % 2 == 1) {
        q + 1
    } else {
        q
    };
    let mut s = u64_to_string(c / 100);
    s.append(".");
    s.append(digit_str((c / 10) % 10));
    s.append(digit_str(c % 10));
    proof {
        assert(seq![digit_char((((c / 10) % 10) as nat))] + seq![digit_char(((c % 10) as nat))]
            =~= seq![
                digit_char((((c / 10) % 10) as nat)),
                digit_char(((c % 10) as nat)),
            ]);
        assert(s@ =~= spec_secs2(ms as nat));
    }
    s
}

/// Index of the first colon in `s`, or `-1` if there is none.
pub open spec fn spec_first_colon(s: Seq<char>) -> int
    decreases s.len(),
{
    if s.len() == 0 {
        -1
    } else if s[0] == ':' {
        0
    } else {
        let r = spec_first_colon(s.drop_first());
        if r < 0 {
            -1
        } else {
            r + 1
        }
    }
}

/// `s` split on `':'`; one part more than there are colons, empty parts kept.
pub open spec fn spec_split_colon(s: Seq<char>) -> Seq<Seq<char>>
    decreases s.len(),
{
    let fc = spec_first_colon(s);
    if fc < 0 || fc >= s.len() {
        seq![s]
    } else {
        seq![s.subrange(0, fc)] + spec_split_colon(s.subrange(fc + 1, s.len() as int))
    }
}

pub proof fn lemma_first_colon_at(s: Seq<char>, i: int)
    requires
        0 <= i <= s.len(),
        forall|j: int| 0 <= j < i ==> #[trigger] s[j] != ':',
        i < s.len() ==> s[i] == ':',
    ensures
        spec_first_colon(s) == if i < s.len() {
            i
        } else {
            -1
        },
    decreases s.len(),
{
    if s.len() == 0 {
    } else if s[0] == ':' {
        assert(i == 0);
    } else {
        assert(i >= 1);
        lemma_first_colon_at(s.drop_first(), i - 1);
    }
}

/// The parts of `s` split on `':'`, in order.
pub exec fn split_colon(s: &str) -> (parts: Vec<String>)
    ensures
        parts@.map_values(|p: String| p@) == spec_split_colon(s@),
    decreases s@.len(),
{
    let n = s.unicode_len();
    let mut i: usize = 0;
    while i < n && s.get_char(i) != ':'
        invariant
            n == s@.len(),
            0 <= i <= n,
            forall|j: int| 0 <= j < i ==> #[trigger] s@[j] != ':',
        decreases n - i,
    {
        i = i + 1;
    }
    proof {
        lemma_first_colon_at(s@, i as int);
    }
    if i == n {
        let mut parts: Vec<String> = Vec::new();
        parts.push(String::from_str(s));
        assert(parts@.map_values(|p: String| p@) =~= spec_split_colon(s@));
        parts
    } else {
        let head = s.substring_char(0, i);
        let rest = s.substring_char(i + 1, n);
        let tail = split_colon(rest);
        let mut parts: Vec<String> = Vec::new();
        parts.push(String::from_str(head));
        let mut k: usize = 0;
        while k < tail.len()
            invariant
                0 <= k <= tail.len(),
                parts@.len() == k + 1,
                parts@[0]@ == head@,
                forall|j: int| 1 <= j < k + 1 ==> #[trigger] parts@[j]@ == tail@[j - 1]@,
            decreases tail.len() - k,
        {
            let p = tail[k].clone();
            parts.push(p);
            k = k + 1;
        }
        proof {
            assert(parts@.map_values(|p: String| p@) =~= seq![s@.subrange(0, i as int)]
                + tail@.map_values(|p: String| p@));
        }
        parts
    }
}

} // verus!
