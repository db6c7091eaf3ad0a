//! Reads the store's confirmation that a task was created.
use vstd::prelude::*;

use crate::text::{decimal, digit_char};

verus! {

pub open spec fn is_digit(c: char) -> bool {
    '0' <= c && c <= '9'
}

/// The run of ASCII digits that `s` starts with.
pub open spec fn leading_digits(s: Seq<char>) -> Seq<char>
    decreases s.len(),
{
    if s.len() > 0 && is_digit(s[0]) {
        seq![s[0]] + leading_digits(s.drop_first())
    } else {
        Seq::empty()
    }
}

/// The number that a run of decimal digits spells.
pub open spec fn digits_value(d: Seq<char>) -> nat
    decreases d.len(),
{
    if d.len() == 0 {
        0
    } else {
        digits_value(d.drop_last()) * 10 + ((d.last() as u32 - '0' as u32) as nat)
    }
}

pub open spec fn created_prefix() -> Seq<char> {
    "Created task "@
}

/// The id in a confirmation of the form `Created task <digits>.` followed by
/// anything; `None` when the text has another form or the number does not
/// fit in 64 bits.
pub open spec fn created_id(s: Seq<char>) -> Option<u64> {
    let p = created_prefix();
    let r = s.subrange(p.len() as int, s.len() as int);
    let d = leading_digits(r);
    if s.len() >= p.len() && s.subrange(0, p.len() as int) == p && d.len() > 0 && d.len() < r.len()
        && r[d.len() as int] == '.' && digits_value(d) <= u64::MAX {
        Some(digits_value(d) as u64)
    } else {
        None
    }
}

/// Whether the text starts as a confirmation but names an id too large for 64 bits.
pub open spec fn id_overflows(s: Seq<char>) -> bool {
    let p = created_prefix();
    s.len() >= p.len() && s.subrange(0, p.len() as int) == p
        && digits_value(leading_digits(s.subrange(p.len() as int, s.len() as int))) > u64::MAX
}

/// Why a confirmation could not be read.
#[derive(Clone, Copy, Debug, PartialEq, Eq, Structural)]
pub enum ParseError {
    /// The text does not read `Created task <digits>.`
    Malformed,
    /// The id does not fit in 64 bits.
    Overflow,
}

proof fn lemma_leading_digits(r: Seq<char>, k: int)
    requires
        0 <= k <= r.len(),
        forall|j: int| 0 <= j < k ==> is_digit(#[trigger] r[j]),
        k == r.len() || !is_digit(r[k]),
    ensures
        leading_digits(r) == r.subrange(0, k),
    decreases k,
{
    if k == 0 {
        assert(r.subrange(0, 0) =~= Seq::<char>::empty());
    } else {
        let t = r.drop_first();
        assert forall|j: int| 0 <= j < k - 1 implies is_digit(#[trigger] t[j]) by {
            assert(t[j] == r[j + 1]);
        }
        lemma_leading_digits(t, k - 1);
        assert(r.subrange(0, k) =~= seq![r[0]] + t.subrange(0, k - 1));
    }
}

proof fn lemma_value_grows(d: Seq<char>, k: int)
    requires
        0 <= k <= d.len(),
    ensures
        digits_value(d.subrange(0, k)) <= digits_value(d),
    decreases d.len() - k,
{
    if k < d.len() {
        lemma_value_grows(d, k + 1);
        assert(d.subrange(0, k + 1).drop_last() =~= d.subrange(0, k));
    } else {
        assert(d.subrange(0, k) =~= d);
    }
}

/// Reads the id out of the store's `Created task <id>.` confirmation.
pub fn new_task_parser(i: &str) -> (r: Result<u64, ParseError>)
    ensures
        r is Ok <==> created_id(i@) is Some,
        r is Ok ==> r->Ok_0 == created_id(i@)->Some_0,
        r == Err::<u64, ParseError>(ParseError::Overflow) <==> id_overflows(i@),
{
    let prefix = "Created task ";
    proof {
        reveal_strlit("Created task ");
    }
    let n = i.unicode_len();
    let plen = prefix.unicode_len();
    if n < plen {
        return Err(ParseError::Malformed);
    }
    let mut k: usize = 0;
    while k < plen
        invariant
            plen == created_prefix().len(),
            prefix@ == created_prefix(),
            n == i@.len(),
            plen <= n,
            k <= plen,
            forall|j: int| 0 <= j < k ==> i@[j] == created_prefix()[j],
        decreases plen - k,
    {
        if i.get_char(k) != prefix.get_char(k) {
            return Err(ParseError::Malformed);
        }
        k = k + 1;
    }
    assert(i@.subrange(0, plen as int) =~= created_prefix());
    let ghost r = i@.subrange(plen as int, n as int);
    let mut pos: usize = plen;
    let mut acc: u64 = 0;
    while pos < n && '0' <= i.get_char(pos) && i.get_char(pos) <= '9'
        invariant
            plen == created_prefix().len(),
            n == i@.len(),
            r == i@.subrange(plen as int, n as int),
            i@.subrange(0, plen as int) == created_prefix(),
            plen <= pos <= n,
            forall|j: int| 0 <= j < pos - plen ==> is_digit(#[trigger] r[j]),
            acc as nat == digits_value(r.subrange(0, pos - plen)),
        decreases n - pos,
    {
        let c = i.get_char(pos);
        let d = (c as u32 - '0' as u32) as u64;
        let ghost prev = r.subrange(0, pos - plen);
        let ghost next = r.subrange(0, pos + 1 - plen);
        assert(next.drop_last() =~= prev);
        assert(next.last() == c);
        if acc > (u64::MAX - d) / 10 {
            proof {
                let k2 = pos + 1 - plen;
                assert(forall|j: int| 0 <= j < k2 ==> is_digit(#[trigger] r[j]));
                let full = leading_digits(r);
                lemma_full_run_extends(r, k2);
                lemma_value_grows(full, k2);
                assert(full.subrange(0, k2) =~= next);
                assert(digits_value(next) > u64::MAX) by (nonlinear_arith)
                    requires
                        digits_value(next) == acc * 10 + d,
                        acc > (u64::MAX - d) / 10,
                        d < 10,
                ;
                assert(digits_value(full) > u64::MAX);
                assert(i@.subrange(0, created_prefix().len() as int) == created_prefix());
                assert(id_overflows(i@));
            }
            return Err(ParseError::Overflow);
        }
        acc = acc * 10 + d;
        pos = pos + 1;
    }
    proof {
        lemma_leading_digits(r, pos - plen);
    }
    if pos == plen || pos >= n || i.get_char(pos) != '.' {
        return Err(ParseError::Malformed);
    }
    Ok(acc)
}

/// The run of digits at the start of `r` is at least `k` long when the first
/// `k` characters are digits, and those are its first characters.
proof fn lemma_full_run_extends(r: Seq<char>, k: int)
    requires
        0 <= k <= r.len(),
        forall|j: int| 0 <= j < k ==> is_digit(#[trigger] r[j]),
    ensures
        leading_digits(r).len() >= k,
        leading_digits(r).subrange(0, k) == r.subrange(0, k),
    decreases k,
{
    if k > 0 {
        let t = r.drop_first();
        assert forall|j: int| 0 <= j < k - 1 implies is_digit(#[trigger] t[j]) by {
            assert(t[j] == r[j + 1]);
        }
        lemma_full_run_extends(t, k - 1);
        assert(leading_digits(r) == seq![r[0]] + leading_digits(t));
        assert(leading_digits(r).subrange(0, k) =~= seq![r[0]] + leading_digits(t).subrange(0, k - 1));
        assert(r.subrange(0, k) =~= seq![r[0]] + t.subrange(0, k - 1));
    } else {
        assert(leading_digits(r).subrange(0, 0) =~= r.subrange(0, 0));
    }
}

proof fn lemma_decimal_digits(n: nat)
    ensures
        decimal(n).len() > 0,
        forall|j: int| 0 <= j < decimal(n).len() ==> is_digit(#[trigger] decimal(n)[j]),
        digits_value(decimal(n)) == n,
    decreases n,
{
    if n >= 10 {
        lemma_decimal_digits(n / 10);
        let d = decimal(n);
        assert(d.drop_last() =~= decimal(n / 10));
        assert(d.last() == digit_char(n % 10));
        assert forall|j: int| 0 <= j < d.len() implies is_digit(#[trigger] d[j]) by {
            if j < d.len() - 1 {
                assert(d[j] == decimal(n / 10)[j]);
            }
        }
    }
    assert(digits_value(decimal(n).drop_last()) * 10 + ((decimal(n).last() as u32 - '0' as u32) as nat) == n) by {
        if n < 10 {
            assert(decimal(n).drop_last() =~= Seq::<char>::empty());
        } else {
            assert(decimal(n).drop_last() =~= decimal(n / 10));
        }
    }
}

/// Round trip: the confirmation the store prints for a new task,
/// `Created task <id>.` with the id in decimal and anything after it, reads
/// back as that id.
pub proof fn lemma_created_id_round_trip(id: u64, rest: Seq<char>)
    ensures
        created_id(created_prefix() + decimal(id as nat) + seq!['.'] + rest) == Some(id),
{
    let d = decimal(id as nat);
    let s = created_prefix() + d + seq!['.'] + rest;
    let p = created_prefix();
    lemma_decimal_digits(id as nat);
    reveal_strlit("Created task ");
    let r = s.subrange(p.len() as int, s.len() as int);
    assert(r =~= d + seq!['.'] + rest);
    assert(s.subrange(0, p.len() as int) =~= p);
    assert forall|j: int| 0 <= j < d.len() implies is_digit(#[trigger] r[j]) by {
        assert(r[j] == d[j]);
    }
    assert(r[d.len() as int] == '.');
    lemma_leading_digits(r, d.len() as int);
    assert(r.subrange(0, d.len() as int) =~= d);
}

} // verus!
