//! Small verified helpers for building the strings the workflows hand out.
use vstd::prelude::*;

verus! {

/// The decimal digits of `n`, most significant first, without leading zeros.
pub open spec fn decimal(n: nat) -> Seq<char>
    decreases n,
{
    if n < 10 {
        seq![digit_char(n)]
    } else {
        decimal(n / 10).push(digit_char(n % 10))
    }
}

/// The ASCII digit for a value below ten.
pub open spec fn digit_char(d: nat) -> char {
    if d == 0 { '0' }
    else if d == 1 { '1' }
    else if d == 2 { '2' }
    else if d == 3 { '3' }
    else if d == 4 { '4' }
    else if d == 5 { '5' }
    else if d == 6 { '6' }
    else if d == 7 { '7' }
    else if d == 8 { '8' }
    else { '9' }
}

/// The views of a sequence of strings.
pub open spec fn views(v: Seq<String>) -> Seq<Seq<char>> {
    v.map_values(|s: String| s@)
}

fn digit(d: u64) -> (c: &'static str)
    requires
        d < 10,
    ensures
        c@ == seq![digit_char(d as nat)],
{
    proof {
        reveal_strlit("0");
        reveal_strlit("1");
        reveal_strlit("2");
        reveal_strlit("3");
        reveal_strlit("4");
        reveal_strlit("5");
        reveal_strlit("6");
        reveal_strlit("7");
        reveal_strlit("8");
        reveal_strlit("9");
    }
    if d == 0 { "0" }
    else if d == 1 { "1" }
    else if d == 2 { "2" }
    else if d == 3 { "3" }
    else if d == 4 { "4" }
    else if d == 5 { "5" }
    else if d == 6 { "6" }
    else if d == 7 { "7" }
    else if d == 8 { "8" }
    else { "9" }
}

/// Renders `n` in decimal.
pub fn to_decimal(n: u64) -> (r: String)
    ensures
        r@ == decimal(n as nat),
    decreases n,
{
    let mut s = if n < 10 {
        String::new()
    } else {
        to_decimal(n / 10)
    };
    s.append(digit(n % 10));
    proof {
        if n < 10 {
            assert(s@ =~= seq![digit_char(n as nat)]);
        } else {
            assert(s@ =~= decimal((n / 10) as nat).push(digit_char((n % 10) as nat)));
        }
    }
    s
}

/// `s` padded on the left with zeros to at least `width` characters.
pub open spec fn zero_padded(s: Seq<char>, width: nat) -> Seq<char>
    decreases width,
{
    if s.len() >= width {
        s
    } else {
        seq!['0'] + zero_padded(s, (width - 1) as nat)
    }
}

/// Renders `n` in decimal, padded with zeros to at least `width` digits.
pub fn padded_decimal(n: u64, width: usize) -> (r: String)
    ensures
        r@ == zero_padded(decimal(n as nat), width as nat),
{
    let digits = to_decimal(n);
    let len = digits.as_str().unicode_len();
    let mut r = String::new();
    let mut k: usize = 0;
    proof {
        reveal_strlit("0");
    }
    if len < width {
        let fill = width - len;
        while k < fill
            invariant
                k <= fill,
                fill == width - len,
                len < width,
                r@ == Seq::new(k as nat, |i: int| '0'),
            decreases fill - k,
        {
            proof {
                reveal_strlit("0");
            }
            r.append("0");
            k = k + 1;
            assert(r@ =~= Seq::new(k as nat, |i: int| '0'));
        }
        proof {
            lemma_pad(digits@, width as nat);
        }
    } else {
        assert(zero_padded(digits@, width as nat) == digits@);
    }
    r.append(digits.as_str());
    proof {
        if len >= width {
            assert(r@ =~= digits@);
        }
    }
    r
}

proof fn lemma_pad(s: Seq<char>, width: nat)
    requires
        s.len() < width,
    ensures
        zero_padded(s, width) =~= Seq::new((width - s.len()) as nat, |i: int| '0') + s,
    decreases width,
{
    if s.len() < width - 1 {
        lemma_pad(s, (width - 1) as nat);
        assert(seq!['0'] + (Seq::new((width - 1 - s.len()) as nat, |i: int| '0') + s) =~= Seq::new(
            (width - s.len()) as nat,
            |i: int| '0',
        ) + s);
    } else {
        assert(zero_padded(s, (width - 1) as nat) == s);
        assert(seq!['0'] + s =~= Seq::new((width - s.len()) as nat, |i: int| '0') + s);
    }
}

/// Whether a string with the same characters is in the vector.
pub fn contains_str(v: &Vec<String>, s: &String) -> (r: bool)
    ensures
        r == views(v@).contains(s@),
{
    let mut i: usize = 0;
    while i < v.len()
        invariant
            i <= v@.len(),
            forall|j: int| 0 <= j < i ==> v@[j]@ != s@,
        decreases v@.len() - i,
    {
        if v[i] == *s {
            assert(views(v@)[i as int] == s@);
            return true;
        }
        i = i + 1;
    }
    assert(!views(v@).contains(s@)) by {
        if views(v@).contains(s@) {
            let j = choose|j: int| 0 <= j < views(v@).len() && views(v@)[j] == s@;
            assert(v@[j]@ == s@);
        }
    }
    false
}

/// A literal as an owned string.
pub fn owned(s: &str) -> (r: String)
    ensures
        r@ == s@,
{
    String::from_str(s)
}

/// Concatenates two strings into a new one.
pub fn join2(a: &str, b: &str) -> (r: String)
    ensures
        r@ == a@ + b@,
{
    let mut s = String::from_str(a);
    s.append(b);
    s
}

} // verus!
