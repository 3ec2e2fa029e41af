//! Decimal rendering and parsing of lengths, used by the generated-name
//! encoding. Rendering is the canonical digit sequence of a number; parsing
//! reads a digit run and is proved to invert rendering.

use vstd::prelude::*;

verus! {

pub open spec fn is_digit(c: char) -> bool {
    c == '0' || c == '1' || c == '2' || c == '3' || c == '4' || c == '5' || c == '6' || c == '7'
        || c == '8' || c == '9'
}

/// The digit character for a value below ten.
pub open spec fn digit_char(d: nat) -> char {
    if d == 0 { '0' }
    else if d == 1 { '1' }
    else if d == 2 { '2' }
    else if d == 3 { '3' }
    else if d == 4 { '4' }
    else if d == 5 { '5' }
    else if d == 6 { '6' }
    else if d == 7 { '7' }
    else if d == 8 { '8' }
    else { '9' }
}

/// The value of a digit character.
pub open spec fn digit_val(c: char) -> nat {
    if c == '0' { 0 }
    else if c == '1' { 1 }
    else if c == '2' { 2 }
    else if c == '3' { 3 }
    else if c == '4' { 4 }
    else if c == '5' { 5 }
    else if c == '6' { 6 }
    else if c == '7' { 7 }
    else if c == '8' { 8 }
    else { 9 }
}

pub proof fn lemma_digit_char_val(d: nat)
    requires
        d < 10,
    ensures
        is_digit(digit_char(d)),
        digit_val(digit_char(d)) == d,
{
}

/// The canonical decimal digit sequence of `n` (most significant first).
pub open spec fn dec_digits(n: nat) -> Seq<char>
    decreases n,
{
    if n < 10 {
        seq![digit_char(n)]
    } else {
        dec_digits(n / 10) + seq![digit_char(n % 10)]
    }
}

pub open spec fn all_digits(s: Seq<char>) -> bool {
    forall|i: int| 0 <= i < s.len() ==> is_digit(#[trigger] s[i])
}

pub open spec fn pow10(k: nat) -> nat
    decreases k,
{
    if k == 0 { 1 } else { 10 * pow10((k - 1) as nat) }
}

/// The value of a digit sequence, most significant digit first.
pub open spec fn dec_val(s: Seq<char>) -> nat
    decreases s.len(),
{
    if s.len() == 0 {
        0
    } else {
        digit_val(s[0]) * pow10((s.len() - 1) as nat) + dec_val(s.subrange(1, s.len() as int))
    }
}

pub proof fn lemma_pow10_add(a: nat, b: nat)
    ensures
        pow10(a + b) == pow10(a) * pow10(b),
    decreases a,
{
    if a == 0 {
        assert(pow10(0) == 1);
        assert(pow10(b) * 1 == pow10(b)) by (nonlinear_arith);
        assert(pow10(a) * pow10(b) == 1 * pow10(b));
    } else {
        let a1 = (a - 1) as nat;
        lemma_pow10_add(a1, b);
        assert(pow10(a + b) == 10 * pow10((a + b - 1) as nat));
        assert((a1 + b) as nat == (a + b - 1) as nat);
        assert(pow10(a + b) == 10 * (pow10(a1) * pow10(b)));
        assert(pow10(a) == 10 * pow10(a1));
        assert(10 * (pow10(a1) * pow10(b)) == (10 * pow10(a1)) * pow10(b)) by (nonlinear_arith);
        assert((10 * pow10(a1)) * pow10(b) == pow10(a) * pow10(b)) by (nonlinear_arith)
            requires
                pow10(a) == 10 * pow10(a1),
        ;
    }
}

/// The value of a concatenation: the left part is shifted by the length of
/// the right part.
pub proof fn lemma_dec_val_concat(a: Seq<char>, b: Seq<char>)
    ensures
        dec_val(a + b) == dec_val(a) * pow10(b.len()) + dec_val(b),
    decreases a.len(),
{
    if a.len() == 0 {
        assert(a + b =~= b);
        assert(dec_val(a) == 0);
        assert(dec_val(a) * pow10(b.len()) == 0) by (nonlinear_arith)
            requires
                dec_val(a) == 0,
        ;
    } else {
        let t = a.subrange(1, a.len() as int);
        lemma_dec_val_concat(t, b);
        let d0 = digit_val(a[0]);
        let la1 = (a.len() - 1) as nat;
        let lb = b.len();
        let p1 = pow10(la1);
        let pb = pow10(lb);
        lemma_pow10_add(la1, lb);
        assert((a + b).subrange(1, (a + b).len() as int) =~= t + b);
        assert((a + b)[0] == a[0]);
        let lab1 = ((a + b).len() - 1) as nat;
        assert(dec_val(a + b) == d0 * pow10(lab1) + dec_val(t + b));
        assert(lab1 == la1 + lb);
        assert(pow10(lab1) == p1 * pb);
        assert(d0 * pow10(lab1) == (d0 * p1) * pb) by (nonlinear_arith)
            requires
                pow10(lab1) == p1 * pb,
        ;
        assert(dec_val(t + b) == dec_val(t) * pb + dec_val(b));
        assert(dec_val(a) == d0 * p1 + dec_val(t));
        assert(dec_val(a) * pb == (d0 * p1) * pb + dec_val(t) * pb) by (nonlinear_arith)
            requires
                dec_val(a) == d0 * p1 + dec_val(t),
        ;
        assert(dec_val(a + b) == ((d0 * p1) * pb + dec_val(t) * pb) + dec_val(b));
    }
}

/// Rendering then valuing a number is the identity; the rendering is a
/// nonempty all-digit sequence.
pub proof fn lemma_dec_digits_val(n: nat)
    ensures
        dec_val(dec_digits(n)) == n,
        all_digits(dec_digits(n)),
        dec_digits(n).len() >= 1,
    decreases n,
{
    if n < 10 {
        let s = dec_digits(n);
        lemma_digit_char_val(n);
        let e = s.subrange(1, s.len() as int);
        assert(e =~= Seq::<char>::empty());
        assert(dec_val(e) == 0);
        assert(pow10(0) == 1);
        assert(digit_val(s[0]) * pow10(0) == digit_val(s[0])) by (nonlinear_arith)
            requires
                pow10(0) == 1,
        ;
        assert(dec_val(s) == digit_val(s[0]) * pow10(0) + dec_val(e));
    } else {
        let q = n / 10;
        let r = n % 10;
        lemma_dec_digits_val(q);
        lemma_digit_char_val(r);
        let tail = seq![digit_char(r)];
        lemma_dec_val_concat(dec_digits(q), tail);
        let e = tail.subrange(1, 1);
        assert(e =~= Seq::<char>::empty());
        assert(dec_val(e) == 0);
        assert(pow10(0) == 1);
        assert(pow10(1) == 10);
        assert(digit_val(tail[0]) * pow10(0) == digit_val(tail[0])) by (nonlinear_arith)
            requires
                pow10(0) == 1,
        ;
        assert(dec_val(tail) == digit_val(tail[0]) * pow10(0) + dec_val(e));
        assert(dec_val(tail) == r);
        assert(dec_val(dec_digits(n)) == dec_val(dec_digits(q)) * pow10(1) + dec_val(tail));
        assert(dec_val(dec_digits(q)) * pow10(1) == q * 10) by (nonlinear_arith)
            requires
                dec_val(dec_digits(q)) == q,
                pow10(1) == 10,
        ;
        assert(dec_val(dec_digits(n)) == q * 10 + r);
        assert(q * 10 + r == n);
        assert forall|i: int| 0 <= i < dec_digits(n).len() implies is_digit(
            #[trigger] dec_digits(n)[i],
        ) by {
            if i < dec_digits(q).len() {
                assert(dec_digits(n)[i] == dec_digits(q)[i]);
            } else {
                assert(dec_digits(n)[i] == digit_char(r));
            }
        }
    }
}

/// Reads the digit run of `s` starting at `i`, accumulating its value on top
/// of `acc` but never letting the running value exceed `cap`. Returns the
/// accumulated value and the position just past the run. Clamping keeps the
/// value representable while still letting a caller tell apart every value it
/// could accept: a run whose true value exceeds `cap` yields exactly `cap`.
pub open spec fn scan_dec(s: Seq<char>, i: int, acc: nat, cap: nat) -> (nat, int)
    decreases s.len() - i,
{
    if i < 0 || i >= s.len() || !is_digit(s[i]) {
        (acc, i)
    } else {
        let t = acc * 10 + digit_val(s[i]);
        scan_dec(s, i + 1, if t > cap { cap } else { t }, cap)
    }
}

/// Scanning a rendered digit sequence placed at `i`, bounded below `cap` and
/// followed by a non-digit (or the end), yields exactly its value and stops
/// just past it.
pub proof fn lemma_scan_dec_exact(s: Seq<char>, i: int, acc: nat, cap: nat, ds: Seq<char>)
    requires
        0 <= i,
        i + ds.len() <= s.len(),
        all_digits(ds),
        s.subrange(i, i + ds.len()) == ds,
        i + ds.len() == s.len() || !is_digit(s[i + ds.len()]),
        acc * pow10(ds.len()) + dec_val(ds) <= cap,
    ensures
        scan_dec(s, i, acc, cap) == (
            (acc * pow10(ds.len()) + dec_val(ds)) as nat,
            i + ds.len() as int,
        ),
    decreases ds.len(),
{
    if ds.len() == 0 {
        assert(pow10(0) == 1);
        assert(dec_val(ds) == 0);
        assert(scan_dec(s, i, acc, cap) == (acc, i));
        assert(pow10(ds.len()) == 1);
        assert(acc * pow10(ds.len()) == acc) by (nonlinear_arith)
            requires
                pow10(ds.len()) == 1,
        ;
        assert(acc * pow10(ds.len()) + dec_val(ds) == acc);
    } else {
        assert(s[i] == s.subrange(i, i + ds.len())[0]);
        assert(is_digit(ds[0]));
        let d = digit_val(s[i]);
        let t = acc * 10 + d;
        let rest = ds.subrange(1, ds.len() as int);
        let l1 = (ds.len() - 1) as nat;
        assert(pow10(ds.len()) == 10 * pow10(l1));
        assert(dec_val(ds) == d * pow10(l1) + dec_val(rest));
        let p = pow10(l1);
        let r2 = dec_val(rest);
        assert((acc * 10 + d) * p + r2 == acc * (10 * p) + (d * p + r2)) by (nonlinear_arith);
        lemma_pow10_pos(l1);
        assert((acc * 10 + d) * p >= (acc * 10 + d) * 1) by (nonlinear_arith)
            requires
                p >= 1,
        ;
        assert(t <= cap);
        assert(s.subrange(i + 1, i + 1 + rest.len()) =~= rest);
        lemma_scan_dec_exact(s, i + 1, t, cap, rest);
        assert(scan_dec(s, i + 1, t, cap) == ((t * p + r2) as nat, i + 1 + rest.len() as int));
        assert(scan_dec(s, i, acc, cap) == scan_dec(s, i + 1, t, cap));
        assert(t * p + r2 == acc * pow10(ds.len()) + dec_val(ds));
        assert(i + 1 + rest.len() == i + ds.len());
    }
}

pub proof fn lemma_pow10_pos(k: nat)
    ensures
        pow10(k) >= 1,
    decreases k,
{
    if k > 0 {
        lemma_pow10_pos((k - 1) as nat);
    }
}

fn is_digit_exec(c: char) -> (r: bool)
    ensures
        r == is_digit(c),
{
    c == '0' || c == '1' || c == '2' || c == '3' || c == '4' || c == '5' || c == '6' || c == '7'
        || c == '8' || c == '9'
}

fn char_digit_val(c: char) -> (r: usize)
    requires
        is_digit(c),
    ensures
        r as nat == digit_val(c),
{
    if c == '0' { 0 }
    else if c == '1' { 1 }
    else if c == '2' { 2 }
    else if c == '3' { 3 }
    else if c == '4' { 4 }
    else if c == '5' { 5 }
    else if c == '6' { 6 }
    else if c == '7' { 7 }
    else if c == '8' { 8 }
    else { 9 }
}

/// Reads the digit run of `s` starting at `i` with the running value clamped
/// at `cap`, as `scan_dec` describes.
pub fn scan_dec_run(s: &str, i: usize, cap: usize) -> (r: (usize, usize))
    requires
        i <= s@.len(),
        cap <= (usize::MAX - 9) / 10,
        s@.len() <= usize::MAX,
    ensures
        (r.0 as nat, r.1 as int) == scan_dec(s@, i as int, 0, cap as nat),
{
    let slen = s.unicode_len();
    let mut j = i;
    let mut acc: usize = 0;
    loop
        invariant
            i <= j <= slen,
            slen == s@.len(),
            acc <= cap,
            cap <= (usize::MAX - 9) / 10,
            scan_dec(s@, i as int, 0, cap as nat) == scan_dec(s@, j as int, acc as nat, cap as nat),
        ensures
            i <= j <= slen,
            acc <= cap,
            scan_dec(s@, i as int, 0, cap as nat) == scan_dec(s@, j as int, acc as nat, cap as nat),
            j == slen || !is_digit(s@[j as int]),
        decreases slen - j,
    {
        if j >= slen {
            break;
        }
        let c = s.get_char(j);
        if !is_digit_exec(c) {
            break;
        }
        let d = char_digit_val(c);
        let t = acc * 10 + d;
        acc = if t > cap { cap } else { t };
        j = j + 1;
    }
    proof {
        assert(scan_dec(s@, j as int, acc as nat, cap as nat) == (acc as nat, j as int));
    }
    (acc, j)
}

fn digit_str(d: usize) -> (r: &'static str)
    requires
        d < 10,
    ensures
        r@ =~= seq![digit_char(d as nat)],
{
    proof {
        reveal_strlit("0");
        reveal_strlit("1");
        reveal_strlit("2");
        reveal_strlit("3");
        reveal_strlit("4");
        reveal_strlit("5");
        reveal_strlit("6");
        reveal_strlit("7");
        reveal_strlit("8");
        reveal_strlit("9");
    }
    match d {
        0 => "0",
        1 => "1",
        2 => "2",
        3 => "3",
        4 => "4",
        5 => "5",
        6 => "6",
        7 => "7",
        8 => "8",
        _ => "9",
    }
}

/// Renders `n` in decimal.
pub fn usize_to_dec(n: usize) -> (r: String)
    ensures
        r@ == dec_digits(n as nat),
    decreases n,
{
    if n < 10 {
        let s = String::from_str(digit_str(n));
        s
    } else {
        let mut s = usize_to_dec(n / 10);
        s.append(digit_str(n % 10));
        s
    }
}

} // verus!
