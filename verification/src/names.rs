//! Deterministic generated-name scheme for synthesized entry points.
//!
//! A generated name is a reserved prefix (not writable in ordinary user code,
//! since it begins with two underscores and is fixed), a kind code, and the
//! qualified path of the original item encoded segment by segment with a
//! decimal length before each segment. The scheme is a versioned encoding
//! with an explicit inverse: `spec_decode` recovers the kind and the exact
//! segments from a generated name, which makes every reported finding
//! attributable to the original function.

use vstd::prelude::*;

use crate::CallKind;
use crate::digits::{
    dec_digits, dec_val, is_digit, lemma_dec_digits_val, lemma_scan_dec_exact, scan_dec,
    scan_dec_run, usize_to_dec,
};

verus! {

/// Prefix of generated `fn`s for entry points.
pub open spec fn entry_point_fn_prefix() -> Seq<char> {
    "__pallet_verifier_entry_point__"@
}

/// Prefix of generated `fn`s for entry points (executable form).
pub fn entry_point_fn_prefix_str() -> (r: &'static str)
    ensures
        r@ == entry_point_fn_prefix(),
{
    "__pallet_verifier_entry_point__"
}

/// Name of the generated `mod` for entry points, shared by every entry point
/// of a crate.
pub open spec fn entry_points_mod_name() -> Seq<char> {
    "__pallet_verifier_entry_points"@
}

/// Name of the generated `mod` for entry points (executable form).
pub fn entry_points_mod_name_str() -> (r: &'static str)
    ensures
        r@ == entry_points_mod_name(),
{
    "__pallet_verifier_entry_points"
}

/// Name of the generated `mod` for contract stubs.
pub open spec fn contracts_mod_name() -> Seq<char> {
    "foreign_contracts"@
}

/// Name of the generated `mod` for contract stubs (executable form).
pub fn contracts_mod_name_str() -> (r: &'static str)
    ensures
        r@ == contracts_mod_name(),
{
    "foreign_contracts"
}

/// The kind code that follows the prefix in a generated name.
pub open spec fn kind_code(k: CallKind) -> char {
    match k {
        CallKind::Dispatchable => 'd',
        CallKind::PubAssocFn => 'p',
    }
}

/// The kind a code character stands for.
pub open spec fn kind_of_code(c: char) -> Option<CallKind> {
    if c == 'd' {
        Some(CallKind::Dispatchable)
    } else if c == 'p' {
        Some(CallKind::PubAssocFn)
    } else {
        None
    }
}

/// One encoded path segment: its length in decimal, an underscore, then the
/// segment itself.
pub open spec fn seg_enc(seg: Seq<char>) -> Seq<char> {
    dec_digits(seg.len()) + seq!['_'] + seg
}

/// The concatenation of the encoded path segments.
pub open spec fn segs_enc(segs: Seq<Seq<char>>) -> Seq<char>
    decreases segs.len(),
{
    if segs.len() == 0 {
        Seq::empty()
    } else {
        seg_enc(segs[0]) + segs_enc(segs.subrange(1, segs.len() as int))
    }
}

/// The generated name for an item of kind `k` with qualified path `segs`.
pub open spec fn encoded_name(k: CallKind, segs: Seq<Seq<char>>) -> Seq<char> {
    entry_point_fn_prefix() + seq![kind_code(k), '_'] + segs_enc(segs)
}

/// Decodes the encoded segments of `s` from position `i` to the end.
pub open spec fn spec_decode_segs(s: Seq<char>, i: int) -> Option<Seq<Seq<char>>>
    decreases s.len() - i,
{
    if i < 0 || i > s.len() {
        None
    } else if i == s.len() {
        Some(Seq::empty())
    } else {
        let scanned = scan_dec(s, i, 0, s.len() as nat);
        let n = scanned.0;
        let j = scanned.1;
        if i < j && j < s.len() && s[j] == '_' && j + 1 + n <= s.len() {
            match spec_decode_segs(s, j + 1 + n) {
                Some(rest) => Some(seq![s.subrange(j + 1, j + 1 + n)] + rest),
                None => None,
            }
        } else {
            None
        }
    }
}

/// Decodes a generated name back to the kind and qualified path it was made
/// from; `None` for any text that no `encoded_name` produces.
pub open spec fn spec_decode(s: Seq<char>) -> Option<(CallKind, Seq<Seq<char>>)> {
    let p = entry_point_fn_prefix();
    if s.len() < p.len() + 2 {
        None
    } else if s.subrange(0, p.len() as int) != p {
        None
    } else if s[p.len() + 1 as int] != '_' {
        None
    } else {
        match kind_of_code(s[p.len() as int]) {
            Some(k) => match spec_decode_segs(s, (p.len() + 2) as int) {
                Some(segs) => Some((k, segs)),
                None => None,
            },
            None => None,
        }
    }
}

pub proof fn lemma_segs_enc_concat(a: Seq<Seq<char>>, b: Seq<Seq<char>>)
    ensures
        segs_enc(a + b) == segs_enc(a) + segs_enc(b),
    decreases a.len(),
{
    if a.len() == 0 {
        assert(a + b =~= b);
        assert(segs_enc(a) == Seq::<char>::empty());
        assert(segs_enc(a) + segs_enc(b) =~= segs_enc(b));
    } else {
        let t = a.subrange(1, a.len() as int);
        lemma_segs_enc_concat(t, b);
        assert((a + b).subrange(1, (a + b).len() as int) =~= t + b);
        assert((a + b)[0] == a[0]);
        assert(seg_enc(a[0]) + (segs_enc(t) + segs_enc(b)) =~= (seg_enc(a[0]) + segs_enc(t))
            + segs_enc(b));
    }
}

/// Decoding the encoded segments placed at `i` recovers them exactly.
proof fn lemma_decode_segs_encode(s: Seq<char>, i: int, segs: Seq<Seq<char>>)
    requires
        0 <= i <= s.len(),
        s.subrange(i, s.len() as int) == segs_enc(segs),
    ensures
        spec_decode_segs(s, i) == Some(segs),
    decreases segs.len(),
{
    if segs.len() == 0 {
        assert(s.subrange(i, s.len() as int).len() == 0);
    } else {
        let seg0 = segs[0];
        let l0 = seg0.len();
        let dd = dec_digits(l0);
        let rest = segs.subrange(1, segs.len() as int);
        lemma_dec_digits_val(l0);
        let tail = s.subrange(i, s.len() as int);
        assert(tail == (dd + seq!['_'] + seg0) + segs_enc(rest));
        let dl = dd.len() as int;
        // positions of the pieces inside s
        assert forall|x: int| 0 <= x < tail.len() implies tail[x] == s[i + x] by {
            assert(tail[x] == s.subrange(i, s.len() as int)[x]);
        }
        assert(s.subrange(i, i + dl) =~= dd);
        assert(tail[dl] == ((dd + seq!['_']) + seg0)[dl]);
        assert(tail[dl] == '_');
        assert(s[i + dl] == tail[dl]);
        assert(!is_digit('_'));
        assert forall|y: int| 0 <= y < l0 implies s[i + dl + 1 + y] == seg0[y] by {
            assert(tail[dl + 1 + y] == s[i + (dl + 1 + y)]);
            assert(tail[dl + 1 + y] == ((dd + seq!['_']) + seg0)[dl + 1 + y]);
        }
        assert(s.subrange(i + dl + 1, i + dl + 1 + l0) =~= seg0);
        assert forall|y: int| 0 <= y < segs_enc(rest).len() implies s[i + dl + 1 + l0 + y]
            == segs_enc(rest)[y] by {
            assert(tail[dl + 1 + l0 + y] == s[i + (dl + 1 + l0 + y)]);
        }
        assert(s.subrange(i + dl + 1 + l0, s.len() as int) =~= segs_enc(rest));
        // the decimal scan reads exactly the rendered length
        assert(0 * crate::digits::pow10(dd.len()) + dec_val(dd) <= s.len());
        lemma_scan_dec_exact(s, i, 0, s.len() as nat, dd);
        let scanned = scan_dec(s, i, 0, s.len() as nat);
        assert(scanned.0 == l0);
        assert(scanned.1 == i + dl);
        lemma_decode_segs_encode(s, i + dl + 1 + l0, rest);
        assert(seq![s.subrange(i + dl + 1, i + dl + 1 + l0)] + rest =~= segs);
    }
}

/// Round trip: decoding the generated name of `(k, segs)` yields `(k, segs)`
/// again, for every kind and every qualified path.
pub proof fn lemma_name_round_trip(k: CallKind, segs: Seq<Seq<char>>)
    ensures
        spec_decode(encoded_name(k, segs)) == Some((k, segs)),
{
    let p = entry_point_fn_prefix();
    let s = encoded_name(k, segs);
    assert(s.subrange(0, p.len() as int) =~= p);
    assert(s[p.len() as int] == kind_code(k));
    assert(s[p.len() + 1 as int] == '_');
    assert(kind_of_code(kind_code(k)) == Some(k));
    assert(s.subrange((p.len() + 2) as int, s.len() as int) =~= segs_enc(segs));
    lemma_decode_segs_encode(s, (p.len() + 2) as int, segs);
}

/// The encoding never maps two distinct identities to one generated name.
pub proof fn lemma_encode_injective(
    k1: CallKind,
    segs1: Seq<Seq<char>>,
    k2: CallKind,
    segs2: Seq<Seq<char>>,
)
    requires
        encoded_name(k1, segs1) == encoded_name(k2, segs2),
    ensures
        k1 == k2,
        segs1 == segs2,
{
    lemma_name_round_trip(k1, segs1);
    lemma_name_round_trip(k2, segs2);
}

fn kind_code_str(k: CallKind) -> (r: &'static str)
    ensures
        r@ =~= seq![kind_code(k), '_'],
{
    proof {
        reveal_strlit("d_");
        reveal_strlit("p_");
    }
    match k {
        CallKind::Dispatchable => "d_",
        CallKind::PubAssocFn => "p_",
    }
}

/// Builds the generated name for an item of kind `k` whose qualified path is
/// `segs`.
pub fn encode_name(k: CallKind, segs: &Vec<String>) -> (r: String)
    ensures
        r@ == encoded_name(k, segs.deep_view()),
{
    let mut out = String::from_str(entry_point_fn_prefix_str());
    out.append(kind_code_str(k));
    let ghost dv = segs.deep_view();
    let mut idx: usize = 0;
    while idx < segs.len()
        invariant
            idx <= segs.len(),
            dv == segs.deep_view(),
            dv.len() == segs.len(),
            out@ == entry_point_fn_prefix() + seq![kind_code(k), '_'] + segs_enc(
                dv.take(idx as int),
            ),
        decreases segs.len() - idx,
    {
        let seg: &String = &segs[idx];
        let lenstr = usize_to_dec(seg.as_str().unicode_len());
        out.append(lenstr.as_str());
        out.append("_");
        out.append(seg.as_str());
        proof {
            reveal_strlit("_");
            assert(dv[idx as int] == seg@);
            let tk = dv.take(idx as int);
            let q = seq![dv[idx as int]];
            lemma_segs_enc_concat(tk, q);
            assert(tk + q =~= dv.take(idx as int + 1));
            assert(segs_enc(Seq::<Seq<char>>::empty()) == Seq::<char>::empty());
            assert(q.subrange(1, 1) =~= Seq::<Seq<char>>::empty());
            assert(segs_enc(q) == seg_enc(q[0]) + segs_enc(q.subrange(1, 1)));
            assert(segs_enc(q) =~= seg_enc(dv[idx as int]));
            assert(seg_enc(seg@) == dec_digits(seg@.len()) + seq!['_'] + seg@);
            assert("_"@ =~= seq!['_']);
            assert(out@ =~= entry_point_fn_prefix() + seq![kind_code(k), '_'] + segs_enc(
                dv.take(idx as int + 1),
            ));
        }
        idx = idx + 1;
    }
    proof {
        assert(dv.take(dv.len() as int) =~= dv);
    }
    out
}

/// Decodes a generated name back to the kind and qualified path of the item
/// it wraps, exactly as `spec_decode` says: the identity of every entry
/// point is recoverable from its name alone, and any other text is refused.
pub fn decode_name(s: &str) -> (r: Option<(CallKind, Vec<String>)>)
    requires
        s@.len() <= (usize::MAX - 9) / 10,
    ensures
        match r {
            Some(kp) => spec_decode(s@) == Some((kp.0, kp.1.deep_view())),
            None => spec_decode(s@) is None,
        },
{
    proof {
        reveal_strlit("__pallet_verifier_entry_point__");
    }
    let slen = s.unicode_len();
    let p = entry_point_fn_prefix_str();
    let plen = p.unicode_len();
    assert(plen == 31);
    if slen < plen + 2 {
        return None;
    }
    let mut i: usize = 0;
    while i < plen
        invariant
            i <= plen,
            plen == entry_point_fn_prefix().len(),
            slen == s@.len(),
            plen + 2 <= slen,
            p@ == entry_point_fn_prefix(),
            forall|j: int| 0 <= j < i ==> s@[j] == entry_point_fn_prefix()[j],
        decreases plen - i,
    {
        if s.get_char(i) != p.get_char(i) {
            proof {
                let sub = s@.subrange(0, plen as int);
                assert(sub[i as int] == s@[i as int]);
                assert(sub != entry_point_fn_prefix());
            }
            return None;
        }
        i = i + 1;
    }
    proof {
        assert(s@.subrange(0, plen as int) =~= entry_point_fn_prefix());
    }
    let kc = s.get_char(plen);
    let k = if kc == 'd' {
        CallKind::Dispatchable
    } else if kc == 'p' {
        CallKind::PubAssocFn
    } else {
        return None;
    };
    if s.get_char(plen + 1) != '_' {
        return None;
    }
    let ghost start = (plen + 2) as int;
    let mut pos: usize = plen + 2;
    let mut segs: Vec<String> = Vec::new();
    loop
        invariant
            plen + 2 <= pos <= slen,
            slen == s@.len(),
            s@.len() <= (usize::MAX - 9) / 10,
            start == (plen + 2) as int,
            plen == entry_point_fn_prefix().len(),
            s@.subrange(0, plen as int) == entry_point_fn_prefix(),
            s@[plen as int] == kind_code(k),
            kind_of_code(s@[plen as int]) == Some(k),
            s@[plen + 1 as int] == '_',
            spec_decode_segs(s@, start) is Some <==> spec_decode_segs(s@, pos as int) is Some,
            forall|rest: Seq<Seq<char>>|
                spec_decode_segs(s@, pos as int) == Some(rest) ==> spec_decode_segs(s@, start)
                    == Some(segs.deep_view() + rest),
        decreases slen - pos,
    {
        if pos == slen {
            proof {
                assert(spec_decode_segs(s@, pos as int) == Some(Seq::<Seq<char>>::empty()));
                assert(segs.deep_view() + Seq::<Seq<char>>::empty() =~= segs.deep_view());
            }
            return Some((k, segs));
        }
        let scanned = scan_dec_run(s, pos, slen);
        let n = scanned.0;
        let j = scanned.1;
        if !(pos < j && j < slen) {
            proof {
                assert(spec_decode_segs(s@, pos as int) is None);
            }
            return None;
        }
        if s.get_char(j) != '_' {
            proof {
                assert(spec_decode_segs(s@, pos as int) is None);
            }
            return None;
        }
        if n > slen - (j + 1) {
            proof {
                assert(spec_decode_segs(s@, pos as int) is None);
            }
            return None;
        }
        let seg = s.substring_char(j + 1, j + 1 + n).to_owned();
        let ghost old_segs = segs.deep_view();
        let ghost old_pos = pos as int;
        segs.push(seg);
        pos = j + 1 + n;
        proof {
            assert(segs.deep_view() =~= old_segs.push(seg@));
            assert(seg@ == s@.subrange(old_pos + 1 + (j - old_pos - 1) + 1, old_pos + 1 + (j
                - old_pos - 1) + 1 + n as int)) by {
                assert(j as int == old_pos + 1 + (j - old_pos - 1));
            }
            assert forall|rest: Seq<Seq<char>>|
                spec_decode_segs(s@, pos as int) == Some(rest) implies spec_decode_segs(s@, start)
                == Some(segs.deep_view() + rest) by {
                assert(spec_decode_segs(s@, old_pos) == Some(seq![seg@] + rest));
                assert(old_segs + (seq![seg@] + rest) =~= segs.deep_view() + rest);
            }
            assert((spec_decode_segs(s@, start) is Some) <==> (spec_decode_segs(s@, pos as int)
                is Some));
        }
    }
}

} // verus!
