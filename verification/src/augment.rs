//! Source augmentation: the synthesized text for one file is the original
//! source with the generated modules appended. Augmentation is purely
//! additive — nothing of the user's code is edited or removed, so every
//! existing item keeps its span verbatim — and it is a pure function of its
//! inputs, so re-running it on unchanged input yields byte-identical text.

use vstd::prelude::*;

use crate::classify::EntryPoint;
use crate::synth::{build_contracts_mod, build_entry_mod, generated_text};

verus! {

/// The augmented text of one source unit: the original source, then the
/// generated entry-points module, then the generated contracts module.
pub open spec fn augmented_text(
    orig: Seq<char>,
    eps: Seq<EntryPoint>,
    syms: Seq<Seq<Seq<char>>>,
) -> Seq<char> {
    orig + generated_text(eps, syms)
}

/// Builds the augmented text for one source unit, exactly as
/// `augmented_text` states it.
pub fn build_augmented(orig: &str, eps: &Vec<EntryPoint>, syms: &Vec<Vec<String>>) -> (r: String)
    ensures
        r@ == augmented_text(orig@, eps@, syms.deep_view()),
{
    let mut s = orig.to_owned();
    s.append(build_entry_mod(eps).as_str());
    s.append(build_contracts_mod(syms).as_str());
    proof {
        assert(s@ =~= augmented_text(orig@, eps@, syms.deep_view()));
    }
    s
}

/// Augmentation is strictly additive: the original source is preserved
/// verbatim as a prefix of the augmented text, so the span of every existing
/// item reads back unchanged.
pub proof fn lemma_augment_additive(
    orig: Seq<char>,
    eps: Seq<EntryPoint>,
    syms: Seq<Seq<Seq<char>>>,
    lo: int,
    hi: int,
)
    requires
        0 <= lo <= hi <= orig.len(),
    ensures
        augmented_text(orig, eps, syms).subrange(0, orig.len() as int) == orig,
        augmented_text(orig, eps, syms).subrange(lo, hi) == orig.subrange(lo, hi),
{
    assert(augmented_text(orig, eps, syms).subrange(0, orig.len() as int) =~= orig);
    assert(augmented_text(orig, eps, syms).subrange(lo, hi) =~= orig.subrange(lo, hi));
}

/// Synthesis is deterministic: two runs over equal inputs yield
/// byte-identical augmented text, so re-running classification and synthesis
/// on unchanged source changes nothing.
pub proof fn lemma_augment_idempotent(
    orig1: Seq<char>,
    eps1: Seq<EntryPoint>,
    syms1: Seq<Seq<Seq<char>>>,
    orig2: Seq<char>,
    eps2: Seq<EntryPoint>,
    syms2: Seq<Seq<Seq<char>>>,
)
    requires
        orig1 == orig2,
        eps1 == eps2,
        syms1 == syms2,
    ensures
        augmented_text(orig1, eps1, syms1) == augmented_text(orig2, eps2, syms2),
{
}

} // verus!
