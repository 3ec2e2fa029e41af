//! Entry-point classification: decides which candidate functions of a crate
//! become analysis entry points, and of which kind.
//!
//! A candidate reachable through the framework's generic dispatch mechanism
//! is `Dispatchable`; a publicly visible associated function outside that set
//! is `PubAssocFn`. A candidate whose receiver shape the synthesizer cannot
//! wrap uniformly is dropped with a recorded reason; rejection is never an
//! error. Candidates are handled in source declaration order, which keeps
//! generated names stable across runs on unchanged source.

use vstd::prelude::*;

use crate::CallKind;
use crate::names::{encode_name, encoded_name};

verus! {

/// Shape of the receiver of a candidate function, as far as the synthesizer
/// distinguishes shapes. `Opaque` stands for any shape the front end could
/// not put in one of the supported forms.
#[derive(Debug, Clone, Copy, PartialEq, Eq, Structural)]
pub enum ReceiverShape {
    NoReceiver,
    SharedRef,
    UniqueRef,
    ByValue,
    Opaque,
}

/// A function of the crate under analysis that classification inspects.
/// Created during the collect pass and immutable thereafter.
#[derive(Clone)]
pub struct CandidateFunction {
    /// Qualified path of the item: defining module path, then its name.
    pub path: Vec<String>,
    /// Name of the type the item is associated with; empty for a free item.
    pub self_ty: String,
    /// Whether the item is publicly visible.
    pub is_public: bool,
    /// Whether an enumerated variant of the framework's call type delegates
    /// to this item, making it reachable through generic dispatch.
    pub via_dispatch: bool,
    /// Shape of the receiver, if any.
    pub receiver: ReceiverShape,
    /// Textual types of the non-receiver parameters, one for one.
    pub param_tys: Vec<String>,
    /// Byte offsets of the item's source span in its file.
    pub span_start: usize,
    pub span_end: usize,
}

/// Why a candidate was left out of the entry-point set.
#[derive(Debug, Clone, Copy, PartialEq, Eq, Structural)]
pub enum SkipReason {
    /// Neither dispatchable nor publicly visible.
    NotEligible,
    /// The receiver shape is not on the synthesizer's allow-list.
    UnsupportedReceiver,
}

/// The kind a candidate is classified under, or `None` when it is skipped.
pub open spec fn spec_classify(c: CandidateFunction, allowed: Seq<ReceiverShape>) -> Option<
    CallKind,
> {
    if !allowed.contains(c.receiver) {
        None
    } else if c.via_dispatch {
        Some(CallKind::Dispatchable)
    } else if c.is_public {
        Some(CallKind::PubAssocFn)
    } else {
        None
    }
}

/// The recorded reason when a candidate is skipped.
pub open spec fn spec_skip_reason(c: CandidateFunction, allowed: Seq<ReceiverShape>) -> Option<
    SkipReason,
> {
    if !allowed.contains(c.receiver) {
        Some(SkipReason::UnsupportedReceiver)
    } else if !c.via_dispatch && !c.is_public {
        Some(SkipReason::NotEligible)
    } else {
        None
    }
}

fn shape_allowed(allowed: &Vec<ReceiverShape>, shape: ReceiverShape) -> (r: bool)
    ensures
        r == allowed@.contains(shape),
{
    let mut i: usize = 0;
    while i < allowed.len()
        invariant
            i <= allowed.len(),
            forall|j: int| 0 <= j < i ==> allowed@[j] != shape,
        decreases allowed.len() - i,
    {
        if allowed[i] == shape {
            return true;
        }
        i = i + 1;
    }
    false
}

/// Classifies one candidate, exactly as `spec_classify` says.
pub fn classify(c: &CandidateFunction, allowed: &Vec<ReceiverShape>) -> (r: Option<CallKind>)
    ensures
        r == spec_classify(*c, allowed@),
{
    if !shape_allowed(allowed, c.receiver) {
        None
    } else if c.via_dispatch {
        Some(CallKind::Dispatchable)
    } else if c.is_public {
        Some(CallKind::PubAssocFn)
    } else {
        None
    }
}

/// Says why a candidate is skipped, or `None` when it is accepted. A skip is
/// recorded, never an error: every candidate list classifies completely.
pub fn skip_reason(c: &CandidateFunction, allowed: &Vec<ReceiverShape>) -> (r: Option<SkipReason>)
    ensures
        r == spec_skip_reason(*c, allowed@),
        r is Some <==> spec_classify(*c, allowed@) is None,
{
    if !shape_allowed(allowed, c.receiver) {
        Some(SkipReason::UnsupportedReceiver)
    } else if !c.via_dispatch && !c.is_public {
        Some(SkipReason::NotEligible)
    } else {
        None
    }
}

/// A synthesized, directly callable analysis root, derived one for one from
/// an accepted candidate. The generated name is the reversible encoding of
/// the candidate's kind and qualified path.
pub struct EntryPoint {
    pub kind: CallKind,
    pub path: Vec<String>,
    pub self_ty: String,
    pub receiver: ReceiverShape,
    pub param_tys: Vec<String>,
    pub name: String,
}

/// An entry point mirrors its candidate and carries the generated name the
/// encoding assigns to it.
pub open spec fn entry_point_matches(e: EntryPoint, k: CallKind, c: CandidateFunction) -> bool {
    &&& e.kind == k
    &&& e.path.deep_view() == c.path.deep_view()
    &&& e.self_ty@ == c.self_ty@
    &&& e.receiver == c.receiver
    &&& e.param_tys.deep_view() == c.param_tys.deep_view()
    &&& e.name@ == encoded_name(k, c.path.deep_view())
}

/// The classification of every candidate, in declaration order: the kinds of
/// the accepted candidates paired with their index in the input.
pub open spec fn spec_plan(items: Seq<CandidateFunction>, allowed: Seq<ReceiverShape>) -> Seq<
    (CallKind, int),
>
    decreases items.len(),
{
    if items.len() == 0 {
        Seq::empty()
    } else {
        let prev = spec_plan(items.drop_last(), allowed);
        match spec_classify(items.last(), allowed) {
            Some(k) => prev.push((k, items.len() - 1)),
            None => prev,
        }
    }
}

pub proof fn lemma_spec_plan_indexes(items: Seq<CandidateFunction>, allowed: Seq<ReceiverShape>)
    ensures
        forall|i: int|
            0 <= i < spec_plan(items, allowed).len() ==> 0 <= (
            #[trigger] spec_plan(items, allowed)[i]).1 < items.len(),
    decreases items.len(),
{
    if items.len() > 0 {
        lemma_spec_plan_indexes(items.drop_last(), allowed);
        let prev = spec_plan(items.drop_last(), allowed);
        assert forall|i: int| 0 <= i < spec_plan(items, allowed).len() implies 0 <= (
        #[trigger] spec_plan(items, allowed)[i]).1 < items.len() by {
            if i < prev.len() {
                assert(spec_plan(items, allowed)[i] == prev[i]);
                assert(0 <= prev[i].1 < items.drop_last().len());
            } else {
                assert(spec_plan(items, allowed)[i].1 == items.len() - 1);
            }
        }
    }
}

/// Classifies the candidates in order and synthesizes one entry point per
/// accepted candidate. Skipped candidates are left out silently; the pass
/// never fails.
pub fn classify_all(items: &Vec<CandidateFunction>, allowed: &Vec<ReceiverShape>) -> (r: Vec<
    EntryPoint,
>)
    ensures
        r@.len() == spec_plan(items@, allowed@).len(),
        forall|i: int|
            0 <= i < r@.len() ==> {
                let p = #[trigger] spec_plan(items@, allowed@)[i];
                0 <= p.1 < items@.len() && entry_point_matches(r@[i], p.0, items@[p.1])
            },
{
    let mut out: Vec<EntryPoint> = Vec::new();
    let mut idx: usize = 0;
    while idx < items.len()
        invariant
            idx <= items.len(),
            out@.len() == spec_plan(items@.take(idx as int), allowed@).len(),
            forall|i: int|
                0 <= i < out@.len() ==> {
                    let p = #[trigger] spec_plan(items@.take(idx as int), allowed@)[i];
                    0 <= p.1 < idx && entry_point_matches(out@[i], p.0, items@[p.1])
                },
        decreases items.len() - idx,
    {
        let c = &items[idx];
        proof {
            lemma_spec_plan_indexes(items@.take(idx as int), allowed@);
            assert(items@.take(idx as int + 1).drop_last() =~= items@.take(idx as int));
            assert(items@.take(idx as int + 1).last() == items@[idx as int]);
        }
        match classify(c, allowed) {
            Some(k) => {
                let mut path: Vec<String> = Vec::new();
                let mut pi: usize = 0;
                while pi < c.path.len()
                    invariant
                        pi <= c.path.len(),
                        path@.len() == pi,
                        forall|j: int| 0 <= j < pi ==> path@[j]@ == c.path@[j]@,
                    decreases c.path.len() - pi,
                {
                    path.push(c.path[pi].clone());
                    pi = pi + 1;
                }
                proof {
                    assert(path.deep_view() =~= c.path.deep_view());
                }
                let name = encode_name(k, &path);
                let mut param_tys: Vec<String> = Vec::new();
                let mut qi: usize = 0;
                while qi < c.param_tys.len()
                    invariant
                        qi <= c.param_tys.len(),
                        param_tys@.len() == qi,
                        forall|j: int| 0 <= j < qi ==> param_tys@[j]@ == c.param_tys@[j]@,
                    decreases c.param_tys.len() - qi,
                {
                    param_tys.push(c.param_tys[qi].clone());
                    qi = qi + 1;
                }
                proof {
                    assert(param_tys.deep_view() =~= c.param_tys.deep_view());
                }
                let ep = EntryPoint {
                    kind: k,
                    path,
                    self_ty: c.self_ty.clone(),
                    receiver: c.receiver,
                    param_tys,
                    name,
                };
                out.push(ep);
            },
            None => {},
        }
        idx = idx + 1;
    }
    proof {
        assert(items@.take(items@.len() as int) =~= items@);
    }
    out
}

/// A candidate with a receiver shape outside the allow-list is excluded from
/// the entry-point set, and excluding it changes nothing else: the plan for
/// the other candidates is untouched, so one unsupported candidate never
/// aborts the run.
pub proof fn lemma_unsupported_receiver_excluded(
    items: Seq<CandidateFunction>,
    c: CandidateFunction,
    allowed: Seq<ReceiverShape>,
)
    requires
        !allowed.contains(c.receiver),
    ensures
        spec_classify(c, allowed) is None,
        spec_skip_reason(c, allowed) == Some(SkipReason::UnsupportedReceiver),
        spec_plan(items.push(c), allowed) == spec_plan(items, allowed),
{
    assert(items.push(c).drop_last() =~= items);
    assert(items.push(c).last() == c);
}

} // verus!
