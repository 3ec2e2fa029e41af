//! Two-pass compilation orchestration. The collect pass classifies the
//! candidates the host compiler parsed, synthesizes the augmented source and
//! registers it with the overlay; the verify pass consumes the findings the
//! analysis engine reported against the generated entry points and remaps
//! each back to the original item through the reversible name encoding.
//! Between the two passes the augmented unit is re-parsed once, so a defect
//! in the synthesized code fails fast as an internal-tool error instead of
//! surfacing as a finding. The phases only ever advance — collect, validate,
//! verify, done — with no loop back. A host compilation failure aborts the
//! run; a skipped candidate or a finding never does.

use vstd::prelude::*;

use crate::CallKind;
use crate::augment::{augmented_text, build_augmented};
use crate::classify::{CandidateFunction, EntryPoint, ReceiverShape, classify_all,
    entry_point_matches, spec_plan};
use crate::config::PointerWidth;
use crate::names::{decode_name, spec_decode};
use crate::overlay::SourceOverlay;

verus! {

/// Where the pipeline stands. Phases only ever advance.
#[derive(Debug, Clone, Copy, PartialEq, Eq, Structural)]
pub enum Phase {
    Collect,
    Validate,
    Verify,
    Done,
}

/// Everything both passes must agree on, established before the first pass
/// and read-only afterward.
pub struct AnalysisConfig {
    /// Receiver shapes the synthesizer can wrap.
    pub allowed: Vec<ReceiverShape>,
    /// Pointer width of the intended deployment target.
    pub pointer_width: PointerWidth,
    /// External symbols the analysis engine needs a contract stub for.
    pub stub_symbols: Vec<Vec<String>>,
}

/// What the host compiler reports back from the collect pass.
pub enum ParseOutcome {
    /// The user's crate does not compile; surfaced verbatim, no second pass.
    CompileFailed,
    /// The candidate functions visible in the crate root, in declaration
    /// order.
    Items(Vec<CandidateFunction>),
}

/// What the analysis engine reports back from the verify pass.
pub enum AnalysisOutcome {
    /// The augmented crate failed to compile: an internal-tool error, not a
    /// finding about the user's crate.
    CompileFailed,
    /// The findings, each against a generated entry point.
    Findings(Vec<RawFinding>),
}

/// A finding as the analysis engine reports it: located by generated name.
pub struct RawFinding {
    pub entry_name: String,
    pub message: String,
}

/// A finding remapped to the original item it concerns.
pub struct Finding {
    pub kind: CallKind,
    pub path: Vec<String>,
    pub message: String,
}

/// The run failed outside the analysis itself.
#[derive(Debug, Clone, Copy, PartialEq, Eq, Structural)]
pub enum RunError {
    /// The user's crate failed to compile; surfaced verbatim, no second
    /// pass.
    HostCompileError,
    /// The synthesized code failed to re-parse or type-check: an
    /// internal-tool defect, reported distinctly from analysis findings.
    SynthesisError,
}

/// What the in-process re-parse of the augmented unit reports back.
pub enum ValidationOutcome {
    /// The augmented text compiles; the verify pass may start.
    Confirmed,
    /// The augmented text does not compile.
    Rejected,
}

/// The findings that decode to an original item, in report order, each as
/// (kind, qualified path, message).
pub open spec fn spec_remap(raws: Seq<RawFinding>) -> Seq<(CallKind, Seq<Seq<char>>, Seq<char>)>
    decreases raws.len(),
{
    if raws.len() == 0 {
        Seq::empty()
    } else {
        let prev = spec_remap(raws.drop_last());
        match spec_decode(raws.last().entry_name@) {
            Some(kp) => prev.push((kp.0, kp.1, raws.last().message@)),
            None => prev,
        }
    }
}

/// The two-pass pipeline: its phase and the entry points selected in the
/// collect pass.
pub struct Pipeline {
    pub phase: Phase,
    pub plan: Vec<EntryPoint>,
}

impl Pipeline {
    /// A fresh pipeline, ready to collect.
    pub fn new() -> (r: Pipeline)
        ensures
            r.phase == Phase::Collect,
            r.plan@.len() == 0,
    {
        Pipeline { phase: Phase::Collect, plan: Vec::new() }
    }

    /// The collect pass. On parsed items: classifies them in order,
    /// synthesizes the augmented text for `source_path` and registers it
    /// with the overlay, then awaits confirmation that the augmented unit
    /// re-parses. On a host compilation failure: stops without touching the
    /// overlay.
    pub fn collect(
        &mut self,
        cfg: &AnalysisConfig,
        orig: &str,
        outcome: ParseOutcome,
        source_path: String,
        overlay: &mut SourceOverlay,
    ) -> (r: Result<(), RunError>)
        requires
            old(self).phase == Phase::Collect,
        ensures
            outcome is CompileFailed ==> {
                &&& r == Err::<(), RunError>(RunError::HostCompileError)
                &&& final(self).phase == Phase::Done
                &&& final(overlay)@ == old(overlay)@
            },
            outcome matches ParseOutcome::Items(items) ==> {
                &&& r == Ok::<(), RunError>(())
                &&& final(self).phase == Phase::Validate
                &&& final(self).plan@.len() == spec_plan(items@, cfg.allowed@).len()
                &&& (forall|i: int|
                    0 <= i < final(self).plan@.len() ==> {
                        let p = #[trigger] spec_plan(items@, cfg.allowed@)[i];
                        0 <= p.1 < items@.len() && entry_point_matches(
                            final(self).plan@[i],
                            p.0,
                            items@[p.1],
                        )
                    })
                &&& final(overlay)@ == old(overlay)@.insert(
                    source_path@,
                    augmented_text(orig@, final(self).plan@, cfg.stub_symbols.deep_view()),
                )
            },
    {
        match outcome {
            ParseOutcome::CompileFailed => {
                self.phase = Phase::Done;
                Err(RunError::HostCompileError)
            },
            ParseOutcome::Items(items) => {
                let plan = classify_all(&items, &cfg.allowed);
                let text = build_augmented(orig, &plan, &cfg.stub_symbols);
                overlay.register(source_path, text);
                self.plan = plan;
                self.phase = Phase::Validate;
                Ok(())
            },
        }
    }

    /// Fail fast on the synthesized code: the augmented unit is re-parsed
    /// within the collect pass's process, and only a confirmed unit goes on
    /// to the verify pass. A rejection is an internal-tool error, reported
    /// distinctly from both host failures and findings; it never counts
    /// against the user's crate.
    pub fn confirm(&mut self, outcome: ValidationOutcome) -> (r: Result<(), RunError>)
        requires
            old(self).phase == Phase::Validate,
        ensures
            final(self).plan == old(self).plan,
            outcome is Confirmed ==> r == Ok::<(), RunError>(()) && final(self).phase
                == Phase::Verify,
            outcome is Rejected ==> r == Err::<(), RunError>(RunError::SynthesisError)
                && final(self).phase == Phase::Done,
    {
        match outcome {
            ValidationOutcome::Confirmed => {
                self.phase = Phase::Verify;
                Ok(())
            },
            ValidationOutcome::Rejected => {
                self.phase = Phase::Done;
                Err(RunError::SynthesisError)
            },
        }
    }

    /// The verify pass: terminal either way. Analysis findings are remapped
    /// one by one to the original (kind, path) their generated name decodes
    /// to; a finding whose location does not decode is dropped rather than
    /// misattributed. An augmented-crate compilation failure is an
    /// internal-tool error.
    pub fn verify(&mut self, outcome: AnalysisOutcome) -> (r: Result<Vec<Finding>, RunError>)
        requires
            old(self).phase == Phase::Verify,
            outcome matches AnalysisOutcome::Findings(raws) ==> forall|i: int|
                0 <= i < raws@.len() ==> (#[trigger] raws@[i]).entry_name@.len() <= (usize::MAX
                    - 9) / 10,
        ensures
            final(self).phase == Phase::Done,
            final(self).plan == old(self).plan,
            outcome is CompileFailed ==> r == Err::<Vec<Finding>, RunError>(
                RunError::HostCompileError,
            ),
            outcome matches AnalysisOutcome::Findings(raws) ==> r matches Ok(fs) && {
                &&& fs@.len() == spec_remap(raws@).len()
                &&& (forall|i: int|
                    0 <= i < fs@.len() ==> {
                        let m = #[trigger] spec_remap(raws@)[i];
                        fs@[i].kind == m.0 && fs@[i].path.deep_view() == m.1 && fs@[i].message@
                            == m.2
                    })
            },
    {
        self.phase = Phase::Done;
        match outcome {
            AnalysisOutcome::CompileFailed => Err(RunError::HostCompileError),
            AnalysisOutcome::Findings(raws) => {
                let mut fs: Vec<Finding> = Vec::new();
                let mut idx: usize = 0;
                while idx < raws.len()
                    invariant
                        idx <= raws.len(),
                        forall|i: int|
                            0 <= i < raws@.len() ==> (#[trigger] raws@[i]).entry_name@.len() <= (
                            usize::MAX - 9) / 10,
                        fs@.len() == spec_remap(raws@.take(idx as int)).len(),
                        forall|i: int|
                            0 <= i < fs@.len() ==> {
                                let m = #[trigger] spec_remap(raws@.take(idx as int))[i];
                                fs@[i].kind == m.0 && fs@[i].path.deep_view() == m.1
                                    && fs@[i].message@ == m.2
                            },
                    decreases raws.len() - idx,
                {
                    let raw = &raws[idx];
                    proof {
                        assert(raws@.take(idx as int + 1).drop_last() =~= raws@.take(idx as int));
                        assert(raws@.take(idx as int + 1).last() == raws@[idx as int]);
                    }
                    match decode_name(raw.entry_name.as_str()) {
                        Some(kp) => {
                            let f = Finding {
                                kind: kp.0,
                                path: kp.1,
                                message: raw.message.clone(),
                            };
                            fs.push(f);
                        },
                        None => {},
                    }
                    idx = idx + 1;
                }
                proof {
                    assert(raws@.take(raws@.len() as int) =~= raws@);
                }
                Ok(fs)
            },
        }
    }
}

/// Changing the configured pointer width may change overflow-related
/// findings, but never the set of classified entry points: two
/// configurations with the same receiver allow-list select the same plan
/// for the same source, whatever their widths.
pub proof fn lemma_width_independent_selection(
    cfg1: AnalysisConfig,
    cfg2: AnalysisConfig,
    items: Seq<CandidateFunction>,
)
    requires
        cfg1.allowed@ == cfg2.allowed@,
    ensures
        spec_plan(items, cfg1.allowed@) == spec_plan(items, cfg2.allowed@),
{
}

} // verus!
