//! Entry-point and contract-stub synthesis: emits the text of the generated
//! modules that are layered over the original source.
//!
//! Every synthesized function is a wrapper with one job: give the analysis a
//! directly callable root with a uniform shape. Parameters mirror the
//! original's parameters one for one; a receiver becomes an explicit leading
//! parameter, so the analysis treats it as one more symbolic input; the body
//! is a single call forwarding everything. Contract stubs are minimal
//! stand-ins for external symbols, one per symbol, whose effect the analysis
//! engine treats as unconstrained.

use vstd::prelude::*;

use crate::classify::{EntryPoint, ReceiverShape};
use crate::digits::{dec_digits, usize_to_dec};
use crate::names::{contracts_mod_name, contracts_mod_name_str, entry_points_mod_name,
    entry_points_mod_name_str};

verus! {

/// The label of the `i`-th mirrored parameter.
pub open spec fn param_label(i: nat) -> Seq<char> {
    seq!['p'] + dec_digits(i)
}

/// The path of the wrapped item, rooted at the crate so the wrapper can call
/// it from inside the generated module: `crate::a::b::c`.
pub open spec fn call_path_text(segs: Seq<Seq<char>>, i: int) -> Seq<char>
    decreases segs.len() - i,
{
    if i < 0 || i >= segs.len() {
        Seq::empty()
    } else {
        "::"@ + segs[i] + call_path_text(segs, i + 1)
    }
}

/// The declared parameters from position `i` on, each preceded by its
/// separator: `, p0: T0, p1: T1`.
pub open spec fn params_tail_text(tys: Seq<Seq<char>>, i: int) -> Seq<char>
    decreases tys.len() - i,
{
    if i < 0 || i >= tys.len() {
        Seq::empty()
    } else {
        ", "@ + param_label(i as nat) + ": "@ + tys[i] + params_tail_text(tys, i + 1)
    }
}

/// The forwarded arguments from position `i` on, each preceded by its
/// separator: `, p0, p1`.
pub open spec fn args_tail_text(n: int, i: int) -> Seq<char>
    decreases n - i,
{
    if i < 0 || i >= n {
        Seq::empty()
    } else {
        ", "@ + param_label(i as nat) + args_tail_text(n, i + 1)
    }
}

/// The type text of the synthesized receiver parameter.
pub open spec fn receiver_ty_text(shape: ReceiverShape, self_ty: Seq<char>) -> Seq<char> {
    match shape {
        ReceiverShape::SharedRef => "&"@ + self_ty,
        ReceiverShape::UniqueRef => "&mut "@ + self_ty,
        _ => self_ty,
    }
}

/// The full parameter list of a wrapper. A candidate with a receiver gets it
/// as an explicit leading parameter named `st`, externally supplied like
/// every other symbolic input; the mirrored parameters follow.
pub open spec fn wrapper_params_text(e: EntryPoint) -> Seq<char> {
    if e.receiver is NoReceiver {
        if e.param_tys.deep_view().len() == 0 {
            Seq::empty()
        } else {
            param_label(0) + ": "@ + e.param_tys.deep_view()[0] + params_tail_text(
                e.param_tys.deep_view(),
                1,
            )
        }
    } else {
        "st: "@ + receiver_ty_text(e.receiver, e.self_ty@) + params_tail_text(
            e.param_tys.deep_view(),
            0,
        )
    }
}

/// The full argument list of the single forwarding call.
pub open spec fn wrapper_args_text(e: EntryPoint) -> Seq<char> {
    let n = e.param_tys.deep_view().len() as int;
    if e.receiver is NoReceiver {
        if n == 0 {
            Seq::empty()
        } else {
            param_label(0) + args_tail_text(n, 1)
        }
    } else {
        "st"@ + args_tail_text(n, 0)
    }
}

/// The complete text of one wrapper function: a uniform signature and a body
/// that is exactly one call to the original item.
pub open spec fn wrapper_text(e: EntryPoint) -> Seq<char> {
    "    pub fn "@ + e.name@ + "("@ + wrapper_params_text(e) + ") {\n        crate"@
        + call_path_text(e.path.deep_view(), 0) + "("@ + wrapper_args_text(e) + ");\n    }\n"@
}

/// The wrappers of all entry points from position `i` on, in order.
pub open spec fn wrappers_text(eps: Seq<EntryPoint>, i: int) -> Seq<char>
    decreases eps.len() - i,
{
    if i < 0 || i >= eps.len() {
        Seq::empty()
    } else {
        wrapper_text(eps[i]) + wrappers_text(eps, i + 1)
    }
}

/// The generated entry-points module: one wrapper per entry point, nothing
/// else.
pub open spec fn entry_mod_text(eps: Seq<EntryPoint>) -> Seq<char> {
    "\nmod "@ + entry_points_mod_name() + " {\n"@ + wrappers_text(eps, 0) + "}\n"@
}

/// The flat name of the stub standing in for an external symbol.
pub open spec fn stub_name_text(sym: Seq<Seq<char>>, i: int) -> Seq<char>
    decreases sym.len() - i,
{
    if i < 0 || i >= sym.len() {
        Seq::empty()
    } else {
        "__"@ + sym[i] + stub_name_text(sym, i + 1)
    }
}

/// One contract stub: a minimal body that type-checks; the analysis engine
/// treats its computed effect as unconstrained.
pub open spec fn stub_text(sym: Seq<Seq<char>>) -> Seq<char> {
    "    pub fn contract"@ + stub_name_text(sym, 0) + "() {\n    }\n"@
}

/// The stubs for all external symbols from position `i` on, in order.
pub open spec fn stubs_text(syms: Seq<Seq<Seq<char>>>, i: int) -> Seq<char>
    decreases syms.len() - i,
{
    if i < 0 || i >= syms.len() {
        Seq::empty()
    } else {
        stub_text(syms[i]) + stubs_text(syms, i + 1)
    }
}

/// The generated contracts module: exactly one stub per external symbol.
pub open spec fn contracts_mod_text(syms: Seq<Seq<Seq<char>>>) -> Seq<char> {
    "\nmod "@ + contracts_mod_name() + " {\n"@ + stubs_text(syms, 0) + "}\n"@
}

/// Everything synthesis appends to a source unit.
pub open spec fn generated_text(eps: Seq<EntryPoint>, syms: Seq<Seq<Seq<char>>>) -> Seq<char> {
    entry_mod_text(eps) + contracts_mod_text(syms)
}

/// An empty external-symbol list produces a contracts module with zero
/// stubs: only the module header and its closing brace.
pub proof fn lemma_no_symbols_no_stubs(syms: Seq<Seq<Seq<char>>>)
    requires
        syms.len() == 0,
    ensures
        contracts_mod_text(syms) == "\nmod "@ + contracts_mod_name() + " {\n"@ + "}\n"@,
{
    assert(stubs_text(syms, 0) == Seq::<char>::empty());
    assert("\nmod "@ + contracts_mod_name() + " {\n"@ + Seq::<char>::empty() + "}\n"@
        =~= "\nmod "@ + contracts_mod_name() + " {\n"@ + "}\n"@);
}

fn label_string(i: usize) -> (r: String)
    ensures
        r@ == param_label(i as nat),
{
    let mut s = String::from_str("p");
    s.append(usize_to_dec(i).as_str());
    proof {
        reveal_strlit("p");
        assert(s@ =~= param_label(i as nat));
    }
    s
}

fn call_path_string(path: &Vec<String>, i: usize) -> (r: String)
    requires
        i <= path.len(),
    ensures
        r@ == call_path_text(path.deep_view(), i as int),
    decreases path.len() - i,
{
    if i >= path.len() {
        String::new()
    } else {
        let mut s = String::from_str("::");
        s.append(path[i].as_str());
        s.append(call_path_string(path, i + 1).as_str());
        proof {
            assert(path.deep_view()[i as int] == path@[i as int]@);
            assert(s@ =~= call_path_text(path.deep_view(), i as int));
        }
        s
    }
}

fn params_tail_string(tys: &Vec<String>, i: usize) -> (r: String)
    requires
        i <= tys.len(),
    ensures
        r@ == params_tail_text(tys.deep_view(), i as int),
    decreases tys.len() - i,
{
    if i >= tys.len() {
        String::new()
    } else {
        let mut s = String::from_str(", ");
        s.append(label_string(i).as_str());
        s.append(": ");
        s.append(tys[i].as_str());
        s.append(params_tail_string(tys, i + 1).as_str());
        proof {
            assert(tys.deep_view()[i as int] == tys@[i as int]@);
            assert(s@ =~= params_tail_text(tys.deep_view(), i as int));
        }
        s
    }
}

fn args_tail_string(n: usize, i: usize) -> (r: String)
    ensures
        r@ == args_tail_text(n as int, i as int),
    decreases n - i,
{
    if i >= n {
        String::new()
    } else {
        let mut s = String::from_str(", ");
        s.append(label_string(i).as_str());
        s.append(args_tail_string(n, i + 1).as_str());
        proof {
            assert(s@ =~= args_tail_text(n as int, i as int));
        }
        s
    }
}

/// Builds the text of one wrapper, exactly as `wrapper_text` states it.
pub fn build_wrapper(e: &EntryPoint) -> (r: String)
    ensures
        r@ == wrapper_text(*e),
{
    let mut s = String::from_str("    pub fn ");
    s.append(e.name.as_str());
    s.append("(");
    match e.receiver {
        ReceiverShape::NoReceiver => {
            if e.param_tys.len() > 0 {
                s.append(label_string(0).as_str());
                s.append(": ");
                s.append(e.param_tys[0].as_str());
                s.append(params_tail_string(&e.param_tys, 1).as_str());
                proof {
                    assert(e.param_tys.deep_view()[0] == e.param_tys@[0]@);
                }
            }
        },
        _ => {
            s.append("st: ");
            match e.receiver {
                ReceiverShape::SharedRef => {
                    s.append("&");
                    s.append(e.self_ty.as_str());
                },
                ReceiverShape::UniqueRef => {
                    s.append("&mut ");
                    s.append(e.self_ty.as_str());
                },
                _ => {
                    s.append(e.self_ty.as_str());
                },
            }
            s.append(params_tail_string(&e.param_tys, 0).as_str());
        },
    }
    proof {
        assert(s@ =~= "    pub fn "@ + e.name@ + "("@ + wrapper_params_text(*e));
    }
    s.append(") {\n        crate");
    s.append(call_path_string(&e.path, 0).as_str());
    s.append("(");
    match e.receiver {
        ReceiverShape::NoReceiver => {
            if e.param_tys.len() > 0 {
                s.append(label_string(0).as_str());
                s.append(args_tail_string(e.param_tys.len(), 1).as_str());
            }
        },
        _ => {
            s.append("st");
            s.append(args_tail_string(e.param_tys.len(), 0).as_str());
        },
    }
    s.append(");\n    }\n");
    proof {
        assert(s@ =~= wrapper_text(*e));
    }
    s
}

fn wrappers_string(eps: &Vec<EntryPoint>, i: usize) -> (r: String)
    requires
        i <= eps.len(),
    ensures
        r@ == wrappers_text(eps@, i as int),
    decreases eps.len() - i,
{
    if i >= eps.len() {
        String::new()
    } else {
        let mut s = build_wrapper(&eps[i]);
        s.append(wrappers_string(eps, i + 1).as_str());
        s
    }
}

/// Builds the generated entry-points module for the accepted entry points,
/// exactly as `entry_mod_text` states it.
pub fn build_entry_mod(eps: &Vec<EntryPoint>) -> (r: String)
    ensures
        r@ == entry_mod_text(eps@),
{
    let mut s = String::from_str("\nmod ");
    s.append(entry_points_mod_name_str());
    s.append(" {\n");
    s.append(wrappers_string(eps, 0).as_str());
    s.append("}\n");
    proof {
        assert(s@ =~= entry_mod_text(eps@));
    }
    s
}

fn stub_name_string(sym: &Vec<String>, i: usize) -> (r: String)
    requires
        i <= sym.len(),
    ensures
        r@ == stub_name_text(sym.deep_view(), i as int),
    decreases sym.len() - i,
{
    if i >= sym.len() {
        String::new()
    } else {
        let mut s = String::from_str("__");
        s.append(sym[i].as_str());
        s.append(stub_name_string(sym, i + 1).as_str());
        proof {
            assert(sym.deep_view()[i as int] == sym@[i as int]@);
            assert(s@ =~= stub_name_text(sym.deep_view(), i as int));
        }
        s
    }
}

/// Builds one contract stub, exactly as `stub_text` states it.
pub fn build_stub(sym: &Vec<String>) -> (r: String)
    ensures
        r@ == stub_text(sym.deep_view()),
{
    let mut s = String::from_str("    pub fn contract");
    s.append(stub_name_string(sym, 0).as_str());
    s.append("() {\n    }\n");
    proof {
        assert(s@ =~= stub_text(sym.deep_view()));
    }
    s
}

fn stubs_string(syms: &Vec<Vec<String>>, i: usize) -> (r: String)
    requires
        i <= syms.len(),
    ensures
        r@ == stubs_text(syms.deep_view(), i as int),
    decreases syms.len() - i,
{
    if i >= syms.len() {
        String::new()
    } else {
        let mut s = build_stub(&syms[i]);
        s.append(stubs_string(syms, i + 1).as_str());
        proof {
            assert(syms.deep_view()[i as int] == syms@[i as int].deep_view());
            assert(s@ =~= stubs_text(syms.deep_view(), i as int));
        }
        s
    }
}

/// Builds the generated contracts module: one stub per external symbol, in
/// the order the symbol list gives, exactly as `contracts_mod_text` states.
pub fn build_contracts_mod(syms: &Vec<Vec<String>>) -> (r: String)
    ensures
        r@ == contracts_mod_text(syms.deep_view()),
{
    let mut s = String::from_str("\nmod ");
    s.append(contracts_mod_name_str());
    s.append(" {\n");
    s.append(stubs_string(syms, 0).as_str());
    s.append("}\n");
    proof {
        assert(s@ =~= contracts_mod_text(syms.deep_view()));
    }
    s
}

} // verus!
