//! Target configuration shared by both compiler passes. The analysis
//! semantics depend on the pointer width of the intended deployment target,
//! which cross-compilation makes unsafe to infer from the host: it is read
//! from a dedicated configuration variable, and both passes must see the
//! same value.

use vstd::prelude::*;

verus! {

/// Pointer width of the target execution environment.
#[derive(Debug, Clone, Copy, PartialEq, Eq, Structural)]
pub enum PointerWidth {
    W16,
    W32,
    W64,
}

/// The textual form of a pointer width, as the configuration variable holds
/// it.
pub open spec fn width_text(w: PointerWidth) -> Seq<char> {
    match w {
        PointerWidth::W16 => "16"@,
        PointerWidth::W32 => "32"@,
        PointerWidth::W64 => "64"@,
    }
}

/// Name of the configuration variable that carries the target pointer width
/// across both passes.
pub open spec fn width_var_name() -> Seq<char> {
    "PALLET_VERIFIER_TARGET_POINTER_WIDTH"@
}

/// Name of the configuration variable (executable form).
pub fn width_var_name_str() -> (r: &'static str)
    ensures
        r@ == width_var_name(),
{
    "PALLET_VERIFIER_TARGET_POINTER_WIDTH"
}

/// The width in bits.
pub fn width_bits(w: PointerWidth) -> (r: u32)
    ensures
        w == PointerWidth::W16 ==> r == 16,
        w == PointerWidth::W32 ==> r == 32,
        w == PointerWidth::W64 ==> r == 64,
{
    match w {
        PointerWidth::W16 => 16,
        PointerWidth::W32 => 32,
        PointerWidth::W64 => 64,
    }
}

/// Parses the configuration value: exactly the three enumerated widths are
/// accepted, anything else is refused.
pub fn parse_pointer_width(s: &str) -> (r: Option<PointerWidth>)
    ensures
        match r {
            Some(w) => s@ == width_text(w),
            None => s@ != "16"@ && s@ != "32"@ && s@ != "64"@,
        },
{
    proof {
        reveal_strlit("16");
        reveal_strlit("32");
        reveal_strlit("64");
    }
    let n = s.unicode_len();
    if n != 2 {
        return None;
    }
    let c0 = s.get_char(0);
    let c1 = s.get_char(1);
    if c0 == '1' && c1 == '6' {
        proof {
            assert(s@ =~= "16"@);
        }
        Some(PointerWidth::W16)
    } else if c0 == '3' && c1 == '2' {
        proof {
            assert(s@ =~= "32"@);
        }
        Some(PointerWidth::W32)
    } else if c0 == '6' && c1 == '4' {
        proof {
            assert(s@ =~= "64"@);
        }
        Some(PointerWidth::W64)
    } else {
        None
    }
}

/// The width both passes use: the configured one where it is set, else the
/// host's width, which is only safe when host and target agree.
pub fn effective_width(configured: Option<PointerWidth>, host: PointerWidth) -> (r: PointerWidth)
    ensures
        configured is Some ==> r == configured.unwrap(),
        configured is None ==> r == host,
{
    match configured {
        Some(w) => w,
        None => host,
    }
}

} // verus!
