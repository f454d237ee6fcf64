//! Drafter head-width to paged-indirect attention module.
//!
//! The paged-indirect attention kernel is compiled with a fixed tile width
//! (`HDIM`). The drafter passes its runtime `head_dim` into that kernel, so
//! the two must agree: a build of one width fed a drafter of another loads
//! neighbouring heads into one tile and corrupts every head's scores while
//! staying in bounds. This module is the single place that maps a drafter
//! width to a kernel and refuses any width that has no specialization, so
//! the mismatch cannot recur silently.

use vstd::prelude::*;
use crate::decimal::{append_decimal, decimal};

verus! {

/// One compiled width of the paged-indirect attention kernel.
#[derive(Clone, Copy, Debug, PartialEq, Eq)]
pub struct PagedIndirectSpec {
    /// Kernel module name (alias in the kernel manifest).
    pub module: &'static str,
    /// Entry symbol of the kernel.
    pub func: &'static str,
    /// Compile-time `HDIM` the module was built with.
    pub hdim: u32,
}

/// HDIM=256 build, the common default.
pub open spec fn h256_build() -> PagedIndirectSpec {
    PagedIndirectSpec {
        module: "prefill_paged_indirect",
        func: "inferspark_prefill_paged_indirect",
        hdim: 256,
    }
}

/// HDIM=128 build.
pub open spec fn h128_build() -> PagedIndirectSpec {
    PagedIndirectSpec {
        module: "prefill_paged_indirect_h128",
        func: "inferspark_prefill_paged_indirect_h128",
        hdim: 128,
    }
}

/// The HDIM=256 build, the common default.
#[verifier::when_used_as_spec(h256_build)]
pub fn paged_indirect_h256() -> (s: PagedIndirectSpec)
    ensures
        s == h256_build(),
{
    PagedIndirectSpec {
        module: "prefill_paged_indirect",
        func: "inferspark_prefill_paged_indirect",
        hdim: 256,
    }
}

/// The HDIM=128 build.
#[verifier::when_used_as_spec(h128_build)]
pub fn paged_indirect_h128() -> (s: PagedIndirectSpec)
    ensures
        s == h128_build(),
{
    PagedIndirectSpec {
        module: "prefill_paged_indirect_h128",
        func: "inferspark_prefill_paged_indirect_h128",
        hdim: 128,
    }
}

/// Why a drafter width cannot be served by a kernel.
#[derive(Clone, Copy, Debug, PartialEq, Eq)]
pub enum WidthError {
    /// No specialization is compiled for this drafter `head_dim`.
    NoSpecialization { head_dim: usize },
    /// The module `func` was compiled for `hdim`, not for the drafter's `head_dim`.
    Mismatch { func: &'static str, hdim: u32, head_dim: usize },
}

/// The widths for which a specialization is compiled.
pub open spec fn is_supported_width(head_dim: int) -> bool {
    head_dim == 128 || head_dim == 256
}

/// The specialization selected for a drafter width.
pub open spec fn spec_for(head_dim: usize) -> Result<PagedIndirectSpec, WidthError> {
    if head_dim == 128 {
        Ok(paged_indirect_h128())
    } else if head_dim == 256 {
        Ok(paged_indirect_h256())
    } else {
        Err(WidthError::NoSpecialization { head_dim })
    }
}

/// The verdict of the load-time guard on binding `spec` to a drafter of `head_dim`.
pub open spec fn width_check(spec: PagedIndirectSpec, head_dim: usize) -> Result<(), WidthError> {
    if spec.hdim as int == head_dim as int {
        Ok(())
    } else {
        Err(WidthError::Mismatch { func: spec.func, hdim: spec.hdim, head_dim })
    }
}

/// Select the specialization whose compiled width equals the drafter's
/// `head_dim`. Any other width is an error: there is no safe fallback.
pub fn paged_indirect_spec_for(head_dim: usize) -> (res: Result<PagedIndirectSpec, WidthError>)
    ensures
        res == spec_for(head_dim),
        res is Ok <==> is_supported_width(head_dim as int),
        res matches Ok(s) ==> s.hdim as int == head_dim as int,
        res is Ok <==> (head_dim == 128 || head_dim == 256),
        res is Err ==> res == Err::<PagedIndirectSpec, WidthError>(
            WidthError::NoSpecialization { head_dim },
        ),
        head_dim == 128 ==> (res matches Ok(s) && s.hdim == 128 && s.module@
            == "prefill_paged_indirect_h128"@ && s.func@ == "inferspark_prefill_paged_indirect_h128"@),
        head_dim == 256 ==> (res matches Ok(s) && s.hdim == 256 && s.module@
            == "prefill_paged_indirect"@ && s.func@ == "inferspark_prefill_paged_indirect"@),
{
    match head_dim {
        128 => Ok(paged_indirect_h128()),
        256 => Ok(paged_indirect_h256()),
        other => Err(WidthError::NoSpecialization { head_dim: other }),
    }
}

/// Load-time guard: the module about to be bound must have been compiled
/// for exactly the drafter's width. Kept separate from the selector so a
/// caller that obtains a spec another way still cannot bind a mismatched
/// kernel.
pub fn assert_width(spec: PagedIndirectSpec, head_dim: usize) -> (res: Result<(), WidthError>)
    ensures
        res == width_check(spec, head_dim),
        res is Ok <==> spec.hdim as int == head_dim as int,
        res is Err ==> res == Err::<(), WidthError>(
            WidthError::Mismatch { func: spec.func, hdim: spec.hdim, head_dim },
        ),
{
    if spec.hdim as usize != head_dim {
        return Err(WidthError::Mismatch { func: spec.func, hdim: spec.hdim, head_dim });
    }
    Ok(())
}

/// A specialization chosen by the selector always passes the guard for the
/// width it was chosen for.
pub proof fn lemma_selected_spec_passes_its_guard(head_dim: usize)
    ensures
        spec_for(head_dim) matches Ok(s) ==> width_check(s, head_dim) is Ok,
{
}

/// For each compiled specialization, the guard accepts a drafter width
/// exactly when the selector would have chosen that specialization for it.
pub proof fn lemma_guard_agrees_with_selector(head_dim: usize)
    ensures
        width_check(h128_build(), head_dim) is Ok <==> spec_for(head_dim) == Ok::<
            PagedIndirectSpec,
            WidthError,
        >(h128_build()),
        width_check(h256_build(), head_dim) is Ok <==> spec_for(head_dim) == Ok::<
            PagedIndirectSpec,
            WidthError,
        >(h256_build()),
{
}

/// The selector and the guard never let a kernel run with a tile width
/// other than the drafter's: whatever the selector returns passes the guard
/// for that width and for no other width.
pub proof fn lemma_selected_kernel_serves_only_its_width(head_dim: usize, other: usize)
    requires
        other != head_dim,
    ensures
        spec_for(head_dim) matches Ok(s) ==> width_check(s, head_dim) is Ok && width_check(
            s,
            other,
        ) is Err,
{
}

/// The two compiled builds are distinct kernels: different widths, module
/// names and entry symbols, and each entry symbol is its module name with
/// the `inferspark_` prefix.
pub proof fn lemma_builds_are_distinct()
    ensures
        h128_build().hdim != h256_build().hdim,
        h128_build().module@ != h256_build().module@,
        h128_build().func@ != h256_build().func@,
        h128_build().func@ == "inferspark_"@ + h128_build().module@,
        h256_build().func@ == "inferspark_"@ + h256_build().module@,
{
    reveal_strlit("prefill_paged_indirect_h128");
    reveal_strlit("prefill_paged_indirect");
    reveal_strlit("inferspark_prefill_paged_indirect_h128");
    reveal_strlit("inferspark_prefill_paged_indirect");
    reveal_strlit("inferspark_");
    assert(h128_build().module@.len() != h256_build().module@.len());
    assert(h128_build().func@.len() != h256_build().func@.len());
    assert(h128_build().func@ =~= "inferspark_"@ + h128_build().module@);
    assert(h256_build().func@ =~= "inferspark_"@ + h256_build().module@);
}

impl WidthError {
    /// The human-readable text of the error.
    pub open spec fn spec_message(self) -> Seq<char> {
        match self {
            WidthError::NoSpecialization { head_dim } => "DFlash drafter head_dim="@ + decimal(
                head_dim as nat,
            ) + " has no paged-indirect attention specialization (compiled widths: 128, 256). Refusing to run the \u{3b3}-block attention with a mismatched tile width \u{2014} add an `inferspark_prefill_paged_indirect_h"@
                + decimal(head_dim as nat)
                + "` module and register it in dflash_head::attn_width."@,
            WidthError::Mismatch { func, hdim, head_dim } => "DFlash paged-indirect attention width mismatch: module `"@
                + func@ + "` is compiled HDIM="@ + decimal(hdim as nat)
                + " but the drafter head_dim="@ + decimal(head_dim as nat)
                + ". Refusing to arm the drafter (A93: this mismatch corrupts every head's softmax while staying in-bounds)."@,
        }
    }

    /// Renders the error as text.
    pub fn message(&self) -> (s: String)
        ensures
            s@ == self.spec_message(),
            self matches WidthError::NoSpecialization { head_dim } ==> s@.subrange(
                0,
                24 + decimal(head_dim as nat).len() as int,
            ) == "DFlash drafter head_dim="@ + decimal(head_dim as nat),
            self matches WidthError::Mismatch { func, hdim, head_dim } ==> s@.subrange(
                0,
                56 + func@.len() as int,
            ) == "DFlash paged-indirect attention width mismatch: module `"@ + func@,
    {
        match self {
            WidthError::NoSpecialization { head_dim } => {
                let mut s = String::from_str("DFlash drafter head_dim=");
                append_decimal(&mut s, *head_dim);
                s.append(" has no paged-indirect attention specialization (compiled widths: 128, 256). Refusing to run the \u{3b3}-block attention with a mismatched tile width \u{2014} add an `inferspark_prefill_paged_indirect_h");
                append_decimal(&mut s, *head_dim);
                s.append("` module and register it in dflash_head::attn_width.");
                proof {
                    reveal_strlit("DFlash drafter head_dim=");
                    assert(s@.subrange(0, 24 + decimal(*head_dim as nat).len() as int)
                        =~= "DFlash drafter head_dim="@ + decimal(*head_dim as nat));
                }
                s
            },
            WidthError::Mismatch { func, hdim, head_dim } => {
                let mut s = String::from_str("DFlash paged-indirect attention width mismatch: module `");
                s.append(func);
                s.append("` is compiled HDIM=");
                append_decimal(&mut s, *hdim as usize);
                s.append(" but the drafter head_dim=");
                append_decimal(&mut s, *head_dim);
                s.append(". Refusing to arm the drafter (A93: this mismatch corrupts every head's softmax while staying in-bounds).");
                proof {
                    reveal_strlit("DFlash paged-indirect attention width mismatch: module `");
                    assert(s@.subrange(0, 56 + func@.len() as int)
                        =~= "DFlash paged-indirect attention width mismatch: module `"@ + func@);
                }
                s
            },
        }
    }
}

} // verus!
