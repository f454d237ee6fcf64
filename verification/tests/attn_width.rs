use spark_model::attn_width::{
    assert_width, paged_indirect_h128, paged_indirect_h256, paged_indirect_spec_for, PagedIndirectSpec,
    WidthError,
};

#[test]
fn head_dim_128_resolves_the_h128_specialization() {
    let s = paged_indirect_spec_for(128).unwrap();
    assert_eq!(s, paged_indirect_h128());
    assert_eq!(s.module, "prefill_paged_indirect_h128");
    assert_eq!(s.func, "inferspark_prefill_paged_indirect_h128");
    assert_eq!(s.hdim, 128);
}

#[test]
fn head_dim_256_resolves_the_existing_default_module() {
    let s = paged_indirect_spec_for(256).unwrap();
    assert_eq!(s, paged_indirect_h256());
    assert_eq!(s.module, "prefill_paged_indirect");
    assert_eq!(s.func, "inferspark_prefill_paged_indirect");
    assert_eq!(s.hdim, 256);
}

#[test]
fn unsupported_widths_are_explicit_errors() {
    for w in [0usize, 64, 96, 192, 512] {
        let e = paged_indirect_spec_for(w).unwrap_err().message();
        assert!(e.contains(&format!("head_dim={w}")), "{e}");
        assert!(
            e.contains("no paged-indirect attention specialization"),
            "{e}"
        );
    }
}

#[test]
fn width_guard_rejects_a_mismatched_module() {
    // HDIM=256 module, head_dim=128 drafter.
    let e = assert_width(paged_indirect_h256(), 128)
        .unwrap_err()
        .message();
    assert!(e.contains("compiled HDIM=256"), "{e}");
    assert!(e.contains("head_dim=128"), "{e}");
    assert!(assert_width(paged_indirect_h128(), 256).is_err());
    assert!(assert_width(paged_indirect_h128(), 128).is_ok());
    assert!(assert_width(paged_indirect_h256(), 256).is_ok());
}

#[test]
fn every_supported_width_passes_its_own_guard() {
    for w in [128usize, 256] {
        let s = paged_indirect_spec_for(w).unwrap();
        assert_width(s, w).unwrap();
    }
}

#[test]
fn unsupported_width_error_carries_the_width() {
    assert_eq!(
        paged_indirect_spec_for(100),
        Err(WidthError::NoSpecialization { head_dim: 100 })
    );
    assert_eq!(
        paged_indirect_spec_for(usize::MAX),
        Err(WidthError::NoSpecialization { head_dim: usize::MAX })
    );
    assert!(paged_indirect_spec_for(127).is_err());
    assert!(paged_indirect_spec_for(129).is_err());
}

#[test]
fn no_specialization_message_is_exact() {
    let e = paged_indirect_spec_for(64).unwrap_err().message();
    assert_eq!(
        e,
        "DFlash drafter head_dim=64 has no paged-indirect attention specialization \
         (compiled widths: 128, 256). Refusing to run the \u{3b3}-block attention with a \
         mismatched tile width \u{2014} add an `inferspark_prefill_paged_indirect_h64` module \
         and register it in dflash_head::attn_width."
    );
    let zero = paged_indirect_spec_for(0).unwrap_err().message();
    assert!(zero.contains("head_dim=0 has"), "{zero}");
    assert!(zero.contains("indirect_h0`"), "{zero}");
}

#[test]
fn mismatch_error_names_module_and_both_widths() {
    assert_eq!(
        assert_width(paged_indirect_h128(), 4096),
        Err(WidthError::Mismatch {
            func: "inferspark_prefill_paged_indirect_h128",
            hdim: 128,
            head_dim: 4096
        })
    );
    let e = assert_width(paged_indirect_h128(), 4096).unwrap_err().message();
    assert_eq!(
        e,
        "DFlash paged-indirect attention width mismatch: module \
         `inferspark_prefill_paged_indirect_h128` is compiled HDIM=128 but the drafter \
         head_dim=4096. Refusing to arm the drafter (A93: this mismatch corrupts every \
         head's softmax while staying in-bounds)."
    );
}

#[test]
fn guard_judges_only_the_compiled_width() {
    let custom = PagedIndirectSpec {
        module: "m",
        func: "f",
        hdim: 96,
    };
    assert!(assert_width(custom, 96).is_ok());
    let e = assert_width(custom, 1234567890).unwrap_err().message();
    assert!(e.contains("module `f` is compiled HDIM=96"), "{e}");
    assert!(e.contains("head_dim=1234567890."), "{e}");
}

#[test]
fn guard_agrees_with_the_selector_for_each_build() {
    for w in [0usize, 64, 127, 128, 129, 255, 256, 512] {
        let selected_128 = paged_indirect_spec_for(w) == Ok(paged_indirect_h128());
        let selected_256 = paged_indirect_spec_for(w) == Ok(paged_indirect_h256());
        assert_eq!(assert_width(paged_indirect_h128(), w).is_ok(), selected_128);
        assert_eq!(assert_width(paged_indirect_h256(), w).is_ok(), selected_256);
    }
}
