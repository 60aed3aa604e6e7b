use spirv_codegen::backend::SpirCodegenBackend;
use spirv_codegen::codec::encode;
use spirv_codegen::compile::ModuleKind;
use spirv_codegen::link::link;
use spirv_codegen::link::optimize_thin;
use spirv_codegen::link::run_thin;
use spirv_codegen::link::LinkError;
use spirv_codegen::link::OutputKind;
use spirv_codegen::link::ThinModule;
use spirv_codegen::link::WorkProduct;
use spirv_codegen::SpirvModuleBuffer;
use spirv_codegen::SpirvThinBuffer;

#[test]
fn merging_one_fresh_with_two_cached_yields_three_candidates() {
    let fresh = vec![("fresh0".to_string(), SpirvThinBuffer::new(vec![0x07230203, 1]))];
    let cached = vec![
        (SpirvModuleBuffer::new(vec![0x07230203, 2]), WorkProduct { id: "cached0".to_string() }),
        (SpirvModuleBuffer::new(vec![0x07230203, 3]), WorkProduct { id: "cached1".to_string() }),
    ];
    let (candidates, work_products) = run_thin(fresh, cached);
    assert_eq!(candidates.len(), 3);
    assert_eq!(candidates[0].name, "fresh0");
    assert_eq!(candidates[1].name, "cached0");
    assert_eq!(candidates[2].name, "cached1");
    assert_eq!(candidates[0].buffer, encode(&vec![0x07230203, 1]));
    assert_eq!(candidates[1].buffer, encode(&vec![0x07230203, 2]));
    assert_eq!(candidates[2].buffer, encode(&vec![0x07230203, 3]));
    assert!(work_products.len() >= 2);
    assert_eq!(work_products.len(), 2);
    assert_eq!(work_products[0].id, "cached0");
    assert_eq!(work_products[1].id, "cached1");
}

#[test]
fn merging_nothing_yields_empty_lists() {
    let (candidates, work_products) = run_thin(vec![], vec![]);
    assert!(candidates.is_empty());
    assert!(work_products.is_empty());
}

#[test]
fn optimize_thin_is_a_validating_identity() {
    let words = vec![0x07230203u32, 9, 8, 7];
    let thin = ThinModule { name: "m".to_string(), buffer: encode(&words) };
    let module = optimize_thin(&thin).unwrap();
    assert_eq!(module.name, "m");
    assert_eq!(module.kind, ModuleKind::Regular);
    assert_eq!(module.module, words);
}

#[test]
fn optimize_thin_rejects_ragged_streams() {
    let thin = ThinModule { name: "bad".to_string(), buffer: vec![1, 2, 3] };
    match optimize_thin(&thin).unwrap_err() {
        LinkError::BufferDecodeFailure(name) => assert_eq!(name, "bad"),
        other => panic!("unexpected error {:?}", other),
    }
}

#[test]
fn non_library_output_kind_is_rejected_before_any_write() {
    let kinds = vec![OutputKind::Library, OutputKind::Executable];
    match link(&kinds).unwrap_err() {
        LinkError::UnsupportedOutputKind(kind) => assert_eq!(kind, OutputKind::Executable),
        other => panic!("unexpected error {:?}", other),
    }
    // A rejected build hands back no writes at all: zero bytes reach any
    // destination.
    assert!(link(&kinds).is_err());
}

#[test]
fn first_offending_kind_is_reported() {
    let kinds = vec![OutputKind::ProcMacro, OutputKind::StaticLibrary];
    match link(&kinds).unwrap_err() {
        LinkError::UnsupportedOutputKind(kind) => assert_eq!(kind, OutputKind::ProcMacro),
        other => panic!("unexpected error {:?}", other),
    }
}

#[test]
fn library_outputs_get_the_marker_payload() {
    let kinds = vec![OutputKind::Library, OutputKind::Library];
    let outs = link(&kinds).unwrap();
    assert_eq!(outs.len(), 2);
    for out in &outs {
        assert_eq!(out.kind, OutputKind::Library);
        assert_eq!(
            out.payload,
            "This has been \"compiled\" successfully using rustc_codegen_spir."
        );
    }
}

#[test]
fn no_requested_outputs_mean_no_writes() {
    let outs = link(&vec![]).unwrap();
    assert!(outs.is_empty());
}

#[test]
fn backend_facade_delegates_thin_stage() {
    let fresh = vec![("m0".to_string(), SpirvThinBuffer::new(vec![4, 5]))];
    let (candidates, work_products) = SpirCodegenBackend::run_thin_lto(fresh, vec![]);
    assert_eq!(candidates.len(), 1);
    assert!(work_products.is_empty());
    let module = SpirCodegenBackend.optimize_thin(&candidates[0]).unwrap();
    assert_eq!(module.module, vec![4, 5]);
    assert_eq!(module.name, "m0");
}
