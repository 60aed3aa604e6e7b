use spirv_codegen::backend::CodegenResults;
use spirv_codegen::backend::OngoingCodegen;
use spirv_codegen::backend::SpirCodegenBackend;
use spirv_codegen::codec::encode;
use spirv_codegen::compile::ModuleCodegen;
use spirv_codegen::compile::ModuleKind;
use spirv_codegen::link::WorkProduct;

#[test]
fn target_features_keep_only_enabling_tokens() {
    let backend = SpirCodegenBackend;
    let features = backend.target_features("+a,b,-c", "+d");
    assert_eq!(features, vec!["a".to_string(), "d".to_string()]);
}

#[test]
fn target_features_drop_bare_markers_and_empty_tokens() {
    let backend = SpirCodegenBackend;
    assert_eq!(backend.target_features("+,,", ""), Vec::<String>::new());
    assert_eq!(backend.target_features("", ""), Vec::<String>::new());
    assert_eq!(
        backend.target_features("-x,+yy", "+z,w,+v"),
        vec!["yy".to_string(), "z".to_string(), "v".to_string()]
    );
}

#[test]
fn command_line_features_come_first() {
    let backend = SpirCodegenBackend;
    assert_eq!(
        backend.target_features("+cmd", "+cfg"),
        vec!["cmd".to_string(), "cfg".to_string()]
    );
}

#[test]
fn codegen_serializes_module_words() {
    let module = ModuleCodegen {
        name: "m".to_string(),
        module: vec![0x07230203, 11],
        kind: ModuleKind::Regular,
    };
    let compiled = SpirCodegenBackend.codegen(module);
    assert_eq!(compiled.name, "m");
    assert_eq!(compiled.kind, ModuleKind::Regular);
    assert_eq!(compiled.object, encode(&vec![0x07230203, 11]));
}

#[test]
fn prepare_thin_and_serialize_keep_name_and_words() {
    let module = ModuleCodegen {
        name: "m".to_string(),
        module: vec![1, 2, 3],
        kind: ModuleKind::Regular,
    };
    let (name, thin) = SpirCodegenBackend::prepare_thin(module);
    assert_eq!(name, "m");
    assert_eq!(thin.data(), encode(&vec![1, 2, 3]));

    let module = ModuleCodegen {
        name: "n".to_string(),
        module: vec![4, 5],
        kind: ModuleKind::Regular,
    };
    let (name, buffer) = SpirCodegenBackend::serialize_module(module);
    assert_eq!(name, "n");
    assert_eq!(buffer.data(), encode(&vec![4, 5]));
}

#[test]
fn allocator_module_is_empty() {
    assert!(SpirCodegenBackend.codegen_allocator("alloc_shim").is_empty());
}

#[test]
fn module_optimization_is_a_no_op() {
    let module = ModuleCodegen {
        name: "m".to_string(),
        module: vec![],
        kind: ModuleKind::Regular,
    };
    assert!(SpirCodegenBackend.optimize(&module).is_ok());
}

#[test]
fn chosen_target_cpu_prefers_the_override() {
    let over = "gpu-x".to_string();
    assert_eq!(SpirCodegenBackend::chosen_target_cpu(Some(&over), "generic"), "gpu-x");
    assert_eq!(SpirCodegenBackend::chosen_target_cpu(None, "generic"), "generic");
}

#[test]
fn join_codegen_hands_results_through_unchanged() {
    let ongoing = OngoingCodegen {
        results: CodegenResults { crate_name: "demo".to_string(), modules: vec![] },
        work_products: vec![WorkProduct { id: "wp0".to_string() }],
    };
    let (results, work_products) = SpirCodegenBackend.join_codegen(ongoing);
    assert_eq!(results.crate_name, "demo");
    assert!(results.modules.is_empty());
    assert_eq!(work_products.len(), 1);
    assert_eq!(work_products[0].id, "wp0");
}
