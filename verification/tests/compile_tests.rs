use spirv_codegen::backend::SpirCodegenBackend;
use spirv_codegen::compile::is_blocklisted_fn;
use spirv_codegen::compile::mir_dump_items;
use spirv_codegen::compile::panic_dump_destination;
use spirv_codegen::compile::CompilationUnit;
use spirv_codegen::compile::DumpTarget;
use spirv_codegen::compile::FnShape;
use spirv_codegen::compile::ItemKind;
use spirv_codegen::compile::Linkage;
use spirv_codegen::compile::ModuleBuilder;
use spirv_codegen::compile::ModuleKind;
use spirv_codegen::compile::ProgramItem;
use spirv_codegen::compile::Visibility;
use spirv_codegen::target::MemoryModel;
use spirv_codegen::target::SpirvTarget;

fn fn_item(name: &str, shape: FnShape) -> ProgramItem {
    ProgramItem {
        name: name.to_string(),
        kind: ItemKind::Fn { shape },
        linkage: Linkage::External,
        visibility: Visibility::Default,
    }
}

fn static_item(name: &str) -> ProgramItem {
    ProgramItem {
        name: name.to_string(),
        kind: ItemKind::Static,
        linkage: Linkage::Internal,
        visibility: Visibility::Hidden,
    }
}

#[test]
fn blocklist_covers_exactly_the_debug_fmt_shapes() {
    assert!(!is_blocklisted_fn(&fn_item("f", FnShape::Plain)));
    assert!(is_blocklisted_fn(&fn_item("fmt", FnShape::DebugFmtImplMethod)));
    assert!(is_blocklisted_fn(&fn_item(
        "fmt_decimal",
        FnShape::FmtDecimalHelper { parent_is_debug_fmt_impl: true }
    )));
    assert!(!is_blocklisted_fn(&fn_item(
        "fmt_decimal",
        FnShape::FmtDecimalHelper { parent_is_debug_fmt_impl: false }
    )));
    assert!(!is_blocklisted_fn(&static_item("s")));
}

#[test]
fn unit_with_one_excluded_item_defines_the_other_two() {
    let unit = CompilationUnit {
        name: "unit0".to_string(),
        items: vec![
            fn_item("f", FnShape::Plain),
            fn_item("g", FnShape::Plain),
            fn_item("fmt", FnShape::DebugFmtImplMethod),
        ],
        needs_entry_wrapper: false,
    };
    let target = SpirvTarget::parse("spirv-unknown-vulkan1.1").unwrap();
    let (module, cost) = SpirCodegenBackend.compile_codegen_unit(&unit, &target);
    assert_eq!(cost, 0);
    assert_eq!(module.name, "unit0");
    assert_eq!(module.kind, ModuleKind::Regular);
    let words = &module.module;
    // Header: magic, version, memory model, declaration count, entry flag.
    assert_eq!(words[0], 0x07230203);
    assert_eq!(words[1], (1 << 16) | (3 << 8));
    assert_eq!(words[2], 3); // Vulkan memory model
    assert_eq!(words[3], 2); // three items, one excluded
    assert_eq!(words[4], 0);
    // Declarations: name length, name characters, linkage, visibility.
    assert_eq!(
        words[5..].to_vec(),
        vec![1, 'f' as u32, 0, 0, 1, 'g' as u32, 0, 0]
    );
}

#[test]
fn excluded_set_is_identical_across_both_phases() {
    // The surviving declarations and the defined bodies are the same set:
    // the module declares exactly as many definitions as non-excluded
    // items, whatever mix of shapes the unit holds.
    let unit = CompilationUnit {
        name: "mixed".to_string(),
        items: vec![
            fn_item("a", FnShape::Plain),
            fn_item("fmt", FnShape::DebugFmtImplMethod),
            static_item("s"),
            fn_item("fmt_decimal", FnShape::FmtDecimalHelper { parent_is_debug_fmt_impl: true }),
            fn_item("b", FnShape::Plain),
        ],
        needs_entry_wrapper: false,
    };
    let target = SpirvTarget::parse("spirv-unknown-spv1.0").unwrap();
    let (module, _) = SpirCodegenBackend.compile_codegen_unit(&unit, &target);
    assert_eq!(module.module[3], 3); // a, s, b survive
}

#[test]
fn entry_wrapper_flag_is_recorded() {
    let unit = CompilationUnit {
        name: "main_unit".to_string(),
        items: vec![fn_item("main", FnShape::Plain)],
        needs_entry_wrapper: true,
    };
    let target = SpirvTarget::parse("spirv-unknown-opencl1.2").unwrap();
    let (module, _) = SpirCodegenBackend.compile_codegen_unit(&unit, &target);
    assert_eq!(module.module[1], (1 << 16) | (0 << 8));
    assert_eq!(module.module[2], 2); // Compute-API memory model
    assert_eq!(module.module[4], 1);
}

#[test]
fn empty_unit_produces_header_only_module() {
    let unit = CompilationUnit {
        name: "empty".to_string(),
        items: vec![],
        needs_entry_wrapper: false,
    };
    let target = SpirvTarget::parse("spirv-unknown-webgpu0").unwrap();
    let (module, _) = SpirCodegenBackend.compile_codegen_unit(&unit, &target);
    assert_eq!(module.module, vec![0x07230203, (1 << 16) | (3 << 8), 3, 0, 0]);
}

#[test]
fn builder_register_then_define_assembles() {
    let mut b = ModuleBuilder::new("u".to_string(), MemoryModel::Simple, (1, 0));
    let item = fn_item("f", FnShape::Plain);
    b.register(&item);
    b.define(&"f".to_string());
    let words = b.assemble().unwrap();
    assert_eq!(words[3], 1);
}

#[test]
fn assembling_with_undefined_declaration_fails() {
    let mut b = ModuleBuilder::new("broken".to_string(), MemoryModel::Simple, (1, 0));
    b.register(&fn_item("f", FnShape::Plain));
    let e = b.assemble().unwrap_err();
    assert_eq!(e.unit_name, "broken");
}

#[test]
fn dump_selects_function_items_in_order() {
    let unit = CompilationUnit {
        name: "u".to_string(),
        items: vec![
            fn_item("a", FnShape::Plain),
            static_item("s"),
            fn_item("b", FnShape::DebugFmtImplMethod),
        ],
        needs_entry_wrapper: false,
    };
    assert_eq!(mir_dump_items(&unit), vec!["a".to_string(), "b".to_string()]);
}

#[test]
fn panic_dump_goes_to_file_only_for_absolute_paths() {
    assert_eq!(panic_dump_destination("/tmp/module"), DumpTarget::File);
    assert_eq!(panic_dump_destination("relative/module"), DumpTarget::Console);
    assert_eq!(panic_dump_destination(""), DumpTarget::Console);
}
