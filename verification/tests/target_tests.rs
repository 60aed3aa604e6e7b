use std::str::FromStr;

use spirv_codegen::target::MemoryModel;
use spirv_codegen::target::PanicStrategy;
use spirv_codegen::target::SpirvTarget;
use spirv_codegen::target::TargetEnv;
use spirv_codegen::target::all_valid_targets;

#[test]
fn vulkan_1_1_resolves_to_vulkan_memory_model_and_1_3() {
    let t = SpirvTarget::parse("spirv-unknown-vulkan1.1").unwrap();
    assert_eq!(t.memory_model(), MemoryModel::Vulkan);
    assert_eq!(t.spirv_version(), (1, 3));
}

#[test]
fn opencl_1_2_resolves_to_opencl_memory_model_and_1_0() {
    let t = SpirvTarget::parse("spirv-unknown-opencl1.2").unwrap();
    assert_eq!(t.memory_model(), MemoryModel::OpenCL);
    assert_eq!(t.spirv_version(), (1, 0));
}

#[test]
fn memory_models_cover_all_families() {
    let cases = [
        ("spirv-unknown-spv1.3", MemoryModel::Simple, (1, 3)),
        ("spirv-unknown-opengl4.2", MemoryModel::GLSL450, (1, 0)),
        ("spirv-unknown-opencl2.2embedded", MemoryModel::OpenCL, (1, 2)),
        ("spirv-unknown-webgpu0", MemoryModel::Vulkan, (1, 3)),
        ("spirv-unknown-vulkan1.1spv1.4", MemoryModel::Vulkan, (1, 4)),
        ("spirv-unknown-vulkan1.2", MemoryModel::Vulkan, (1, 5)),
    ];
    for (s, mm, v) in cases {
        let t = SpirvTarget::parse(s).unwrap();
        assert_eq!(t.memory_model(), mm);
        assert_eq!(t.spirv_version(), v);
    }
}

#[test]
fn same_version_different_memory_model() {
    let gl = SpirvTarget::parse("spirv-unknown-opengl4.0").unwrap();
    let cl = SpirvTarget::parse("spirv-unknown-opencl1.2").unwrap();
    assert_eq!(gl.spirv_version(), cl.spirv_version());
    assert_ne!(gl.memory_model(), cl.memory_model());
}

#[test]
fn every_valid_target_round_trips() {
    let targets = all_valid_targets();
    assert_eq!(targets.len(), 24);
    for s in &targets {
        let t = SpirvTarget::parse(s).unwrap();
        let formatted = t.to_string();
        assert_eq!(&formatted, s);
        let again = SpirvTarget::parse(&formatted).unwrap();
        assert_eq!(again.env(), t.env());
        assert_eq!(again.vendor(), t.vendor());
    }
}

#[test]
fn custom_vendor_round_trips() {
    let t = SpirvTarget::parse("spirv-acme-vulkan1.0").unwrap();
    assert_eq!(t.vendor(), "acme");
    assert_eq!(t.env(), TargetEnv::Vulkan_1_0);
    assert_eq!(t.to_string(), "spirv-acme-vulkan1.0");
}

#[test]
fn from_str_matches_parse() {
    let t = SpirvTarget::from_str("spirv-unknown-vulkan1.1").unwrap();
    assert_eq!(t.env(), TargetEnv::Vulkan_1_1);
    assert!(SpirvTarget::from_str("spirv-unknown-nonsense").is_err());
}

#[test]
fn wrong_architecture_is_rejected() {
    let e = SpirvTarget::parse("x86_64-unknown-vulkan1.1").unwrap_err();
    assert_eq!(e.0, "x86_64-unknown-vulkan1.1");
}

#[test]
fn unknown_environment_is_rejected() {
    let e = SpirvTarget::parse("spirv-unknown-vulkan9.9").unwrap_err();
    assert_eq!(e.0, "spirv-unknown-vulkan9.9");
}

#[test]
fn wrong_segment_count_is_rejected() {
    assert!(SpirvTarget::parse("spirv-unknown").is_err());
    assert!(SpirvTarget::parse("spirv-a-b-vulkan1.1").is_err());
    assert!(SpirvTarget::parse("").is_err());
    assert!(SpirvTarget::parse("vulkan1.1").is_err());
}

#[test]
fn rejection_message_names_string_and_lists_targets() {
    let e = SpirvTarget::parse("spirv-unknown-bogus").unwrap_err();
    let msg = e.message();
    assert!(msg.starts_with("Invalid target `spirv-unknown-bogus`. Valid targets:"));
    for s in &all_valid_targets() {
        assert!(msg.contains(s.as_str()));
    }
}

#[test]
fn rustc_target_record_fields() {
    let t = SpirvTarget::parse("spirv-unknown-vulkan1.1").unwrap();
    let r = t.rustc_target();
    assert_eq!(r.llvm_target, "spirv-unknown-vulkan1.1");
    assert_eq!(r.pointer_width, 32);
    assert_eq!(r.data_layout, "e-m:e-p:32:32:32-i64:64-n8:16:32:64");
    assert_eq!(r.arch, "spirv");
    let o = &r.options;
    assert!(!o.simd_types_indirect);
    assert!(!o.allows_weak_linkage);
    assert!(o.crt_static_allows_dylibs);
    assert_eq!(o.dll_prefix, "");
    assert_eq!(o.dll_suffix, ".spv.json");
    assert!(o.dynamic_linking);
    assert!(!o.emit_debug_gdb_scripts);
    assert_eq!(o.panic_strategy, PanicStrategy::Abort);
    assert_eq!(o.os, "unknown");
    assert_eq!(o.env, "vulkan1.1");
    assert_eq!(o.vendor, "unknown");
    assert!(!o.main_needs_argc_argv);
}

#[test]
fn rejection_message_is_exact() {
    let e = SpirvTarget::parse("bad").unwrap_err();
    let mut expected = String::from("Invalid target `bad`. Valid targets:");
    for s in &all_valid_targets() {
        expected.push_str("\n  ");
        expected.push_str(s);
    }
    assert_eq!(e.message(), expected);
}
