//! Target resolution: parsing a textual target descriptor of the form
//! `<arch>-<vendor>-<env>` into an immutable descriptor, and the two total
//! mappings from the environment tag to the declared memory model and to
//! the binary-format version pair.

use vstd::prelude::*;
use vstd::string::*;

use crate::strutil::lemma_split_no_sep;
use crate::strutil::lemma_split_parts_no_sep;
use crate::strutil::lemma_split_prepend;
use crate::strutil::split_on;
use crate::strutil::split_str;
use crate::strutil::views_of;

verus! {

/// The recognized target environments: universal format versions, graphics
/// API versions, compute API versions (with embedded variants), explicit
/// graphics binary versions, and a web target.
#[allow(non_camel_case_types)]
#[derive(Clone, Copy, PartialEq, Eq, Structural, Debug)]
pub enum TargetEnv {
    Universal_1_0,
    Universal_1_1,
    Universal_1_2,
    Universal_1_3,
    Universal_1_4,
    Universal_1_5,
    OpenGL_4_0,
    OpenGL_4_1,
    OpenGL_4_2,
    OpenGL_4_3,
    OpenGL_4_5,
    OpenCL_1_2,
    OpenCL_2_0,
    OpenCL_2_1,
    OpenCL_2_2,
    OpenCLEmbedded_1_2,
    OpenCLEmbedded_2_0,
    OpenCLEmbedded_2_1,
    OpenCLEmbedded_2_2,
    Vulkan_1_0,
    Vulkan_1_1,
    Vulkan_1_1_Spirv_1_4,
    Vulkan_1_2,
    WebGPU_0,
}

/// The memory model a module declares in its header.
#[derive(Clone, Copy, PartialEq, Eq, Structural, Debug)]
pub enum MemoryModel {
    Simple,
    GLSL450,
    OpenCL,
    Vulkan,
}

/// A resolved target descriptor. It is immutable and constructed only by
/// parsing a target string, so the vendor segment never contains a hyphen.
#[derive(Debug)]
pub struct SpirvTarget {
    env: TargetEnv,
    vendor: String,
}

/// The memory model implied by each target environment; total over the tags.
pub open spec fn memory_model_of(env: TargetEnv) -> MemoryModel {
    match env {
        TargetEnv::Universal_1_0 => MemoryModel::Simple,
        TargetEnv::Universal_1_1 => MemoryModel::Simple,
        TargetEnv::Universal_1_2 => MemoryModel::Simple,
        TargetEnv::Universal_1_3 => MemoryModel::Simple,
        TargetEnv::Universal_1_4 => MemoryModel::Simple,
        TargetEnv::Universal_1_5 => MemoryModel::Simple,
        TargetEnv::OpenGL_4_0 => MemoryModel::GLSL450,
        TargetEnv::OpenGL_4_1 => MemoryModel::GLSL450,
        TargetEnv::OpenGL_4_2 => MemoryModel::GLSL450,
        TargetEnv::OpenGL_4_3 => MemoryModel::GLSL450,
        TargetEnv::OpenGL_4_5 => MemoryModel::GLSL450,
        TargetEnv::OpenCL_1_2 => MemoryModel::OpenCL,
        TargetEnv::OpenCL_2_0 => MemoryModel::OpenCL,
        TargetEnv::OpenCL_2_1 => MemoryModel::OpenCL,
        TargetEnv::OpenCL_2_2 => MemoryModel::OpenCL,
        TargetEnv::OpenCLEmbedded_1_2 => MemoryModel::OpenCL,
        TargetEnv::OpenCLEmbedded_2_0 => MemoryModel::OpenCL,
        TargetEnv::OpenCLEmbedded_2_1 => MemoryModel::OpenCL,
        TargetEnv::OpenCLEmbedded_2_2 => MemoryModel::OpenCL,
        TargetEnv::Vulkan_1_0 => MemoryModel::Vulkan,
        TargetEnv::Vulkan_1_1 => MemoryModel::Vulkan,
        TargetEnv::Vulkan_1_1_Spirv_1_4 => MemoryModel::Vulkan,
        TargetEnv::Vulkan_1_2 => MemoryModel::Vulkan,
        TargetEnv::WebGPU_0 => MemoryModel::Vulkan,
    }
}

/// The binary-format version pair implied by each target environment;
/// total over the tags, and defined independently of `memory_model_of`.
pub open spec fn version_of(env: TargetEnv) -> (u8, u8) {
    match env {
        TargetEnv::Universal_1_0 => (1u8, 0u8),
        TargetEnv::Universal_1_1 => (1u8, 1u8),
        TargetEnv::Universal_1_2 => (1u8, 2u8),
        TargetEnv::Universal_1_3 => (1u8, 3u8),
        TargetEnv::Universal_1_4 => (1u8, 4u8),
        TargetEnv::Universal_1_5 => (1u8, 5u8),
        TargetEnv::OpenGL_4_0 => (1u8, 0u8),
        TargetEnv::OpenGL_4_1 => (1u8, 0u8),
        TargetEnv::OpenGL_4_2 => (1u8, 0u8),
        TargetEnv::OpenGL_4_3 => (1u8, 0u8),
        TargetEnv::OpenGL_4_5 => (1u8, 0u8),
        TargetEnv::OpenCL_1_2 => (1u8, 0u8),
        TargetEnv::OpenCL_2_0 => (1u8, 0u8),
        TargetEnv::OpenCL_2_1 => (1u8, 0u8),
        TargetEnv::OpenCL_2_2 => (1u8, 2u8),
        TargetEnv::OpenCLEmbedded_1_2 => (1u8, 0u8),
        TargetEnv::OpenCLEmbedded_2_0 => (1u8, 0u8),
        TargetEnv::OpenCLEmbedded_2_1 => (1u8, 0u8),
        TargetEnv::OpenCLEmbedded_2_2 => (1u8, 2u8),
        TargetEnv::Vulkan_1_0 => (1u8, 0u8),
        TargetEnv::Vulkan_1_1 => (1u8, 3u8),
        TargetEnv::Vulkan_1_1_Spirv_1_4 => (1u8, 4u8),
        TargetEnv::Vulkan_1_2 => (1u8, 5u8),
        TargetEnv::WebGPU_0 => (1u8, 3u8),
    }
}

impl SpirvTarget {
    /// The environment tag this descriptor resolved to.
    pub closed spec fn env_spec(&self) -> TargetEnv {
        self.env
    }

    /// The vendor segment this descriptor was parsed from.
    pub closed spec fn vendor_spec(&self) -> Seq<char> {
        self.vendor@
    }

    /// The environment tag this descriptor resolved to.
    pub fn env(&self) -> (r: TargetEnv)
        ensures
            r == self.env_spec(),
    {
        self.env
    }

    /// The memory model declared in the headers of modules built for this
    /// target.
    pub fn memory_model(&self) -> (r: MemoryModel)
        ensures
            r == memory_model_of(self.env_spec()),
    {
        match self.env {
            TargetEnv::Universal_1_0
            | TargetEnv::Universal_1_1
            | TargetEnv::Universal_1_2
            | TargetEnv::Universal_1_3
            | TargetEnv::Universal_1_4
            | TargetEnv::Universal_1_5 => MemoryModel::Simple,
            TargetEnv::OpenGL_4_0
            | TargetEnv::OpenGL_4_1
            | TargetEnv::OpenGL_4_2
            | TargetEnv::OpenGL_4_3
            | TargetEnv::OpenGL_4_5 => MemoryModel::GLSL450,
            TargetEnv::OpenCL_2_1
            | TargetEnv::OpenCL_2_2
            | TargetEnv::OpenCL_1_2
            | TargetEnv::OpenCLEmbedded_1_2
            | TargetEnv::OpenCL_2_0
            | TargetEnv::OpenCLEmbedded_2_0
            | TargetEnv::OpenCLEmbedded_2_1
            | TargetEnv::OpenCLEmbedded_2_2 => MemoryModel::OpenCL,
            TargetEnv::Vulkan_1_0
            | TargetEnv::Vulkan_1_1
            | TargetEnv::WebGPU_0
            | TargetEnv::Vulkan_1_1_Spirv_1_4
            | TargetEnv::Vulkan_1_2 => MemoryModel::Vulkan,
        }
    }

    /// The binary-format version pair declared in the headers of modules
    /// built for this target.
    pub fn spirv_version(&self) -> (r: (u8, u8))
        ensures
            r == version_of(self.env_spec()),
    {
        match self.env {
            TargetEnv::Universal_1_0 => (1, 0),
            TargetEnv::Universal_1_1 => (1, 1),
            TargetEnv::Universal_1_2 => (1, 2),
            TargetEnv::Universal_1_3 => (1, 3),
            TargetEnv::Universal_1_4 => (1, 4),
            TargetEnv::Universal_1_5 => (1, 5),
            TargetEnv::OpenGL_4_0 => (1, 0),
            TargetEnv::OpenGL_4_1 => (1, 0),
            TargetEnv::OpenGL_4_2 => (1, 0),
            TargetEnv::OpenGL_4_3 => (1, 0),
            TargetEnv::OpenGL_4_5 => (1, 0),
            TargetEnv::OpenCL_1_2 => (1, 0),
            TargetEnv::OpenCL_2_0 => (1, 0),
            TargetEnv::OpenCL_2_1 => (1, 0),
            TargetEnv::OpenCL_2_2 => (1, 2),
            TargetEnv::OpenCLEmbedded_1_2 => (1, 0),
            TargetEnv::OpenCLEmbedded_2_0 => (1, 0),
            TargetEnv::OpenCLEmbedded_2_1 => (1, 0),
            TargetEnv::OpenCLEmbedded_2_2 => (1, 2),
            TargetEnv::Vulkan_1_0 => (1, 0),
            TargetEnv::Vulkan_1_1 => (1, 3),
            TargetEnv::WebGPU_0 => (1, 3),
            TargetEnv::Vulkan_1_1_Spirv_1_4 => (1, 4),
            TargetEnv::Vulkan_1_2 => (1, 5),
        }
    }
}

/// Both header mappings are total functions of the environment tag, and
/// they vary independently: two tags can share a version pair while
/// disagreeing on the memory model.
pub proof fn lemma_env_mappings_independent()
    ensures
        version_of(TargetEnv::OpenGL_4_0) == version_of(TargetEnv::OpenCL_1_2),
        memory_model_of(TargetEnv::OpenGL_4_0) != memory_model_of(TargetEnv::OpenCL_1_2),
        exists|e1: TargetEnv, e2: TargetEnv|
            version_of(e1) == version_of(e2) && memory_model_of(e1) != memory_model_of(e2),
{
    assert(version_of(TargetEnv::OpenGL_4_0) == version_of(TargetEnv::OpenCL_1_2)
        && memory_model_of(TargetEnv::OpenGL_4_0) != memory_model_of(TargetEnv::OpenCL_1_2));
}

/// A target string that does not match the grammar or names an unrecognized
/// architecture or environment. Carries the rejected string.
#[derive(Debug)]
pub struct InvalidTarget(pub String);

/// Whether a driver for the system linker is a C compiler.
#[derive(Clone, Copy, PartialEq, Eq, Structural, Debug)]
pub enum Cc {
    Yes,
    No,
}

/// How the driver invokes a linker for this target.
#[derive(Clone, Copy, PartialEq, Eq, Structural, Debug)]
pub enum LinkerFlavor {
    Unix(Cc),
}

/// What the generated code does on panic.
#[derive(Clone, Copy, PartialEq, Eq, Structural, Debug)]
pub enum PanicStrategy {
    Unwind,
    Abort,
}

/// The backend policy options of the generated target record.
pub struct TargetOptions {
    pub simd_types_indirect: bool,
    pub allows_weak_linkage: bool,
    pub crt_static_allows_dylibs: bool,
    pub dll_prefix: String,
    pub dll_suffix: String,
    pub dynamic_linking: bool,
    pub emit_debug_gdb_scripts: bool,
    pub linker_flavor: LinkerFlavor,
    pub panic_strategy: PanicStrategy,
    pub os: String,
    pub env: String,
    pub vendor: String,
    pub main_needs_argc_argv: bool,
}

/// The full target record handed to the compilation driver.
pub struct Target {
    pub llvm_target: String,
    pub pointer_width: u32,
    pub data_layout: String,
    pub arch: String,
    pub options: TargetOptions,
}

/// The fixed option set derived for a descriptor: panics abort, no weak
/// linkage, a library suffix for the emitted artifacts, and the
/// environment and vendor strings copied through. The dynamic-linking flag
/// stays enabled even though the target supports no real dynamic linking;
/// the inconsistency is a known open issue and is preserved, not silently
/// corrected.
pub open spec fn options_match(env: TargetEnv, vendor: Seq<char>, o: TargetOptions) -> bool {
    &&& o.simd_types_indirect == false
    &&& o.allows_weak_linkage == false
    &&& o.crt_static_allows_dylibs == true
    &&& o.dll_prefix@ == ""@
    &&& o.dll_suffix@ == ".spv.json"@
    &&& o.dynamic_linking == true
    &&& o.emit_debug_gdb_scripts == false
    &&& o.linker_flavor == LinkerFlavor::Unix(Cc::No)
    &&& o.panic_strategy == PanicStrategy::Abort
    &&& o.os@ == "unknown"@
    &&& o.env@ == env_name(env)
    &&& o.vendor@ == vendor
    &&& o.main_needs_argc_argv == false
}

impl SpirvTarget {
    /// The option set for this descriptor; see `options_match`.
    fn init_target_opts(&self) -> (r: TargetOptions)
        ensures
            options_match(self.env_spec(), self.vendor_spec(), r),
    {
        TargetOptions {
            simd_types_indirect: false,
            allows_weak_linkage: false,
            crt_static_allows_dylibs: true,
            dll_prefix: "".to_owned(),
            dll_suffix: ".spv.json".to_owned(),
            dynamic_linking: true,
            emit_debug_gdb_scripts: false,
            linker_flavor: LinkerFlavor::Unix(Cc::No),
            panic_strategy: PanicStrategy::Abort,
            os: "unknown".to_owned(),
            env: env_to_str(self.env).to_owned(),
            vendor: self.vendor.clone(),
            main_needs_argc_argv: false,
        }
    }

    /// The full target record for this descriptor: the fixed 32-bit
    /// pointer width, the fixed layout string and architecture tag, the
    /// descriptor's own textual form, and the derived options.
    pub fn rustc_target(&self) -> (r: Target)
        ensures
            r.llvm_target@ == target_name(self.env_spec(), self.vendor_spec()),
            r.pointer_width == 32,
            r.data_layout@ == "e-m:e-p:32:32:32-i64:64-n8:16:32:64"@,
            r.arch@ == arch_name(),
            options_match(self.env_spec(), self.vendor_spec(), r.options),
    {
        Target {
            llvm_target: self.to_string(),
            pointer_width: 32,
            data_layout: "e-m:e-p:32:32:32-i64:64-n8:16:32:64".to_owned(),
            arch: "spirv".to_owned(),
            options: self.init_target_opts(),
        }
    }
}

/// The textual form of each environment tag, as it appears in the third
/// segment of a target string.
pub open spec fn env_name(env: TargetEnv) -> Seq<char> {
    match env {
        TargetEnv::Universal_1_0 => "spv1.0"@,
        TargetEnv::Universal_1_1 => "spv1.1"@,
        TargetEnv::Universal_1_2 => "spv1.2"@,
        TargetEnv::Universal_1_3 => "spv1.3"@,
        TargetEnv::Universal_1_4 => "spv1.4"@,
        TargetEnv::Universal_1_5 => "spv1.5"@,
        TargetEnv::OpenGL_4_0 => "opengl4.0"@,
        TargetEnv::OpenGL_4_1 => "opengl4.1"@,
        TargetEnv::OpenGL_4_2 => "opengl4.2"@,
        TargetEnv::OpenGL_4_3 => "opengl4.3"@,
        TargetEnv::OpenGL_4_5 => "opengl4.5"@,
        TargetEnv::OpenCL_1_2 => "opencl1.2"@,
        TargetEnv::OpenCL_2_0 => "opencl2.0"@,
        TargetEnv::OpenCL_2_1 => "opencl2.1"@,
        TargetEnv::OpenCL_2_2 => "opencl2.2"@,
        TargetEnv::OpenCLEmbedded_1_2 => "opencl1.2embedded"@,
        TargetEnv::OpenCLEmbedded_2_0 => "opencl2.0embedded"@,
        TargetEnv::OpenCLEmbedded_2_1 => "opencl2.1embedded"@,
        TargetEnv::OpenCLEmbedded_2_2 => "opencl2.2embedded"@,
        TargetEnv::Vulkan_1_0 => "vulkan1.0"@,
        TargetEnv::Vulkan_1_1 => "vulkan1.1"@,
        TargetEnv::Vulkan_1_1_Spirv_1_4 => "vulkan1.1spv1.4"@,
        TargetEnv::Vulkan_1_2 => "vulkan1.2"@,
        TargetEnv::WebGPU_0 => "webgpu0"@,
    }
}

/// The environment tag named by `s`, if any.
pub open spec fn env_from_name(s: Seq<char>) -> Option<TargetEnv> {
    if s == "spv1.0"@ {
        Some(TargetEnv::Universal_1_0)
    } else if s == "spv1.1"@ {
        Some(TargetEnv::Universal_1_1)
    } else if s == "spv1.2"@ {
        Some(TargetEnv::Universal_1_2)
    } else if s == "spv1.3"@ {
        Some(TargetEnv::Universal_1_3)
    } else if s == "spv1.4"@ {
        Some(TargetEnv::Universal_1_4)
    } else if s == "spv1.5"@ {
        Some(TargetEnv::Universal_1_5)
    } else if s == "opengl4.0"@ {
        Some(TargetEnv::OpenGL_4_0)
    } else if s == "opengl4.1"@ {
        Some(TargetEnv::OpenGL_4_1)
    } else if s == "opengl4.2"@ {
        Some(TargetEnv::OpenGL_4_2)
    } else if s == "opengl4.3"@ {
        Some(TargetEnv::OpenGL_4_3)
    } else if s == "opengl4.5"@ {
        Some(TargetEnv::OpenGL_4_5)
    } else if s == "opencl1.2"@ {
        Some(TargetEnv::OpenCL_1_2)
    } else if s == "opencl2.0"@ {
        Some(TargetEnv::OpenCL_2_0)
    } else if s == "opencl2.1"@ {
        Some(TargetEnv::OpenCL_2_1)
    } else if s == "opencl2.2"@ {
        Some(TargetEnv::OpenCL_2_2)
    } else if s == "opencl1.2embedded"@ {
        Some(TargetEnv::OpenCLEmbedded_1_2)
    } else if s == "opencl2.0embedded"@ {
        Some(TargetEnv::OpenCLEmbedded_2_0)
    } else if s == "opencl2.1embedded"@ {
        Some(TargetEnv::OpenCLEmbedded_2_1)
    } else if s == "opencl2.2embedded"@ {
        Some(TargetEnv::OpenCLEmbedded_2_2)
    } else if s == "vulkan1.0"@ {
        Some(TargetEnv::Vulkan_1_0)
    } else if s == "vulkan1.1"@ {
        Some(TargetEnv::Vulkan_1_1)
    } else if s == "vulkan1.1spv1.4"@ {
        Some(TargetEnv::Vulkan_1_1_Spirv_1_4)
    } else if s == "vulkan1.2"@ {
        Some(TargetEnv::Vulkan_1_2)
    } else if s == "webgpu0"@ {
        Some(TargetEnv::WebGPU_0)
    } else {
        None
    }
}

/// Resolve an environment segment to its tag.
fn env_from_string(s: &String) -> (r: Option<TargetEnv>)
    ensures
        r == env_from_name(s@),
{
    if *s == "spv1.0".to_owned() {
        Some(TargetEnv::Universal_1_0)
    } else if *s == "spv1.1".to_owned() {
        Some(TargetEnv::Universal_1_1)
    } else if *s == "spv1.2".to_owned() {
        Some(TargetEnv::Universal_1_2)
    } else if *s == "spv1.3".to_owned() {
        Some(TargetEnv::Universal_1_3)
    } else if *s == "spv1.4".to_owned() {
        Some(TargetEnv::Universal_1_4)
    } else if *s == "spv1.5".to_owned() {
        Some(TargetEnv::Universal_1_5)
    } else if *s == "opengl4.0".to_owned() {
        Some(TargetEnv::OpenGL_4_0)
    } else if *s == "opengl4.1".to_owned() {
        Some(TargetEnv::OpenGL_4_1)
    } else if *s == "opengl4.2".to_owned() {
        Some(TargetEnv::OpenGL_4_2)
    } else if *s == "opengl4.3".to_owned() {
        Some(TargetEnv::OpenGL_4_3)
    } else if *s == "opengl4.5".to_owned() {
        Some(TargetEnv::OpenGL_4_5)
    } else if *s == "opencl1.2".to_owned() {
        Some(TargetEnv::OpenCL_1_2)
    } else if *s == "opencl2.0".to_owned() {
        Some(TargetEnv::OpenCL_2_0)
    } else if *s == "opencl2.1".to_owned() {
        Some(TargetEnv::OpenCL_2_1)
    } else if *s == "opencl2.2".to_owned() {
        Some(TargetEnv::OpenCL_2_2)
    } else if *s == "opencl1.2embedded".to_owned() {
        Some(TargetEnv::OpenCLEmbedded_1_2)
    } else if *s == "opencl2.0embedded".to_owned() {
        Some(TargetEnv::OpenCLEmbedded_2_0)
    } else if *s == "opencl2.1embedded".to_owned() {
        Some(TargetEnv::OpenCLEmbedded_2_1)
    } else if *s == "opencl2.2embedded".to_owned() {
        Some(TargetEnv::OpenCLEmbedded_2_2)
    } else if *s == "vulkan1.0".to_owned() {
        Some(TargetEnv::Vulkan_1_0)
    } else if *s == "vulkan1.1".to_owned() {
        Some(TargetEnv::Vulkan_1_1)
    } else if *s == "vulkan1.1spv1.4".to_owned() {
        Some(TargetEnv::Vulkan_1_1_Spirv_1_4)
    } else if *s == "vulkan1.2".to_owned() {
        Some(TargetEnv::Vulkan_1_2)
    } else if *s == "webgpu0".to_owned() {
        Some(TargetEnv::WebGPU_0)
    } else {
        None
    }
}

/// The textual form of an environment tag.
fn env_to_str(env: TargetEnv) -> (r: &'static str)
    ensures
        r@ == env_name(env),
{
    match env {
        TargetEnv::Universal_1_0 => "spv1.0",
        TargetEnv::Universal_1_1 => "spv1.1",
        TargetEnv::Universal_1_2 => "spv1.2",
        TargetEnv::Universal_1_3 => "spv1.3",
        TargetEnv::Universal_1_4 => "spv1.4",
        TargetEnv::Universal_1_5 => "spv1.5",
        TargetEnv::OpenGL_4_0 => "opengl4.0",
        TargetEnv::OpenGL_4_1 => "opengl4.1",
        TargetEnv::OpenGL_4_2 => "opengl4.2",
        TargetEnv::OpenGL_4_3 => "opengl4.3",
        TargetEnv::OpenGL_4_5 => "opengl4.5",
        TargetEnv::OpenCL_1_2 => "opencl1.2",
        TargetEnv::OpenCL_2_0 => "opencl2.0",
        TargetEnv::OpenCL_2_1 => "opencl2.1",
        TargetEnv::OpenCL_2_2 => "opencl2.2",
        TargetEnv::OpenCLEmbedded_1_2 => "opencl1.2embedded",
        TargetEnv::OpenCLEmbedded_2_0 => "opencl2.0embedded",
        TargetEnv::OpenCLEmbedded_2_1 => "opencl2.1embedded",
        TargetEnv::OpenCLEmbedded_2_2 => "opencl2.2embedded",
        TargetEnv::Vulkan_1_0 => "vulkan1.0",
        TargetEnv::Vulkan_1_1 => "vulkan1.1",
        TargetEnv::Vulkan_1_1_Spirv_1_4 => "vulkan1.1spv1.4",
        TargetEnv::Vulkan_1_2 => "vulkan1.2",
        TargetEnv::WebGPU_0 => "webgpu0",
    }
}

/// The lengths of the environment names, for telling names of
/// different lengths apart.
proof fn lemma_env_name_lens()
    ensures
        env_name(TargetEnv::Universal_1_0).len() == 6,
        env_name(TargetEnv::Universal_1_1).len() == 6,
        env_name(TargetEnv::Universal_1_2).len() == 6,
        env_name(TargetEnv::Universal_1_3).len() == 6,
        env_name(TargetEnv::Universal_1_4).len() == 6,
        env_name(TargetEnv::Universal_1_5).len() == 6,
        env_name(TargetEnv::OpenGL_4_0).len() == 9,
        env_name(TargetEnv::OpenGL_4_1).len() == 9,
        env_name(TargetEnv::OpenGL_4_2).len() == 9,
        env_name(TargetEnv::OpenGL_4_3).len() == 9,
        env_name(TargetEnv::OpenGL_4_5).len() == 9,
        env_name(TargetEnv::OpenCL_1_2).len() == 9,
        env_name(TargetEnv::OpenCL_2_0).len() == 9,
        env_name(TargetEnv::OpenCL_2_1).len() == 9,
        env_name(TargetEnv::OpenCL_2_2).len() == 9,
        env_name(TargetEnv::OpenCLEmbedded_1_2).len() == 17,
        env_name(TargetEnv::OpenCLEmbedded_2_0).len() == 17,
        env_name(TargetEnv::OpenCLEmbedded_2_1).len() == 17,
        env_name(TargetEnv::OpenCLEmbedded_2_2).len() == 17,
        env_name(TargetEnv::Vulkan_1_0).len() == 9,
        env_name(TargetEnv::Vulkan_1_1).len() == 9,
        env_name(TargetEnv::Vulkan_1_1_Spirv_1_4).len() == 15,
        env_name(TargetEnv::Vulkan_1_2).len() == 9,
        env_name(TargetEnv::WebGPU_0).len() == 7,
{
    reveal_strlit("spv1.0");
    reveal_strlit("spv1.1");
    reveal_strlit("spv1.2");
    reveal_strlit("spv1.3");
    reveal_strlit("spv1.4");
    reveal_strlit("spv1.5");
    reveal_strlit("opengl4.0");
    reveal_strlit("opengl4.1");
    reveal_strlit("opengl4.2");
    reveal_strlit("opengl4.3");
    reveal_strlit("opengl4.5");
    reveal_strlit("opencl1.2");
    reveal_strlit("opencl2.0");
    reveal_strlit("opencl2.1");
    reveal_strlit("opencl2.2");
    reveal_strlit("opencl1.2embedded");
    reveal_strlit("opencl2.0embedded");
    reveal_strlit("opencl2.1embedded");
    reveal_strlit("opencl2.2embedded");
    reveal_strlit("vulkan1.0");
    reveal_strlit("vulkan1.1");
    reveal_strlit("vulkan1.1spv1.4");
    reveal_strlit("vulkan1.2");
    reveal_strlit("webgpu0");
}

/// Looking an environment name back up yields the same tag: the
/// twenty-four names are pairwise distinct.
pub proof fn lemma_env_lookup(env: TargetEnv)
    ensures
        env_from_name(env_name(env)) == Some(env),
{
    lemma_env_name_lens();
    reveal_strlit("spv1.0");
    reveal_strlit("spv1.1");
    reveal_strlit("spv1.2");
    reveal_strlit("spv1.3");
    reveal_strlit("spv1.4");
    reveal_strlit("spv1.5");
    reveal_strlit("opengl4.0");
    reveal_strlit("opengl4.1");
    reveal_strlit("opengl4.2");
    reveal_strlit("opengl4.3");
    reveal_strlit("opengl4.5");
    reveal_strlit("opencl1.2");
    reveal_strlit("opencl2.0");
    reveal_strlit("opencl2.1");
    reveal_strlit("opencl2.2");
    reveal_strlit("opencl1.2embedded");
    reveal_strlit("opencl2.0embedded");
    reveal_strlit("opencl2.1embedded");
    reveal_strlit("opencl2.2embedded");
    reveal_strlit("vulkan1.0");
    reveal_strlit("vulkan1.1");
    reveal_strlit("vulkan1.1spv1.4");
    reveal_strlit("vulkan1.2");
    reveal_strlit("webgpu0");
    assert("spv1.0"@[5] != "spv1.1"@[5]);
    assert("spv1.0"@[5] != "spv1.2"@[5]);
    assert("spv1.0"@[5] != "spv1.3"@[5]);
    assert("spv1.0"@[5] != "spv1.4"@[5]);
    assert("spv1.0"@[5] != "spv1.5"@[5]);
    assert("spv1.1"@[5] != "spv1.2"@[5]);
    assert("spv1.1"@[5] != "spv1.3"@[5]);
    assert("spv1.1"@[5] != "spv1.4"@[5]);
    assert("spv1.1"@[5] != "spv1.5"@[5]);
    assert("spv1.2"@[5] != "spv1.3"@[5]);
    assert("spv1.2"@[5] != "spv1.4"@[5]);
    assert("spv1.2"@[5] != "spv1.5"@[5]);
    assert("spv1.3"@[5] != "spv1.4"@[5]);
    assert("spv1.3"@[5] != "spv1.5"@[5]);
    assert("spv1.4"@[5] != "spv1.5"@[5]);
    assert("opengl4.0"@[8] != "opengl4.1"@[8]);
    assert("opengl4.0"@[8] != "opengl4.2"@[8]);
    assert("opengl4.0"@[8] != "opengl4.3"@[8]);
    assert("opengl4.0"@[8] != "opengl4.5"@[8]);
    assert("opengl4.0"@[4] != "opencl1.2"@[4]);
    assert("opengl4.0"@[4] != "opencl2.0"@[4]);
    assert("opengl4.0"@[4] != "opencl2.1"@[4]);
    assert("opengl4.0"@[4] != "opencl2.2"@[4]);
    assert("opengl4.0"@[0] != "vulkan1.0"@[0]);
    assert("opengl4.0"@[0] != "vulkan1.1"@[0]);
    assert("opengl4.0"@[0] != "vulkan1.2"@[0]);
    assert("opengl4.1"@[8] != "opengl4.2"@[8]);
    assert("opengl4.1"@[8] != "opengl4.3"@[8]);
    assert("opengl4.1"@[8] != "opengl4.5"@[8]);
    assert("opengl4.1"@[4] != "opencl1.2"@[4]);
    assert("opengl4.1"@[4] != "opencl2.0"@[4]);
    assert("opengl4.1"@[4] != "opencl2.1"@[4]);
    assert("opengl4.1"@[4] != "opencl2.2"@[4]);
    assert("opengl4.1"@[0] != "vulkan1.0"@[0]);
    assert("opengl4.1"@[0] != "vulkan1.1"@[0]);
    assert("opengl4.1"@[0] != "vulkan1.2"@[0]);
    assert("opengl4.2"@[8] != "opengl4.3"@[8]);
    assert("opengl4.2"@[8] != "opengl4.5"@[8]);
    assert("opengl4.2"@[4] != "opencl1.2"@[4]);
    assert("opengl4.2"@[4] != "opencl2.0"@[4]);
    assert("opengl4.2"@[4] != "opencl2.1"@[4]);
    assert("opengl4.2"@[4] != "opencl2.2"@[4]);
    assert("opengl4.2"@[0] != "vulkan1.0"@[0]);
    assert("opengl4.2"@[0] != "vulkan1.1"@[0]);
    assert("opengl4.2"@[0] != "vulkan1.2"@[0]);
    assert("opengl4.3"@[8] != "opengl4.5"@[8]);
    assert("opengl4.3"@[4] != "opencl1.2"@[4]);
    assert("opengl4.3"@[4] != "opencl2.0"@[4]);
    assert("opengl4.3"@[4] != "opencl2.1"@[4]);
    assert("opengl4.3"@[4] != "opencl2.2"@[4]);
    assert("opengl4.3"@[0] != "vulkan1.0"@[0]);
    assert("opengl4.3"@[0] != "vulkan1.1"@[0]);
    assert("opengl4.3"@[0] != "vulkan1.2"@[0]);
    assert("opengl4.5"@[4] != "opencl1.2"@[4]);
    assert("opengl4.5"@[4] != "opencl2.0"@[4]);
    assert("opengl4.5"@[4] != "opencl2.1"@[4]);
    assert("opengl4.5"@[4] != "opencl2.2"@[4]);
    assert("opengl4.5"@[0] != "vulkan1.0"@[0]);
    assert("opengl4.5"@[0] != "vulkan1.1"@[0]);
    assert("opengl4.5"@[0] != "vulkan1.2"@[0]);
    assert("opencl1.2"@[6] != "opencl2.0"@[6]);
    assert("opencl1.2"@[6] != "opencl2.1"@[6]);
    assert("opencl1.2"@[6] != "opencl2.2"@[6]);
    assert("opencl1.2"@[0] != "vulkan1.0"@[0]);
    assert("opencl1.2"@[0] != "vulkan1.1"@[0]);
    assert("opencl1.2"@[0] != "vulkan1.2"@[0]);
    assert("opencl2.0"@[8] != "opencl2.1"@[8]);
    assert("opencl2.0"@[8] != "opencl2.2"@[8]);
    assert("opencl2.0"@[0] != "vulkan1.0"@[0]);
    assert("opencl2.0"@[0] != "vulkan1.1"@[0]);
    assert("opencl2.0"@[0] != "vulkan1.2"@[0]);
    assert("opencl2.1"@[8] != "opencl2.2"@[8]);
    assert("opencl2.1"@[0] != "vulkan1.0"@[0]);
    assert("opencl2.1"@[0] != "vulkan1.1"@[0]);
    assert("opencl2.1"@[0] != "vulkan1.2"@[0]);
    assert("opencl2.2"@[0] != "vulkan1.0"@[0]);
    assert("opencl2.2"@[0] != "vulkan1.1"@[0]);
    assert("opencl2.2"@[0] != "vulkan1.2"@[0]);
    assert("vulkan1.0"@[8] != "vulkan1.1"@[8]);
    assert("vulkan1.0"@[8] != "vulkan1.2"@[8]);
    assert("vulkan1.1"@[8] != "vulkan1.2"@[8]);
    assert("opencl1.2embedded"@[6] != "opencl2.0embedded"@[6]);
    assert("opencl1.2embedded"@[6] != "opencl2.1embedded"@[6]);
    assert("opencl1.2embedded"@[6] != "opencl2.2embedded"@[6]);
    assert("opencl2.0embedded"@[8] != "opencl2.1embedded"@[8]);
    assert("opencl2.0embedded"@[8] != "opencl2.2embedded"@[8]);
    assert("opencl2.1embedded"@[8] != "opencl2.2embedded"@[8]);
}

/// No environment name contains the segment separator.
proof fn lemma_env_name_no_hyphen(env: TargetEnv)
    ensures
        forall|j: int| 0 <= j < env_name(env).len() ==> env_name(env)[j] != '-',
{
    match env {
        TargetEnv::Universal_1_0 => {
            reveal_strlit("spv1.0");
            assert(forall|j: int| 0 <= j < "spv1.0"@.len() ==> "spv1.0"@[j] != '-');
        },
        TargetEnv::Universal_1_1 => {
            reveal_strlit("spv1.1");
            assert(forall|j: int| 0 <= j < "spv1.1"@.len() ==> "spv1.1"@[j] != '-');
        },
        TargetEnv::Universal_1_2 => {
            reveal_strlit("spv1.2");
            assert(forall|j: int| 0 <= j < "spv1.2"@.len() ==> "spv1.2"@[j] != '-');
        },
        TargetEnv::Universal_1_3 => {
            reveal_strlit("spv1.3");
            assert(forall|j: int| 0 <= j < "spv1.3"@.len() ==> "spv1.3"@[j] != '-');
        },
        TargetEnv::Universal_1_4 => {
            reveal_strlit("spv1.4");
            assert(forall|j: int| 0 <= j < "spv1.4"@.len() ==> "spv1.4"@[j] != '-');
        },
        TargetEnv::Universal_1_5 => {
            reveal_strlit("spv1.5");
            assert(forall|j: int| 0 <= j < "spv1.5"@.len() ==> "spv1.5"@[j] != '-');
        },
        TargetEnv::OpenGL_4_0 => {
            reveal_strlit("opengl4.0");
            assert(forall|j: int| 0 <= j < "opengl4.0"@.len() ==> "opengl4.0"@[j] != '-');
        },
        TargetEnv::OpenGL_4_1 => {
            reveal_strlit("opengl4.1");
            assert(forall|j: int| 0 <= j < "opengl4.1"@.len() ==> "opengl4.1"@[j] != '-');
        },
        TargetEnv::OpenGL_4_2 => {
            reveal_strlit("opengl4.2");
            assert(forall|j: int| 0 <= j < "opengl4.2"@.len() ==> "opengl4.2"@[j] != '-');
        },
        TargetEnv::OpenGL_4_3 => {
            reveal_strlit("opengl4.3");
            assert(forall|j: int| 0 <= j < "opengl4.3"@.len() ==> "opengl4.3"@[j] != '-');
        },
        TargetEnv::OpenGL_4_5 => {
            reveal_strlit("opengl4.5");
            assert(forall|j: int| 0 <= j < "opengl4.5"@.len() ==> "opengl4.5"@[j] != '-');
        },
        TargetEnv::OpenCL_1_2 => {
            reveal_strlit("opencl1.2");
            assert(forall|j: int| 0 <= j < "opencl1.2"@.len() ==> "opencl1.2"@[j] != '-');
        },
        TargetEnv::OpenCL_2_0 => {
            reveal_strlit("opencl2.0");
            assert(forall|j: int| 0 <= j < "opencl2.0"@.len() ==> "opencl2.0"@[j] != '-');
        },
        TargetEnv::OpenCL_2_1 => {
            reveal_strlit("opencl2.1");
            assert(forall|j: int| 0 <= j < "opencl2.1"@.len() ==> "opencl2.1"@[j] != '-');
        },
        TargetEnv::OpenCL_2_2 => {
            reveal_strlit("opencl2.2");
            assert(forall|j: int| 0 <= j < "opencl2.2"@.len() ==> "opencl2.2"@[j] != '-');
        },
        TargetEnv::OpenCLEmbedded_1_2 => {
            reveal_strlit("opencl1.2embedded");
            assert(forall|j: int| 0 <= j < "opencl1.2embedded"@.len() ==> "opencl1.2embedded"@[j] != '-');
        },
        TargetEnv::OpenCLEmbedded_2_0 => {
            reveal_strlit("opencl2.0embedded");
            assert(forall|j: int| 0 <= j < "opencl2.0embedded"@.len() ==> "opencl2.0embedded"@[j] != '-');
        },
        TargetEnv::OpenCLEmbedded_2_1 => {
            reveal_strlit("opencl2.1embedded");
            assert(forall|j: int| 0 <= j < "opencl2.1embedded"@.len() ==> "opencl2.1embedded"@[j] != '-');
        },
        TargetEnv::OpenCLEmbedded_2_2 => {
            reveal_strlit("opencl2.2embedded");
            assert(forall|j: int| 0 <= j < "opencl2.2embedded"@.len() ==> "opencl2.2embedded"@[j] != '-');
        },
        TargetEnv::Vulkan_1_0 => {
            reveal_strlit("vulkan1.0");
            assert(forall|j: int| 0 <= j < "vulkan1.0"@.len() ==> "vulkan1.0"@[j] != '-');
        },
        TargetEnv::Vulkan_1_1 => {
            reveal_strlit("vulkan1.1");
            assert(forall|j: int| 0 <= j < "vulkan1.1"@.len() ==> "vulkan1.1"@[j] != '-');
        },
        TargetEnv::Vulkan_1_1_Spirv_1_4 => {
            reveal_strlit("vulkan1.1spv1.4");
            assert(forall|j: int| 0 <= j < "vulkan1.1spv1.4"@.len() ==> "vulkan1.1spv1.4"@[j] != '-');
        },
        TargetEnv::Vulkan_1_2 => {
            reveal_strlit("vulkan1.2");
            assert(forall|j: int| 0 <= j < "vulkan1.2"@.len() ==> "vulkan1.2"@[j] != '-');
        },
        TargetEnv::WebGPU_0 => {
            reveal_strlit("webgpu0");
            assert(forall|j: int| 0 <= j < "webgpu0"@.len() ==> "webgpu0"@[j] != '-');
        },
    }
}

/// The fixed architecture segment every target string must begin with.
pub open spec fn arch_name() -> Seq<char> {
    "spirv"@
}

/// The full textual form of a descriptor with the given environment tag and
/// vendor segment.
pub open spec fn target_name(env: TargetEnv, vendor: Seq<char>) -> Seq<char> {
    arch_name() + seq!['-'] + vendor + seq!['-'] + env_name(env)
}

/// What parsing a target string yields: the environment tag and the vendor
/// segment, or nothing when the string does not describe a valid target.
pub open spec fn parse_spec(s: Seq<char>) -> Option<(TargetEnv, Seq<char>)> {
    let parts = split_on(s, '-');
    if parts.len() == 3 && parts[0] == arch_name() {
        match env_from_name(parts[2]) {
            Some(env) => Some((env, parts[1])),
            None => None,
        }
    } else {
        None
    }
}

impl SpirvTarget {
    /// Resolve a target string of the form `<arch>-<vendor>-<env>`: exactly
    /// three hyphen-delimited segments, the fixed architecture, and a
    /// recognized environment tag. Anything else is rejected.
    pub fn parse(target: &str) -> (r: Result<SpirvTarget, InvalidTarget>)
        ensures
            match r {
                Ok(t) => parse_spec(target@) == Some((t.env_spec(), t.vendor_spec())),
                Err(e) => parse_spec(target@) is None && e.0@ == target@,
            },
    {
        let parts = split_str(target, '-');
        proof {
            assert(views_of(parts@).len() == parts@.len());
        }
        if parts.len() != 3 {
            return Err(InvalidTarget(target.to_owned()));
        }
        proof {
            assert(views_of(parts@)[0] == parts@[0]@);
            assert(views_of(parts@)[1] == parts@[1]@);
            assert(views_of(parts@)[2] == parts@[2]@);
        }
        let arch: String = "spirv".to_owned();
        if !(parts[0] == arch) {
            return Err(InvalidTarget(target.to_owned()));
        }
        match env_from_string(&parts[2]) {
            Some(env) => Ok(SpirvTarget { env, vendor: parts[1].clone() }),
            None => Err(InvalidTarget(target.to_owned())),
        }
    }

    /// The vendor segment of this descriptor.
    pub fn vendor(&self) -> (r: &String)
        ensures
            r@ == self.vendor_spec(),
    {
        &self.vendor
    }

    /// The textual form of this descriptor. For a descriptor obtained from
    /// `parse`, the result reparses to an equal descriptor.
    pub fn to_string(&self) -> (r: String)
        ensures
            r@ == target_name(self.env_spec(), self.vendor_spec()),
    {
        let mut r: String = "spirv".to_owned();
        r.append("-");
        r.append(self.vendor.as_str());
        r.append("-");
        r.append(env_to_str(self.env));
        proof {
            reveal_strlit("-");
            assert("-"@ =~= seq!['-']);
            assert(r@ =~= target_name(self.env_spec(), self.vendor_spec()));
        }
        r
    }
}

impl core::str::FromStr for SpirvTarget {
    type Err = InvalidTarget;

    fn from_str(target: &str) -> Result<Self, Self::Err> {
        SpirvTarget::parse(target)
    }
}

/// The architecture segment contains no separator.
proof fn lemma_arch_no_hyphen()
    ensures
        forall|j: int| 0 <= j < arch_name().len() ==> arch_name()[j] != '-',
{
    reveal_strlit("spirv");
    assert(forall|j: int| 0 <= j < "spirv"@.len() ==> "spirv"@[j] != '-');
}

/// Formatting a descriptor whose vendor segment is free of hyphens and
/// reparsing the result recovers the same environment and vendor.
pub proof fn lemma_format_reparses(env: TargetEnv, vendor: Seq<char>)
    requires
        forall|j: int| 0 <= j < vendor.len() ==> vendor[j] != '-',
    ensures
        parse_spec(target_name(env, vendor)) == Some((env, vendor)),
{
    lemma_arch_no_hyphen();
    lemma_env_name_no_hyphen(env);
    let rest = vendor + seq!['-'] + env_name(env);
    assert(target_name(env, vendor) =~= arch_name() + seq!['-'] + rest);
    lemma_split_prepend(arch_name(), '-', rest);
    lemma_split_prepend(vendor, '-', env_name(env));
    lemma_split_no_sep(env_name(env), '-');
    assert(split_on(target_name(env, vendor), '-') =~= seq![arch_name(), vendor, env_name(env)]);
    lemma_env_lookup(env);
}

/// Round trip: a descriptor parsed from any valid target string formats
/// back to a string that reparses to the same descriptor.
pub proof fn lemma_parse_format_round_trip(s: Seq<char>, env: TargetEnv, vendor: Seq<char>)
    requires
        parse_spec(s) == Some((env, vendor)),
    ensures
        parse_spec(target_name(env, vendor)) == Some((env, vendor)),
{
    lemma_split_parts_no_sep(s, '-');
    assert(vendor == split_on(s, '-')[1]);
    assert forall|j: int| 0 <= j < vendor.len() implies vendor[j] != '-' by {
        assert(split_on(s, '-')[1][j] == vendor[j]);
    }
    lemma_format_reparses(env, vendor);
}

/// The textual forms of every valid target, in their conventional order.
pub open spec fn valid_target_names() -> Seq<Seq<char>> {
    seq![
        "spirv-unknown-spv1.0"@,
        "spirv-unknown-spv1.1"@,
        "spirv-unknown-spv1.2"@,
        "spirv-unknown-spv1.3"@,
        "spirv-unknown-spv1.4"@,
        "spirv-unknown-spv1.5"@,
        "spirv-unknown-opengl4.0"@,
        "spirv-unknown-opengl4.1"@,
        "spirv-unknown-opengl4.2"@,
        "spirv-unknown-opengl4.3"@,
        "spirv-unknown-opengl4.5"@,
        "spirv-unknown-opencl1.2"@,
        "spirv-unknown-opencl1.2embedded"@,
        "spirv-unknown-opencl2.0"@,
        "spirv-unknown-opencl2.0embedded"@,
        "spirv-unknown-opencl2.1"@,
        "spirv-unknown-opencl2.1embedded"@,
        "spirv-unknown-opencl2.2"@,
        "spirv-unknown-opencl2.2embedded"@,
        "spirv-unknown-vulkan1.0"@,
        "spirv-unknown-vulkan1.1"@,
        "spirv-unknown-vulkan1.1spv1.4"@,
        "spirv-unknown-vulkan1.2"@,
        "spirv-unknown-webgpu0"@,
    ]
}

/// Every valid target string, one for each environment tag, with the
/// conventional vendor.
pub fn all_valid_targets() -> (r: Vec<String>)
    ensures
        views_of(r@) == valid_target_names(),
{
    let mut r: Vec<String> = Vec::new();
    r.push("spirv-unknown-spv1.0".to_owned());
    r.push("spirv-unknown-spv1.1".to_owned());
    r.push("spirv-unknown-spv1.2".to_owned());
    r.push("spirv-unknown-spv1.3".to_owned());
    r.push("spirv-unknown-spv1.4".to_owned());
    r.push("spirv-unknown-spv1.5".to_owned());
    r.push("spirv-unknown-opengl4.0".to_owned());
    r.push("spirv-unknown-opengl4.1".to_owned());
    r.push("spirv-unknown-opengl4.2".to_owned());
    r.push("spirv-unknown-opengl4.3".to_owned());
    r.push("spirv-unknown-opengl4.5".to_owned());
    r.push("spirv-unknown-opencl1.2".to_owned());
    r.push("spirv-unknown-opencl1.2embedded".to_owned());
    r.push("spirv-unknown-opencl2.0".to_owned());
    r.push("spirv-unknown-opencl2.0embedded".to_owned());
    r.push("spirv-unknown-opencl2.1".to_owned());
    r.push("spirv-unknown-opencl2.1embedded".to_owned());
    r.push("spirv-unknown-opencl2.2".to_owned());
    r.push("spirv-unknown-opencl2.2embedded".to_owned());
    r.push("spirv-unknown-vulkan1.0".to_owned());
    r.push("spirv-unknown-vulkan1.1".to_owned());
    r.push("spirv-unknown-vulkan1.1spv1.4".to_owned());
    r.push("spirv-unknown-vulkan1.2".to_owned());
    r.push("spirv-unknown-webgpu0".to_owned());
    proof {
        assert(views_of(r@) =~= valid_target_names());
    }
    r
}

/// The listing of the given names, each on a line of its own.
pub open spec fn names_listing(names: Seq<Seq<char>>) -> Seq<char>
    decreases names.len(),
{
    if names.len() == 0 {
        Seq::empty()
    } else {
        names_listing(names.drop_last()) + "\n  "@ + names.last()
    }
}

/// The full user-visible message for a rejected target string: it names
/// the rejected string and enumerates every valid target.
pub open spec fn invalid_target_message(bad: Seq<char>) -> Seq<char> {
    "Invalid target `"@ + bad + "`. Valid targets:"@ + names_listing(valid_target_names())
}

impl InvalidTarget {
    /// Render the rejection for the user, enumerating the valid targets.
    pub fn message(&self) -> (r: String)
        ensures
            r@ == invalid_target_message(self.0@),
    {
        let mut r: String = "Invalid target `".to_owned();
        r.append(self.0.as_str());
        r.append("`. Valid targets:");
        let ghost head = r@;
        let names = all_valid_targets();
        let n = names.len();
        let mut i: usize = 0;
        proof {
            assert(r@ =~= head + names_listing(views_of(names@).subrange(0, 0)));
        }
        while i < n
            invariant
                i <= n,
                n == names@.len(),
                views_of(names@) == valid_target_names(),
                r@ == head + names_listing(views_of(names@).subrange(0, i as int)),
            decreases n - i,
        {
            r.append("\n  ");
            r.append(names[i].as_str());
            proof {
                let a = views_of(names@).subrange(0, i as int);
                let b = views_of(names@).subrange(0, i as int + 1);
                assert(b.drop_last() =~= a);
                assert(b.last() == names@[i as int]@);
                assert(r@ =~= head + names_listing(b));
            }
            i += 1;
        }
        proof {
            assert(views_of(names@).subrange(0, n as int) =~= views_of(names@));
            assert(r@ =~= invalid_target_message(self.0@));
        }
        r
    }
}

} // verus!
