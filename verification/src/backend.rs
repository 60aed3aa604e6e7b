//! The backend facade: the per-unit two-phase translation driver, the
//! target-feature flag computation, serialization of finalized modules, the
//! typed join of the codegen stage's results, and the terminal link stage.

use vstd::prelude::*;
use vstd::pervasive::unreached;
use vstd::string::*;

use crate::codec::words_to_bytes;
use crate::codec::SpirvModuleBuffer;
use crate::codec::SpirvThinBuffer;
use crate::compile::assemble_spec;
use crate::compile::decl_names;
use crate::compile::decl_of;
use crate::compile::is_blocklisted;
use crate::compile::is_blocklisted_fn;
use crate::compile::kept_decls;
use crate::compile::kept_items;
use crate::compile::kept_names;
use crate::compile::lemma_kept_fits;
use crate::compile::lemma_kept_prefix;
use crate::compile::CompilationUnit;
use crate::compile::ModuleBuilder;
use crate::compile::ModuleCodegen;
use crate::compile::ModuleKind;
use crate::compile::ProgramItem;
use crate::compile::unit_fits;
use crate::link::run_thin;
use crate::link::LinkError;
use crate::link::LinkOutput;
use crate::link::OutputKind;
use crate::link::ThinModule;
use crate::link::WorkProduct;
use crate::strutil::split_on;
use crate::strutil::split_str;
use crate::strutil::views_of;
use crate::target::memory_model_of;
use crate::target::version_of;
use crate::target::SpirvTarget;

verus! {

/// The code generation backend: stateless; every per-build parameter is
/// passed in.
#[derive(Clone, Copy)]
pub struct SpirCodegenBackend;

/// One module compiled down to its byte-stream object form.
#[derive(Debug)]
pub struct CompiledModule {
    pub name: String,
    pub kind: ModuleKind,
    pub object: Vec<u8>,
}

/// Everything the codegen stage of one build produced.
pub struct CodegenResults {
    pub crate_name: String,
    pub modules: Vec<CompiledModule>,
}

/// The typed handle passed from the codegen stage to the join stage.
pub struct OngoingCodegen {
    pub results: CodegenResults,
    pub work_products: Vec<WorkProduct>,
}

/// The feature names a token sequence explicitly enables: tokens carrying
/// the enabling prefix marker, with the marker stripped and empty names
/// dropped; every other token is ignored.
pub open spec fn enabled_of_tokens(toks: Seq<Seq<char>>) -> Seq<Seq<char>>
    decreases toks.len(),
{
    if toks.len() == 0 {
        Seq::empty()
    } else {
        let rest = enabled_of_tokens(toks.drop_last());
        let t = toks.last();
        if t.len() >= 2 && t[0] == '+' {
            rest.push(t.subrange(1, t.len() as int))
        } else {
            rest
        }
    }
}

/// The feature names a comma-delimited source string enables.
pub open spec fn enabled_features(s: Seq<char>) -> Seq<Seq<char>> {
    enabled_of_tokens(split_on(s, ','))
}

/// Append the features enabled by one comma-delimited source string.
fn append_enabled(src: &str, out: &mut Vec<String>)
    ensures
        views_of(final(out)@) == views_of(old(out)@) + enabled_features(src@),
{
    let toks = split_str(src, ',');
    let n = toks.len();
    let mut i: usize = 0;
    proof {
        assert(views_of(out@) =~= views_of(out@) + enabled_of_tokens(
            views_of(toks@).subrange(0, 0),
        ));
    }
    while i < n
        invariant
            i <= n,
            n == toks@.len(),
            views_of(toks@) == split_on(src@, ','),
            views_of(out@) == views_of(old(out)@) + enabled_of_tokens(
                views_of(toks@).subrange(0, i as int),
            ),
        decreases n - i,
    {
        let ghost pre = out@;
        let t = &toks[i];
        let tl = t.as_str().unicode_len();
        if tl >= 2 && t.as_str().get_char(0) == '+' {
            out.push(t.as_str().substring_char(1, tl).to_owned());
        }
        proof {
            let a = views_of(toks@).subrange(0, i as int);
            let b = views_of(toks@).subrange(0, i as int + 1);
            assert(b.drop_last() =~= a);
            assert(b.last() == views_of(toks@)[i as int]);
            assert(views_of(toks@)[i as int] == toks@[i as int]@);
            if toks@[i as int]@.len() >= 2 && toks@[i as int]@[0] == '+' {
                assert(views_of(out@) =~= views_of(pre).push(
                    toks@[i as int]@.subrange(1, toks@[i as int]@.len() as int),
                ));
            } else {
                assert(views_of(out@) =~= views_of(pre));
            }
            assert(views_of(out@) =~= views_of(old(out)@) + enabled_of_tokens(b));
        }
        i += 1;
    }
    proof {
        assert(views_of(toks@).subrange(0, n as int) =~= views_of(toks@));
    }
}

impl SpirCodegenBackend {
    /// Compute the target feature set from the two comma-delimited sources.
    /// Only tokens explicitly enabling a feature are kept, command-line
    /// tokens ordered before the target's defaults. The set is computed
    /// unconditionally: later passes consuming target-specialized codegen
    /// depend on it even while the optimizer ignores it.
    pub fn target_features(&self, cmdline: &str, cfg: &str) -> (r: Vec<String>)
        ensures
            views_of(r@) == enabled_features(cmdline@) + enabled_features(cfg@),
    {
        let mut out: Vec<String> = Vec::new();
        append_enabled(cmdline, &mut out);
        append_enabled(cfg, &mut out);
        proof {
            assert(views_of(out@) =~= enabled_features(cmdline@) + enabled_features(cfg@));
        }
        out
    }

    /// Translate one compilation unit into a finalized module: walk the
    /// unit's items twice in their fixed deterministic order, registering
    /// then defining every item that does not match the exclusion
    /// predicate, synthesize the entry-point wrapper when the unit is
    /// eligible, and assemble the builder state into the native word form.
    pub fn compile_codegen_unit(&self, unit: &CompilationUnit, target: &SpirvTarget) -> (r: (
        ModuleCodegen,
        u64,
    ))
        requires
            unit_fits(unit.items@),
        ensures
            r.0.name@ == unit.name@,
            r.0.kind == ModuleKind::Regular,
            r.0.module@ == assemble_spec(
                memory_model_of(target.env_spec()),
                version_of(target.env_spec()),
                kept_decls(unit.items@),
                unit.needs_entry_wrapper,
            ),
            r.1 == 0,
    {
        let mm = target.memory_model();
        let version = target.spirv_version();
        let mut builder = ModuleBuilder::new(unit.name.clone(), mm, version);
        let n = unit.items.len();
        let mut i: usize = 0;
        while i < n
            invariant
                i <= n,
                n == unit.items@.len(),
                builder.decls_spec() == kept_decls(unit.items@.subrange(0, i as int)),
                builder.defined_spec() == Seq::<String>::empty(),
                builder.unit_name_spec() == unit.name@,
                builder.memory_model_spec() == mm,
                builder.version_spec() == version,
                builder.entry_wrapper_spec() == false,
            decreases n - i,
        {
            let item = &unit.items[i];
            let ghost pre = builder.decls_spec();
            if !is_blocklisted_fn(item) {
                builder.register(item);
            }
            proof {
                let a = unit.items@.subrange(0, i as int);
                let b = unit.items@.subrange(0, i as int + 1);
                assert(b.drop_last() =~= a);
                assert(b.last() == unit.items@[i as int]);
                if !is_blocklisted(unit.items@[i as int]) {
                    assert(kept_items(b) == kept_items(a).push(unit.items@[i as int]));
                    assert(kept_decls(b) =~= kept_decls(a).push(decl_of(unit.items@[i as int])));
                } else {
                    assert(kept_items(b) == kept_items(a));
                    assert(kept_decls(b) =~= kept_decls(a));
                }
                assert(builder.decls_spec() =~= kept_decls(b));
            }
            i += 1;
        }
        proof {
            assert(unit.items@.subrange(0, n as int) =~= unit.items@);
        }
        let mut i: usize = 0;
        while i < n
            invariant
                i <= n,
                n == unit.items@.len(),
                builder.decls_spec() == kept_decls(unit.items@),
                views_of(builder.defined_spec()) == kept_names(unit.items@.subrange(0, i as int)),
                builder.unit_name_spec() == unit.name@,
                builder.memory_model_spec() == mm,
                builder.version_spec() == version,
                builder.entry_wrapper_spec() == false,
            decreases n - i,
        {
            let item = &unit.items[i];
            let ghost pre = builder.defined_spec();
            let ghost a = unit.items@.subrange(0, i as int);
            let ghost b = unit.items@.subrange(0, i as int + 1);
            proof {
                assert(b.drop_last() =~= a);
                assert(b.last() == unit.items@[i as int]);
            }
            if !is_blocklisted_fn(item) {
                proof {
                    lemma_kept_prefix(unit.items@, i as int + 1);
                    assert(kept_items(b) == kept_items(a).push(unit.items@[i as int]));
                    let pos = kept_items(a).len() as int;
                    assert(kept_items(b)[pos] == unit.items@[i as int]);
                    assert(kept_items(unit.items@)[pos] == unit.items@[i as int]);
                    assert(decl_names(kept_decls(unit.items@))[pos] == unit.items@[i as int].name@);
                    assert(decl_names(builder.decls_spec()).contains(item.name@));
                }
                builder.define(&item.name);
                proof {
                    assert(views_of(builder.defined_spec()) =~= views_of(pre).push(
                        unit.items@[i as int].name@,
                    ));
                    assert(kept_names(b) =~= kept_names(a).push(unit.items@[i as int].name@));
                }
            } else {
                proof {
                    assert(kept_items(b) == kept_items(a));
                    assert(kept_names(b) =~= kept_names(a));
                }
            }
            proof {
                assert(views_of(builder.defined_spec()) =~= kept_names(b));
            }
            i += 1;
        }
        proof {
            assert(unit.items@.subrange(0, n as int) =~= unit.items@);
        }
        if unit.needs_entry_wrapper {
            builder.add_entry_wrapper();
        }
        proof {
            lemma_kept_fits(unit.items@);
            assert(views_of(builder.defined_spec()) =~= decl_names(builder.decls_spec()));
        }
        let words = match builder.assemble() {
            Ok(words) => words,
            Err(_) => unreached(),
        };
        let module = ModuleCodegen { name: unit.name.clone(), module: words, kind:
            ModuleKind::Regular };
        (module, 0)
    }

    /// Produce the byte-stream object form of a finalized module.
    pub fn codegen(&self, module: ModuleCodegen) -> (r: CompiledModule)
        ensures
            r.name@ == module.name@,
            r.kind == module.kind,
            r.object@ == words_to_bytes(module.module@),
    {
        let object = crate::codec::encode(&module.module);
        CompiledModule { name: module.name, kind: module.kind, object }
    }

    /// Hand a finalized module to the thin linking stage.
    pub fn prepare_thin(module: ModuleCodegen) -> (r: (String, SpirvThinBuffer))
        ensures
            r.0@ == module.name@,
            r.1.words_spec() == module.module@,
    {
        (module.name, SpirvThinBuffer::new(module.module))
    }

    /// Serialize a finalized module for caching.
    pub fn serialize_module(module: ModuleCodegen) -> (r: (String, SpirvModuleBuffer))
        ensures
            r.0@ == module.name@,
            r.1.words_spec() == module.module@,
    {
        (module.name, SpirvModuleBuffer::new(module.module))
    }

    /// The backend emits no allocator shim: an allocator module is empty.
    pub fn codegen_allocator(&self, _module_name: &str) -> (r: Vec<u32>)
        ensures
            r@ == Seq::<u32>::empty(),
    {
        Vec::new()
    }

    /// The module-level optimization pass is an explicit no-op.
    pub fn optimize(&self, _module: &ModuleCodegen) -> (r: Result<(), LinkError>)
        ensures
            r is Ok,
    {
        Ok(())
    }

    /// Merge freshly compiled and cached modules; see `link::run_thin`.
    pub fn run_thin_lto(
        modules: Vec<(String, SpirvThinBuffer)>,
        cached_modules: Vec<(SpirvModuleBuffer, WorkProduct)>,
    ) -> (r: (Vec<ThinModule>, Vec<WorkProduct>))
        ensures
            r.0@.len() == modules@.len() + cached_modules@.len(),
            forall|i: int|
                0 <= i < modules@.len() ==> (#[trigger] r.0@[i]).name@ == modules@[i].0@
                    && r.0@[i].buffer@ == words_to_bytes(modules@[i].1.words_spec()),
            forall|k: int|
                modules@.len() <= k < r.0@.len() ==> (#[trigger] r.0@[k]).name@
                    == cached_modules@[k - modules@.len()].1.id@ && r.0@[k].buffer@
                    == words_to_bytes(cached_modules@[k - modules@.len()].0.words_spec()),
            r.1@.len() == cached_modules@.len(),
            forall|j: int|
                0 <= j < cached_modules@.len() ==> #[trigger] r.1@[j] == cached_modules@[j].1,
    {
        run_thin(modules, cached_modules)
    }

    /// Decode one thin module back to native words; see
    /// `link::optimize_thin`.
    pub fn optimize_thin(&self, thin: &ThinModule) -> (r: Result<ModuleCodegen, LinkError>)
        ensures
            match r {
                Ok(m) => thin.buffer@.len() % 4 == 0 && m.module@ == crate::codec::bytes_to_words(
                    thin.buffer@,
                ) && m.name@ == thin.name@ && m.kind == ModuleKind::Regular,
                Err(e) => thin.buffer@.len() % 4 != 0 && (e
                    matches LinkError::BufferDecodeFailure(n) && n@ == thin.name@),
            },
    {
        crate::link::optimize_thin(thin)
    }

    /// The processor name the codegen stage is asked to target: the
    /// command-line override when one is given, else the target's default.
    pub fn chosen_target_cpu(cpu_override: Option<&String>, default_cpu: &str) -> (r: String)
        ensures
            match cpu_override {
                Some(c) => r@ == c@,
                None => r@ == default_cpu@,
            },
    {
        match cpu_override {
            Some(c) => c.clone(),
            None => default_cpu.to_owned(),
        }
    }

    /// Join the codegen stage: consume the typed handle the stage produced
    /// and hand its results and work products to the caller unchanged.
    pub fn join_codegen(&self, ongoing: OngoingCodegen) -> (r: (CodegenResults, Vec<WorkProduct>))
        ensures
            r.0 == ongoing.results,
            r.1 == ongoing.work_products,
    {
        (ongoing.results, ongoing.work_products)
    }

    /// The terminal link stage; see `link::link`.
    pub fn link(&self, output_kinds: &Vec<OutputKind>) -> (r: Result<Vec<LinkOutput>, LinkError>)
        ensures
            match r {
                Ok(outs) => crate::link::first_unsupported(output_kinds@) == output_kinds@.len()
                    && outs@.len() == output_kinds@.len() && forall|i: int|
                    0 <= i < outs@.len() ==> (#[trigger] outs@[i]).kind == output_kinds@[i]
                        && outs@[i].payload@ == crate::link::output_marker(),
                Err(e) => crate::link::first_unsupported(output_kinds@) < output_kinds@.len() && e
                    == LinkError::UnsupportedOutputKind(
                    output_kinds@[crate::link::first_unsupported(output_kinds@)],
                ),
            },
    {
        crate::link::link(output_kinds)
    }
}

} // verus!
