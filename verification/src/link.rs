//! The thin linking stage: merging freshly compiled modules with cached
//! ones into the final candidate list, the validating identity transform
//! that turns a thin module back into its native word form, and the
//! terminal output stage that admits exactly one output kind.

use vstd::prelude::*;

use crate::codec::bytes_to_words;
use crate::codec::decode;
use crate::codec::words_to_bytes;
use crate::codec::SpirvModuleBuffer;
use crate::codec::SpirvThinBuffer;
use crate::compile::ModuleCodegen;
use crate::compile::ModuleKind;

verus! {

/// A cache record keyed by the stable identity of the unit it was produced
/// from; owned by the external caching layer and merely referenced here.
#[derive(Clone, Debug)]
pub struct WorkProduct {
    pub id: String,
}

/// A serialized module awaiting the thin linking stage, in byte form.
#[derive(Debug)]
pub struct ThinModule {
    pub name: String,
    pub buffer: Vec<u8>,
}

/// The artifact kinds a build can request. Only the library kind is
/// supported; every other kind is rejected before any output is written.
#[derive(Clone, Copy, PartialEq, Eq, Structural, Debug)]
pub enum OutputKind {
    Library,
    Executable,
    StaticLibrary,
    ProcMacro,
}

/// A failure of the linking stage.
#[derive(Debug)]
pub enum LinkError {
    /// A non-library output kind was requested; the build aborts before
    /// any artifact is written.
    UnsupportedOutputKind(OutputKind),
    /// A module's byte stream was malformed at decode time. Carries the
    /// offending module's name.
    BufferDecodeFailure(String),
}

/// Merge freshly compiled modules with previously cached ones. Every input
/// module appears exactly once in the candidate list, fresh modules first
/// in their given order, then the cached ones; the returned work products
/// are those of the cached inputs, in order.
pub fn run_thin(
    modules: Vec<(String, SpirvThinBuffer)>,
    cached_modules: Vec<(SpirvModuleBuffer, WorkProduct)>,
) -> (r: (Vec<ThinModule>, Vec<WorkProduct>))
    ensures
        r.0@.len() == modules@.len() + cached_modules@.len(),
        forall|i: int|
            0 <= i < modules@.len() ==> (#[trigger] r.0@[i]).name@ == modules@[i].0@
                && r.0@[i].buffer@ == words_to_bytes(modules@[i].1.words_spec()),
        forall|k: int|
            modules@.len() <= k < r.0@.len() ==> (#[trigger] r.0@[k]).name@ == cached_modules@[k
                - modules@.len()].1.id@ && r.0@[k].buffer@ == words_to_bytes(
                cached_modules@[k - modules@.len()].0.words_spec(),
            ),
        r.1@.len() == cached_modules@.len(),
        forall|j: int| 0 <= j < cached_modules@.len() ==> #[trigger] r.1@[j] == cached_modules@[j].1,
{
    let mut candidates: Vec<ThinModule> = Vec::new();
    let mut work_products: Vec<WorkProduct> = Vec::new();
    let n_fresh = modules.len();
    let mut i: usize = 0;
    while i < n_fresh
        invariant
            i <= n_fresh,
            n_fresh == modules@.len(),
            candidates@.len() == i,
            forall|k: int|
                0 <= k < i ==> (#[trigger] candidates@[k]).name@ == modules@[k].0@
                    && candidates@[k].buffer@ == words_to_bytes(modules@[k].1.words_spec()),
        decreases n_fresh - i,
    {
        let name = modules[i].0.clone();
        let buffer = modules[i].1.data();
        candidates.push(ThinModule { name, buffer });
        i += 1;
    }
    let n_cached = cached_modules.len();
    let mut j: usize = 0;
    while j < n_cached
        invariant
            j <= n_cached,
            n_cached == cached_modules@.len(),
            n_fresh == modules@.len(),
            candidates@.len() == n_fresh + j,
            work_products@.len() == j,
            forall|k: int|
                0 <= k < n_fresh ==> (#[trigger] candidates@[k]).name@ == modules@[k].0@
                    && candidates@[k].buffer@ == words_to_bytes(modules@[k].1.words_spec()),
            forall|k: int|
                n_fresh <= k < candidates@.len() ==> (#[trigger] candidates@[k]).name@
                    == cached_modules@[k - n_fresh].1.id@ && candidates@[k].buffer@
                    == words_to_bytes(cached_modules@[k - n_fresh].0.words_spec()),
            forall|k: int| 0 <= k < j ==> #[trigger] work_products@[k] == cached_modules@[k].1,
        decreases n_cached - j,
    {
        let name = cached_modules[j].1.id.clone();
        let buffer = cached_modules[j].0.data();
        candidates.push(ThinModule { name, buffer });
        work_products.push(WorkProduct { id: cached_modules[j].1.id.clone() });
        j += 1;
    }
    (candidates, work_products)
}

/// The explicit no-op optimization policy of the thin stage: decode the
/// byte buffer back to native words and wrap it unchanged with its name and
/// the regular module kind. Fails exactly when the byte stream is not a
/// whole number of words.
pub fn optimize_thin(thin: &ThinModule) -> (r: Result<ModuleCodegen, LinkError>)
    ensures
        match r {
            Ok(m) => thin.buffer@.len() % 4 == 0 && m.module@ == bytes_to_words(thin.buffer@)
                && m.name@ == thin.name@ && m.kind == ModuleKind::Regular,
            Err(e) => thin.buffer@.len() % 4 != 0 && (e matches LinkError::BufferDecodeFailure(n)
                && n@ == thin.name@),
        },
{
    match decode(&thin.buffer) {
        Some(words) => Ok(
            ModuleCodegen { name: thin.name.clone(), module: words, kind: ModuleKind::Regular },
        ),
        None => Err(LinkError::BufferDecodeFailure(thin.name.clone())),
    }
}

/// Index of the first requested output kind that is not the library kind,
/// or the number of kinds if all are supported.
pub open spec fn first_unsupported(kinds: Seq<OutputKind>) -> int
    decreases kinds.len(),
{
    if kinds.len() == 0 {
        0
    } else if kinds[0] != OutputKind::Library {
        0
    } else {
        1 + first_unsupported(kinds.subrange(1, kinds.len() as int))
    }
}

proof fn lemma_first_unsupported_props(kinds: Seq<OutputKind>)
    ensures
        0 <= first_unsupported(kinds) <= kinds.len(),
        forall|j: int| 0 <= j < first_unsupported(kinds) ==> kinds[j] == OutputKind::Library,
        first_unsupported(kinds) < kinds.len() ==> kinds[first_unsupported(kinds)]
            != OutputKind::Library,
    decreases kinds.len(),
{
    if kinds.len() == 0 {
    } else if kinds[0] != OutputKind::Library {
    } else {
        let tail = kinds.subrange(1, kinds.len() as int);
        lemma_first_unsupported_props(tail);
        assert(forall|j: int| 1 <= j < first_unsupported(kinds) ==> kinds[j] == tail[j - 1]);
    }
}

/// Rejection is total and early: a request names a non-library output kind
/// exactly when `link` refuses it. In that case `link`'s contract forces
/// the error naming the first offending kind and yields no writes at all,
/// so zero bytes reach any destination.
pub proof fn lemma_rejection_complete(kinds: Seq<OutputKind>)
    ensures
        (exists|i: int| 0 <= i < kinds.len() && kinds[i] != OutputKind::Library)
            <==> first_unsupported(kinds) < kinds.len(),
{
    lemma_first_unsupported_props(kinds);
    if exists|i: int| 0 <= i < kinds.len() && kinds[i] != OutputKind::Library {
        let i = choose|i: int| 0 <= i < kinds.len() && kinds[i] != OutputKind::Library;
        assert(first_unsupported(kinds) <= i);
    }
}

proof fn lemma_first_unsupported_at(kinds: Seq<OutputKind>, k: int)
    requires
        0 <= k <= kinds.len(),
        forall|j: int| 0 <= j < k ==> kinds[j] == OutputKind::Library,
        k < kinds.len() ==> kinds[k] != OutputKind::Library,
    ensures
        first_unsupported(kinds) == k,
    decreases kinds.len(),
{
    if kinds.len() == 0 {
    } else if k == 0 {
    } else {
        let tail = kinds.subrange(1, kinds.len() as int);
        assert(forall|j: int| 0 <= j < k - 1 ==> tail[j] == OutputKind::Library);
        lemma_first_unsupported_at(tail, k - 1);
    }
}

/// The fixed success marker written in place of a real artifact for each
/// supported output: the stage has no true module writer yet, by design.
pub open spec fn output_marker() -> Seq<char> {
    "This has been \"compiled\" successfully using rustc_codegen_spir."@
}

/// One pending artifact write for a supported output kind. The caller
/// resolves the destination path (or standard output) and performs the
/// write.
#[derive(Debug)]
pub struct LinkOutput {
    pub kind: OutputKind,
    pub payload: String,
}

/// The terminal link stage: validate every requested output kind up front,
/// rejecting the whole build on the first non-library kind before anything
/// is written; for an all-library request, produce one marker write per
/// requested kind.
pub fn link(output_kinds: &Vec<OutputKind>) -> (r: Result<Vec<LinkOutput>, LinkError>)
    ensures
        match r {
            Ok(outs) => first_unsupported(output_kinds@) == output_kinds@.len() && outs@.len()
                == output_kinds@.len() && forall|i: int|
                0 <= i < outs@.len() ==> (#[trigger] outs@[i]).kind == output_kinds@[i]
                    && outs@[i].payload@ == output_marker(),
            Err(e) => first_unsupported(output_kinds@) < output_kinds@.len() && e
                == LinkError::UnsupportedOutputKind(
                output_kinds@[first_unsupported(output_kinds@)],
            ),
        },
{
    let n = output_kinds.len();
    let mut i: usize = 0;
    while i < n
        invariant
            i <= n,
            n == output_kinds@.len(),
            forall|j: int| 0 <= j < i ==> output_kinds@[j] == OutputKind::Library,
        decreases n - i,
    {
        let kind = output_kinds[i];
        match kind {
            OutputKind::Library => {},
            _ => {
                proof {
                    lemma_first_unsupported_at(output_kinds@, i as int);
                }
                return Err(LinkError::UnsupportedOutputKind(kind));
            },
        }
        i += 1;
    }
    proof {
        lemma_first_unsupported_at(output_kinds@, n as int);
    }
    let mut outs: Vec<LinkOutput> = Vec::new();
    let mut i: usize = 0;
    while i < n
        invariant
            i <= n,
            n == output_kinds@.len(),
            outs@.len() == i,
            forall|j: int| 0 <= j < n ==> output_kinds@[j] == OutputKind::Library,
            forall|j: int|
                0 <= j < i ==> (#[trigger] outs@[j]).kind == output_kinds@[j]
                    && outs@[j].payload@ == output_marker(),
        decreases n - i,
    {
        let payload: String =
            "This has been \"compiled\" successfully using rustc_codegen_spir.".to_owned();
        outs.push(LinkOutput { kind: output_kinds[i], payload });
        i += 1;
    }
    Ok(outs)
}

} // verus!
