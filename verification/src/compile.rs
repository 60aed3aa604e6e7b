//! The per-unit translation driver's data model: program items, the
//! exclusion predicate for item shapes the backend cannot lower, and the
//! module builder that the two-phase walk (register, then define) fills and
//! finalizes into the native word-sequence module form.

use vstd::prelude::*;
use vstd::string::*;

use crate::strutil::views_of;
use crate::target::MemoryModel;

verus! {

/// The magic constant every assembled module starts with; readers use it to
/// detect word order.
pub const MODULE_MAGIC: u32 = 0x07230203;

/// The linkage a program item is declared with.
#[derive(Clone, Copy, PartialEq, Eq, Structural, Debug)]
pub enum Linkage {
    External,
    Internal,
}

/// The visibility a program item is declared with.
#[derive(Clone, Copy, PartialEq, Eq, Structural, Debug)]
pub enum Visibility {
    Default,
    Hidden,
    Protected,
}

/// How a function item relates to the debug-formatting machinery, which the
/// backend cannot lower and skips entirely.
#[derive(Clone, Copy, PartialEq, Eq, Structural, Debug)]
pub enum FnShape {
    /// An ordinary function.
    Plain,
    /// The formatting method of a debug-formatting trait implementation.
    DebugFmtImplMethod,
    /// The decimal-formatting helper, excluded exactly when its parent is a
    /// debug-formatting implementation method.
    FmtDecimalHelper { parent_is_debug_fmt_impl: bool },
}

/// What kind of definition a program item is.
#[derive(Clone, Copy, PartialEq, Eq, Structural, Debug)]
pub enum ItemKind {
    Fn { shape: FnShape },
    Static,
}

/// One monomorphized program item handed over by the frontend.
#[derive(Clone, Debug)]
pub struct ProgramItem {
    pub name: String,
    pub kind: ItemKind,
    pub linkage: Linkage,
    pub visibility: Visibility,
}

/// An independently schedulable group of program items, already in the
/// deterministic order fixed by the scheduler's stable item keys.
#[derive(Debug)]
pub struct CompilationUnit {
    pub name: String,
    pub items: Vec<ProgramItem>,
    /// Whether the frontend asked for an entry-point wrapper to be
    /// synthesized for this unit.
    pub needs_entry_wrapper: bool,
}

/// The exclusion predicate: a function item is skipped when it is the
/// formatting method of a debug-formatting implementation, or the
/// decimal-formatting helper nested in one. Statics are never skipped.
pub open spec fn is_blocklisted(item: ProgramItem) -> bool {
    match item.kind {
        ItemKind::Fn { shape } => match shape {
            FnShape::Plain => false,
            FnShape::DebugFmtImplMethod => true,
            FnShape::FmtDecimalHelper { parent_is_debug_fmt_impl } => parent_is_debug_fmt_impl,
        },
        ItemKind::Static => false,
    }
}

/// Decide whether an item matches the exclusion predicate.
pub fn is_blocklisted_fn(item: &ProgramItem) -> (r: bool)
    ensures
        r == is_blocklisted(*item),
{
    match item.kind {
        ItemKind::Fn { shape } => match shape {
            FnShape::Plain => false,
            FnShape::DebugFmtImplMethod => true,
            FnShape::FmtDecimalHelper { parent_is_debug_fmt_impl } => parent_is_debug_fmt_impl,
        },
        ItemKind::Static => false,
    }
}

/// The items of a sequence that survive the exclusion predicate, in order.
pub open spec fn kept_items(items: Seq<ProgramItem>) -> Seq<ProgramItem>
    decreases items.len(),
{
    if items.len() == 0 {
        Seq::empty()
    } else {
        let rest = kept_items(items.drop_last());
        if !is_blocklisted(items.last()) {
            rest.push(items.last())
        } else {
            rest
        }
    }
}

/// How many items of a sequence match the exclusion predicate.
pub open spec fn blocklisted_count(items: Seq<ProgramItem>) -> nat
    decreases items.len(),
{
    if items.len() == 0 {
        0
    } else {
        blocklisted_count(items.drop_last()) + if is_blocklisted(items.last()) {
            1nat
        } else {
            0nat
        }
    }
}

/// Every item is either excluded or kept: the kept set and the excluded set
/// partition the unit.
pub proof fn lemma_kept_partition(items: Seq<ProgramItem>)
    ensures
        kept_items(items).len() + blocklisted_count(items) == items.len(),
    decreases items.len(),
{
    if items.len() > 0 {
        lemma_kept_partition(items.drop_last());
    }
}

/// The kept items of a prefix are a prefix of the kept items of the whole.
pub proof fn lemma_kept_prefix(items: Seq<ProgramItem>, m: int)
    requires
        0 <= m <= items.len(),
    ensures
        kept_items(items.subrange(0, m)).is_prefix_of(kept_items(items)),
    decreases items.len() - m,
{
    if m == items.len() {
        assert(items.subrange(0, m) =~= items);
    } else {
        lemma_kept_prefix(items, m + 1);
        let a = items.subrange(0, m);
        let b = items.subrange(0, m + 1);
        assert(b.drop_last() =~= a);
        assert(kept_items(b) == if !is_blocklisted(b.last()) {
            kept_items(a).push(b.last())
        } else {
            kept_items(a)
        });
    }
}

/// One named declaration registered in the first phase.
#[derive(Debug)]
pub struct Declaration {
    pub name: String,
    pub linkage: Linkage,
    pub visibility: Visibility,
}

/// The declaration a program item is registered as.
pub open spec fn decl_of(item: ProgramItem) -> Declaration {
    Declaration { name: item.name, linkage: item.linkage, visibility: item.visibility }
}

/// The names of a declaration sequence.
pub open spec fn decl_names(ds: Seq<Declaration>) -> Seq<Seq<char>> {
    ds.map_values(|d: Declaration| d.name@)
}

/// A unit's items could not be assembled into a module because the builder
/// invariant was broken: the defined items do not match the registered
/// declarations. Carries the offending unit's name.
#[derive(Debug)]
pub struct ModuleAssemblyFailure {
    pub unit_name: String,
}

/// The header version word: major and minor in the second and third byte.
pub open spec fn version_word(version: (u8, u8)) -> u32 {
    ((version.0 as u32) << 16) | ((version.1 as u32) << 8)
}

/// The header word naming the declared memory model.
pub open spec fn memory_model_word(mm: MemoryModel) -> u32 {
    match mm {
        MemoryModel::Simple => 0,
        MemoryModel::GLSL450 => 1,
        MemoryModel::OpenCL => 2,
        MemoryModel::Vulkan => 3,
    }
}

/// The word encoding of a linkage tag.
pub open spec fn linkage_word(l: Linkage) -> u32 {
    match l {
        Linkage::External => 0,
        Linkage::Internal => 1,
    }
}

/// The word encoding of a visibility tag.
pub open spec fn visibility_word(v: Visibility) -> u32 {
    match v {
        Visibility::Default => 0,
        Visibility::Hidden => 1,
        Visibility::Protected => 2,
    }
}

/// A name's characters, one word each.
pub open spec fn char_words(name: Seq<char>) -> Seq<u32> {
    name.map_values(|c: char| c as u32)
}

/// The words of one declaration: the name length, the name's characters,
/// then the linkage and visibility tags.
pub open spec fn decl_words(d: Declaration) -> Seq<u32> {
    seq![d.name@.len() as u32] + char_words(d.name@) + seq![
        linkage_word(d.linkage),
        visibility_word(d.visibility),
    ]
}

/// The words of a declaration sequence, in order.
pub open spec fn decls_words(ds: Seq<Declaration>) -> Seq<u32>
    decreases ds.len(),
{
    if ds.len() == 0 {
        Seq::empty()
    } else {
        decls_words(ds.drop_last()) + decl_words(ds.last())
    }
}

/// The full word form of a finalized module: the magic constant, the
/// version and memory-model header words, the number of declared
/// definitions, the entry-wrapper flag, then the declaration words.
pub open spec fn assemble_spec(
    mm: MemoryModel,
    version: (u8, u8),
    ds: Seq<Declaration>,
    entry_wrapper: bool,
) -> Seq<u32> {
    seq![
        MODULE_MAGIC,
        version_word(version),
        memory_model_word(mm),
        ds.len() as u32,
        if entry_wrapper {
            1u32
        } else {
            0u32
        },
    ] + decls_words(ds)
}

/// Size bounds under which a declaration list can be assembled: the count
/// and every name length must fit in a header word.
pub open spec fn decls_fit(ds: Seq<Declaration>) -> bool {
    &&& ds.len() <= 0xffff_ffff
    &&& forall|i: int| 0 <= i < ds.len() ==> (#[trigger] ds[i]).name@.len() <= 0xffff_ffff
}

/// Size bounds under which a unit can be compiled.
pub open spec fn unit_fits(items: Seq<ProgramItem>) -> bool {
    &&& items.len() <= 0xffff_ffff
    &&& forall|i: int| 0 <= i < items.len() ==> (#[trigger] items[i]).name@.len() <= 0xffff_ffff
}

/// The unit-scoped module builder threaded through the two phases. It is
/// owned by one unit's translation and never shared across units.
pub struct ModuleBuilder {
    unit_name: String,
    memory_model: MemoryModel,
    version: (u8, u8),
    entry_wrapper: bool,
    decls: Vec<Declaration>,
    defined: Vec<String>,
}

impl ModuleBuilder {
    /// The unit this builder belongs to.
    pub closed spec fn unit_name_spec(&self) -> Seq<char> {
        self.unit_name@
    }

    /// The memory model the module header will declare.
    pub closed spec fn memory_model_spec(&self) -> MemoryModel {
        self.memory_model
    }

    /// The version pair the module header will declare.
    pub closed spec fn version_spec(&self) -> (u8, u8) {
        self.version
    }

    /// Whether an entry-point wrapper was synthesized.
    pub closed spec fn entry_wrapper_spec(&self) -> bool {
        self.entry_wrapper
    }

    /// The declarations registered so far, in order.
    pub closed spec fn decls_spec(&self) -> Seq<Declaration> {
        self.decls@
    }

    /// The names defined so far, in order.
    pub closed spec fn defined_spec(&self) -> Seq<String> {
        self.defined@
    }

    /// A fresh builder for one unit, with the header parameters fixed and
    /// nothing registered or defined.
    pub fn new(unit_name: String, memory_model: MemoryModel, version: (u8, u8)) -> (r:
        ModuleBuilder)
        ensures
            r.unit_name_spec() == unit_name@,
            r.memory_model_spec() == memory_model,
            r.version_spec() == version,
            r.entry_wrapper_spec() == false,
            r.decls_spec() == Seq::<Declaration>::empty(),
            r.defined_spec() == Seq::<String>::empty(),
    {
        ModuleBuilder {
            unit_name,
            memory_model,
            version,
            entry_wrapper: false,
            decls: Vec::new(),
            defined: Vec::new(),
        }
    }

    /// First phase: register an item as a named declaration with its
    /// linkage and visibility, without a body.
    pub fn register(&mut self, item: &ProgramItem)
        ensures
            final(self).decls_spec() == old(self).decls_spec().push(decl_of(*item)),
            final(self).defined_spec() == old(self).defined_spec(),
            final(self).unit_name_spec() == old(self).unit_name_spec(),
            final(self).memory_model_spec() == old(self).memory_model_spec(),
            final(self).version_spec() == old(self).version_spec(),
            final(self).entry_wrapper_spec() == old(self).entry_wrapper_spec(),
    {
        self.decls.push(
            Declaration {
                name: item.name.clone(),
                linkage: item.linkage,
                visibility: item.visibility,
            },
        );
    }

    /// Second phase: emit an item's body against its declaration. The
    /// define phase assumes every non-excluded item was already registered.
    pub fn define(&mut self, name: &String)
        requires
            decl_names(old(self).decls_spec()).contains(name@),
        ensures
            final(self).defined_spec() == old(self).defined_spec().push(*name),
            final(self).decls_spec() == old(self).decls_spec(),
            final(self).unit_name_spec() == old(self).unit_name_spec(),
            final(self).memory_model_spec() == old(self).memory_model_spec(),
            final(self).version_spec() == old(self).version_spec(),
            final(self).entry_wrapper_spec() == old(self).entry_wrapper_spec(),
    {
        self.defined.push(name.clone());
    }

    /// Synthesize the entry-point wrapper for an eligible unit.
    pub fn add_entry_wrapper(&mut self)
        ensures
            final(self).entry_wrapper_spec() == true,
            final(self).decls_spec() == old(self).decls_spec(),
            final(self).defined_spec() == old(self).defined_spec(),
            final(self).unit_name_spec() == old(self).unit_name_spec(),
            final(self).memory_model_spec() == old(self).memory_model_spec(),
            final(self).version_spec() == old(self).version_spec(),
    {
        self.entry_wrapper = true;
    }

    /// Finalize the accumulated state into the native word-sequence module.
    /// Fails exactly when the builder invariant is broken: the defined
    /// items, in order, do not match the registered declarations.
    pub fn assemble(&self) -> (r: Result<Vec<u32>, ModuleAssemblyFailure>)
        requires
            decls_fit(self.decls_spec()),
        ensures
            match r {
                Ok(ws) => views_of(self.defined_spec()) == decl_names(self.decls_spec())
                    && ws@ == assemble_spec(
                    self.memory_model_spec(),
                    self.version_spec(),
                    self.decls_spec(),
                    self.entry_wrapper_spec(),
                ),
                Err(e) => views_of(self.defined_spec()) != decl_names(self.decls_spec())
                    && e.unit_name@ == self.unit_name_spec(),
            },
    {
        let n = self.decls.len();
        if self.defined.len() != n {
            proof {
                assert(views_of(self.defined_spec()).len() != decl_names(self.decls_spec()).len());
            }
            return Err(ModuleAssemblyFailure { unit_name: self.unit_name.clone() });
        }
        let mut i: usize = 0;
        while i < n
            invariant
                i <= n,
                n == self.decls@.len(),
                n == self.defined@.len(),
                forall|k: int| 0 <= k < i ==> views_of(self.defined_spec())[k] == decl_names(
                    self.decls_spec(),
                )[k],
            decreases n - i,
        {
            if !(self.defined[i] == self.decls[i].name) {
                proof {
                    assert(views_of(self.defined_spec())[i as int] != decl_names(
                        self.decls_spec(),
                    )[i as int]);
                }
                return Err(ModuleAssemblyFailure { unit_name: self.unit_name.clone() });
            }
            i += 1;
        }
        proof {
            assert(views_of(self.defined_spec()) =~= decl_names(self.decls_spec()));
        }
        let version = self.version;
        let mut ws: Vec<u32> = Vec::new();
        ws.push(MODULE_MAGIC);
        ws.push(((version.0 as u32) << 16) | ((version.1 as u32) << 8));
        ws.push(
            match self.memory_model {
                MemoryModel::Simple => 0,
                MemoryModel::GLSL450 => 1,
                MemoryModel::OpenCL => 2,
                MemoryModel::Vulkan => 3,
            },
        );
        ws.push(n as u32);
        ws.push(if self.entry_wrapper {
            1
        } else {
            0
        });
        let ghost header = ws@;
        let mut i: usize = 0;
        while i < n
            invariant
                i <= n,
                n == self.decls@.len(),
                decls_fit(self.decls_spec()),
                ws@ == header + decls_words(self.decls@.subrange(0, i as int)),
            decreases n - i,
        {
            let d = &self.decls[i];
            let name_len = d.name.as_str().unicode_len();
            ws.push(name_len as u32);
            let ghost mid = ws@;
            let mut j: usize = 0;
            while j < name_len
                invariant
                    j <= name_len,
                    name_len == d.name@.len(),
                    d == self.decls@[i as int],
                    i < n == self.decls@.len(),
                    ws@ == mid + char_words(d.name@.subrange(0, j as int)),
                decreases name_len - j,
            {
                ws.push(d.name.as_str().get_char(j) as u32);
                proof {
                    assert(char_words(d.name@.subrange(0, j as int)).push(
                        d.name@[j as int] as u32,
                    ) =~= char_words(d.name@.subrange(0, j as int + 1)));
                }
                j += 1;
            }
            ws.push(
                match d.linkage {
                    Linkage::External => 0,
                    Linkage::Internal => 1,
                },
            );
            ws.push(
                match d.visibility {
                    Visibility::Default => 0,
                    Visibility::Hidden => 1,
                    Visibility::Protected => 2,
                },
            );
            proof {
                let pre = self.decls@.subrange(0, i as int);
                let now = self.decls@.subrange(0, i as int + 1);
                assert(d.name@.subrange(0, name_len as int) =~= d.name@);
                assert(now.drop_last() =~= pre);
                assert(now.last() == self.decls@[i as int]);
                assert(ws@ =~= header + (decls_words(pre) + decl_words(self.decls@[i as int])));
                assert(ws@ =~= header + decls_words(now));
            }
            i += 1;
        }
        proof {
            assert(self.decls@.subrange(0, n as int) =~= self.decls@);
            assert(ws@ =~= assemble_spec(
                self.memory_model_spec(),
                self.version_spec(),
                self.decls_spec(),
                self.entry_wrapper_spec(),
            ));
        }
        Ok(ws)
    }
}

/// The kind of a produced module.
#[derive(Clone, Copy, PartialEq, Eq, Structural, Debug)]
pub enum ModuleKind {
    Regular,
    Metadata,
    Allocator,
}

/// One compiled module in native word form, with its unit name and kind.
#[derive(Debug)]
pub struct ModuleCodegen {
    pub name: String,
    pub module: Vec<u32>,
    pub kind: ModuleKind,
}

/// The declarations of the items that survive the exclusion predicate.
pub open spec fn kept_decls(items: Seq<ProgramItem>) -> Seq<Declaration> {
    kept_items(items).map_values(|it: ProgramItem| decl_of(it))
}

/// The names of the items that survive the exclusion predicate.
pub open spec fn kept_names(items: Seq<ProgramItem>) -> Seq<Seq<char>> {
    kept_items(items).map_values(|it: ProgramItem| it.name@)
}

/// A unit within the size bounds has kept declarations within them too.
pub proof fn lemma_kept_fits(items: Seq<ProgramItem>)
    requires
        unit_fits(items),
    ensures
        decls_fit(kept_decls(items)),
    decreases items.len(),
{
    lemma_kept_partition(items);
    if items.len() == 0 {
    } else {
        let front = items.drop_last();
        assert(forall|i: int| 0 <= i < front.len() ==> front[i] == items[i]);
        lemma_kept_fits(front);
        if !is_blocklisted(items.last()) {
            assert(kept_decls(items) =~= kept_decls(front).push(decl_of(items.last())));
        } else {
            assert(kept_decls(items) =~= kept_decls(front));
        }
    }
}

/// Filtering consistency: for a unit of `n` items of which `b` match the
/// exclusion predicate, the finalized module's header declares exactly
/// `n - b` definitions, and the register and define phases touch the same
/// item set — the names defined are exactly the names declared, in order.
pub proof fn lemma_filtering_consistency(
    mm: MemoryModel,
    version: (u8, u8),
    items: Seq<ProgramItem>,
    entry_wrapper: bool,
)
    requires
        unit_fits(items),
    ensures
        kept_items(items).len() + blocklisted_count(items) == items.len(),
        assemble_spec(mm, version, kept_decls(items), entry_wrapper)[3] == kept_items(
            items,
        ).len() as u32,
        kept_names(items) == decl_names(kept_decls(items)),
{
    lemma_kept_partition(items);
    assert(kept_names(items) =~= decl_names(kept_decls(items)));
}

/// The names of the function items whose intermediate representation is
/// dumped when a dump directory is configured: dumping selects exactly the
/// function items of the unit, in order.
pub open spec fn dump_selection(items: Seq<ProgramItem>) -> Seq<Seq<char>>
    decreases items.len(),
{
    if items.len() == 0 {
        Seq::empty()
    } else {
        let rest = dump_selection(items.drop_last());
        if items.last().kind is Fn {
            rest.push(items.last().name@)
        } else {
            rest
        }
    }
}

/// Select the items of a unit whose intermediate representation is written
/// to the per-unit dump file: the function items, in unit order.
pub fn mir_dump_items(unit: &CompilationUnit) -> (r: Vec<String>)
    ensures
        views_of(r@) == dump_selection(unit.items@),
{
    let n = unit.items.len();
    let mut r: Vec<String> = Vec::new();
    let mut i: usize = 0;
    while i < n
        invariant
            i <= n,
            n == unit.items@.len(),
            views_of(r@) == dump_selection(unit.items@.subrange(0, i as int)),
        decreases n - i,
    {
        let ghost pre = r@;
        let item = &unit.items[i];
        match item.kind {
            ItemKind::Fn { .. } => {
                r.push(item.name.clone());
            },
            ItemKind::Static => {},
        }
        proof {
            let a = unit.items@.subrange(0, i as int);
            let b = unit.items@.subrange(0, i as int + 1);
            assert(b.drop_last() =~= a);
            assert(b.last() == unit.items@[i as int]);
            if unit.items@[i as int].kind is Fn {
                assert(views_of(r@) =~= views_of(pre).push(unit.items@[i as int].name@));
            }
            assert(views_of(r@) =~= dump_selection(b));
        }
        i += 1;
    }
    proof {
        assert(unit.items@.subrange(0, n as int) =~= unit.items@);
    }
    r
}

/// Where the forensic module dump goes when a unit's translation fails
/// while a dump path is configured: to that file when the path is absolute,
/// otherwise to the console.
#[derive(Clone, Copy, PartialEq, Eq, Structural, Debug)]
pub enum DumpTarget {
    File,
    Console,
}

/// Decide the destination of the failure-time module dump for a configured
/// path.
pub fn panic_dump_destination(path: &str) -> (r: DumpTarget)
    ensures
        r == DumpTarget::File <==> (path@.len() > 0 && path@[0] == '/'),
{
    if path.unicode_len() > 0 && path.get_char(0) == '/' {
        DumpTarget::File
    } else {
        DumpTarget::Console
    }
}

} // verus!
