//! The catalog of kernel modules and the handle through which a host
//! program reads a compiled module, whichever format it was built in.

use vstd::prelude::*;
use vstd::string::StringSliceAdditionalSpecFns;

use crate::text::{upper, views};

verus! {

/// Identifier of a kernel module. The order of the variants is the order of
/// the catalog.
#[derive(Debug, Clone, Copy, PartialEq, Eq, Hash, Structural)]
pub enum Id {
    Affine,
    Binary,
    Cast,
    Conv,
    Fill,
    Indexing,
    Quantized,
    Reduce,
    Sort,
    Ternary,
    Unary,
}

/// The catalog: every identifier once, in the order that gives each its index.
pub const ALL_IDS: [Id; 11] = [
    Id::Affine,
    Id::Binary,
    Id::Cast,
    Id::Conv,
    Id::Fill,
    Id::Indexing,
    Id::Quantized,
    Id::Reduce,
    Id::Sort,
    Id::Ternary,
    Id::Unary,
];

impl Id {
    /// Place of the identifier in the catalog, counted from 0.
    pub open spec fn position(self) -> int {
        match self {
            Id::Affine => 0,
            Id::Binary => 1,
            Id::Cast => 2,
            Id::Conv => 3,
            Id::Fill => 4,
            Id::Indexing => 5,
            Id::Quantized => 6,
            Id::Reduce => 7,
            Id::Sort => 8,
            Id::Ternary => 9,
            Id::Unary => 10,
        }
    }

    /// Name of the kernel unit that the identifier stands for.
    pub open spec fn spec_name(self) -> Seq<char> {
        match self {
            Id::Affine => "affine"@,
            Id::Binary => "binary"@,
            Id::Cast => "cast"@,
            Id::Conv => "conv"@,
            Id::Fill => "fill"@,
            Id::Indexing => "indexing"@,
            Id::Quantized => "quantized"@,
            Id::Reduce => "reduce"@,
            Id::Sort => "sort"@,
            Id::Ternary => "ternary"@,
            Id::Unary => "unary"@,
        }
    }

    /// Name of the kernel unit that the identifier stands for.
    pub fn name(self) -> (r: &'static str)
        ensures
            r@ == self.spec_name(),
    {
        match self {
            Id::Affine => "affine",
            Id::Binary => "binary",
            Id::Cast => "cast",
            Id::Conv => "conv",
            Id::Fill => "fill",
            Id::Indexing => "indexing",
            Id::Quantized => "quantized",
            Id::Reduce => "reduce",
            Id::Sort => "sort",
            Id::Ternary => "ternary",
            Id::Unary => "unary",
        }
    }
}

/// The names of the catalog's kernel units, in catalog order.
pub open spec fn catalog_names() -> Seq<Seq<char>> {
    Seq::new(ALL_IDS@.len(), |i: int| ALL_IDS@[i].spec_name())
}

/// The catalog holds every identifier at the place that `position` gives,
/// and nothing else: the indices are 0 to 10 in declaration order, each
/// used once.
pub proof fn lemma_catalog_order()
    ensures
        ALL_IDS@.len() == 11,
        forall|i: int| 0 <= i < 11 ==> (#[trigger] ALL_IDS@[i]).position() == i,
        forall|id: Id| 0 <= #[trigger] id.position() < 11 && ALL_IDS@[id.position()] == id,
        forall|a: Id, b: Id| #[trigger] a.position() == #[trigger] b.position() ==> a == b,
{
    assert(ALL_IDS@[0] == Id::Affine);
    assert(ALL_IDS@[1] == Id::Binary);
    assert(ALL_IDS@[2] == Id::Cast);
    assert(ALL_IDS@[3] == Id::Conv);
    assert(ALL_IDS@[4] == Id::Fill);
    assert(ALL_IDS@[5] == Id::Indexing);
    assert(ALL_IDS@[6] == Id::Quantized);
    assert(ALL_IDS@[7] == Id::Reduce);
    assert(ALL_IDS@[8] == Id::Sort);
    assert(ALL_IDS@[9] == Id::Ternary);
    assert(ALL_IDS@[10] == Id::Unary);
}

/// Two identifiers with the same kernel unit name are the same identifier.
pub proof fn lemma_names_distinct(a: Id, b: Id)
    requires
        a.spec_name() == b.spec_name(),
    ensures
        a == b,
{
    reveal_strlit("affine");
    reveal_strlit("binary");
    reveal_strlit("cast");
    reveal_strlit("conv");
    reveal_strlit("fill");
    reveal_strlit("indexing");
    reveal_strlit("quantized");
    reveal_strlit("reduce");
    reveal_strlit("sort");
    reveal_strlit("ternary");
    reveal_strlit("unary");
    let x = a.spec_name();
    let y = b.spec_name();
    assert(x.len() == y.len());
    assert(x[0] == y[0]);
    assert(x[1] == y[1]);
    assert(x[2] == y[2]);
}

/// Index of `id`: its place in the catalog, found by scanning the catalog
/// from the front.
pub fn module_index(id: Id) -> (r: usize)
    ensures
        r == id.position(),
        r < ALL_IDS@.len(),
        ALL_IDS@[r as int] == id,
{
    proof {
        lemma_catalog_order();
    }
    let mut i: usize = 0;
    while i < ALL_IDS.len()
        invariant
            i <= id.position() < 11,
            ALL_IDS@.len() == 11,
            ALL_IDS@[id.position()] == id,
            forall|j: int| 0 <= j < 11 ==> (#[trigger] ALL_IDS@[j]).position() == j,
        decreases 11 - i,
    {
        if ALL_IDS[i] == id {
            return i;
        }
        i += 1;
    }
    vstd::pervasive::unreached()
}

/// The names of the catalog's kernel units, in catalog order.
pub fn kernel_names() -> (names: Vec<String>)
    ensures
        views(names@) == catalog_names(),
{
    let mut names: Vec<String> = Vec::new();
    let mut i: usize = 0;
    while i < ALL_IDS.len()
        invariant
            i <= ALL_IDS@.len(),
            views(names@) == catalog_names().take(i as int),
        decreases ALL_IDS@.len() - i,
    {
        let name = String::from_str(ALL_IDS[i].name());
        assert(views(names@.push(name)) == views(names@).push(name@));
        names.push(name);
        i += 1;
    }
    assert(catalog_names().take(i as int) == catalog_names());
    names
}

/// The names of the constants that hold the modules of the catalog: the
/// kernel unit names in upper case.
pub proof fn lemma_constant_names()
    ensures
        crate::bindings::binding_names(catalog_names()) == seq![
            "AFFINE"@,
            "BINARY"@,
            "CAST"@,
            "CONV"@,
            "FILL"@,
            "INDEXING"@,
            "QUANTIZED"@,
            "REDUCE"@,
            "SORT"@,
            "TERNARY"@,
            "UNARY"@,
        ],
{
    lemma_catalog_order();
    reveal_strlit("affine");
    reveal_strlit("binary");
    reveal_strlit("cast");
    reveal_strlit("conv");
    reveal_strlit("fill");
    reveal_strlit("indexing");
    reveal_strlit("quantized");
    reveal_strlit("reduce");
    reveal_strlit("sort");
    reveal_strlit("ternary");
    reveal_strlit("unary");
    reveal_strlit("AFFINE");
    reveal_strlit("BINARY");
    reveal_strlit("CAST");
    reveal_strlit("CONV");
    reveal_strlit("FILL");
    reveal_strlit("INDEXING");
    reveal_strlit("QUANTIZED");
    reveal_strlit("REDUCE");
    reveal_strlit("SORT");
    reveal_strlit("TERNARY");
    reveal_strlit("UNARY");
    assert(upper("affine"@) == "AFFINE"@);
    assert(upper("binary"@) == "BINARY"@);
    assert(upper("cast"@) == "CAST"@);
    assert(upper("conv"@) == "CONV"@);
    assert(upper("fill"@) == "FILL"@);
    assert(upper("indexing"@) == "INDEXING"@);
    assert(upper("quantized"@) == "QUANTIZED"@);
    assert(upper("reduce"@) == "REDUCE"@);
    assert(upper("sort"@) == "SORT"@);
    assert(upper("ternary"@) == "TERNARY"@);
    assert(upper("unary"@) == "UNARY"@);
}

/// Payload of a compiled module.
#[derive(Debug, Clone, Copy)]
pub enum ModuleData {
    /// Intermediate representation, as text. It is independent of the
    /// architecture and compiled for the device when the module is loaded.
    Ptx(&'static str),
    /// Binary compiled for one architecture.
    Cubin(&'static [u8]),
}

impl ModuleData {
    /// The bytes of the payload: those of the binary, or the UTF-8 encoding
    /// of the text.
    pub open spec fn bytes(self) -> Seq<u8> {
        match self {
            ModuleData::Ptx(text) => text.spec_bytes(),
            ModuleData::Cubin(binary) => binary@,
        }
    }
}

/// The text accessor was used on a module that holds a binary.
#[derive(Debug, Clone, Copy, PartialEq, Eq, Structural)]
pub struct UsageError;

impl UsageError {
    /// What to tell the caller.
    pub open spec fn spec_message() -> Seq<char> {
        "Module contains CUBIN data, not PTX.\nUse Module::as_bytes() instead for compatibility with both formats."@
    }

    /// What to tell the caller.
    pub fn message(&self) -> (r: String)
        ensures
            r@ == Self::spec_message(),
    {
        String::from_str(
            "Module contains CUBIN data, not PTX.\nUse Module::as_bytes() instead for compatibility with both formats.",
        )
    }
}

/// What a `Module` holds.
pub struct ModuleView {
    pub index: int,
    pub data: ModuleData,
}

/// A compiled kernel module together with its index in the catalog.
pub struct Module {
    index: usize,
    data: ModuleData,
}

impl View for Module {
    type V = ModuleView;

    closed spec fn view(&self) -> ModuleView {
        ModuleView { index: self.index as int, data: self.data }
    }
}

impl Module {
    #[verifier::type_invariant]
    spec fn in_catalog(self) -> bool {
        self.index < ALL_IDS@.len()
    }

    /// The handle of module `id` with payload `data`. The index is that of
    /// `id`, whatever the shape of the payload.
    pub fn new(id: Id, data: ModuleData) -> (m: Module)
        ensures
            m@.index == id.position(),
            m@.data == data,
    {
        Module { index: module_index(id), data }
    }

    /// Index of the module in the catalog.
    pub fn index(&self) -> (r: usize)
        ensures
            r == self@.index,
            r < ALL_IDS@.len(),
    {
        proof {
            use_type_invariant(self);
        }
        self.index
    }

    /// The payload, in the shape it was built in.
    pub fn data(&self) -> (r: &ModuleData)
        ensures
            *r == self@.data,
    {
        &self.data
    }

    /// The bytes of the module, for either shape of payload: the binary as
    /// it is, or the text in its UTF-8 encoding.
    pub fn as_bytes(&self) -> (r: &'static [u8])
        ensures
            r@ == self@.data.bytes(),
            self@.data matches ModuleData::Cubin(binary) ==> r == binary,
    {
        match &self.data {
            ModuleData::Ptx(text) => text.as_bytes(),
            ModuleData::Cubin(binary) => binary,
        }
    }

    /// The text of a module that holds text. A module that holds a binary
    /// has none: see `checked_ptx`.
    pub fn ptx(&self) -> (r: &'static str)
        requires
            self@.data is Ptx,
        ensures
            self@.data == ModuleData::Ptx(r),
    {
        match &self.data {
            ModuleData::Ptx(text) => text,
            ModuleData::Cubin(_) => vstd::pervasive::unreached(),
        }
    }

    /// The text of the module, or the usage error if it holds a binary.
    pub fn checked_ptx(&self) -> (r: Result<&'static str, UsageError>)
        ensures
            match self@.data {
                ModuleData::Ptx(text) => r == Ok::<&'static str, UsageError>(text),
                ModuleData::Cubin(_) => r == Err::<&'static str, UsageError>(UsageError),
            },
    {
        match &self.data {
            ModuleData::Ptx(text) => Ok(text),
            ModuleData::Cubin(_) => Err(UsageError),
        }
    }
}

/// The handles of all modules, in catalog order: the handle at each index
/// has that index and the payload that `payloads` holds there.
pub fn handles(payloads: &[ModuleData; 11]) -> (modules: Vec<Module>)
    ensures
        modules@.len() == ALL_IDS@.len(),
        forall|i: int|
            0 <= i < modules@.len() ==> (#[trigger] modules@[i])@ == (ModuleView {
                index: i,
                data: payloads@[i],
            }),
{
    proof {
        lemma_catalog_order();
    }
    let mut modules: Vec<Module> = Vec::new();
    let mut i: usize = 0;
    while i < ALL_IDS.len()
        invariant
            i <= 11,
            ALL_IDS@.len() == 11,
            modules@.len() == i,
            forall|j: int| 0 <= j < 11 ==> (#[trigger] ALL_IDS@[j]).position() == j,
            forall|j: int|
                0 <= j < i ==> (#[trigger] modules@[j])@ == (ModuleView {
                    index: j,
                    data: payloads@[j],
                }),
        decreases 11 - i,
    {
        modules.push(Module::new(ALL_IDS[i], payloads[i]));
        i += 1;
    }
    modules
}

} // verus!
