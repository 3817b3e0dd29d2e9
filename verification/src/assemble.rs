//! The module assembler.
//!
//! An annotated module is expanded in three phases: its items are
//! partitioned into exactly one state definition, exactly one operation
//! set and passthrough items; the operation set must name the state type;
//! then the state definition's fields are expanded and the operation set's
//! signals get the same broadcast machinery as published fields.  Any
//! violation aborts generation with a diagnostic; there is no partial
//! output.

use vstd::prelude::*;

use crate::errors::Error;
use crate::errors::ErrorV;
use crate::expand::ExpandedStruct;
use crate::expand::ExpandedStructV;
use crate::expand::SIGNAL_CHANNEL_CAPACITY;
use crate::expand::StructDef;
use crate::expand::StructDefV;
use crate::expand::expand;
use crate::expand::spec_expand;
use crate::names::check_identifier;
use crate::names::channel_name;
use crate::names::is_identifier;
use crate::names::spec_channel_name;
use crate::names::spec_subscriber_name;
use crate::names::subscriber_name;

verus! {

/// One entry of the operation set: its name, and whether it is a signal
/// that needs the broadcast machinery.
#[derive(Debug)]
pub struct OpDef {
    pub name: String,
    pub is_signal: bool,
}

/// The mathematical shadow of [`OpDef`].
pub ghost struct OpDefV {
    pub name: Seq<char>,
    pub is_signal: bool,
}

impl View for OpDef {
    type V = OpDefV;

    open spec fn view(&self) -> OpDefV {
        OpDefV { name: self.name@, is_signal: self.is_signal }
    }
}

impl DeepView for OpDef {
    type V = OpDefV;

    open spec fn deep_view(&self) -> OpDefV {
        self.view()
    }
}

/// The operation-set definition: the type it is written for and its
/// entries.
#[derive(Debug)]
pub struct ImplDef {
    pub self_ty: String,
    pub ops: Vec<OpDef>,
}

/// The mathematical shadow of [`ImplDef`].
pub ghost struct ImplDefV {
    pub self_ty: Seq<char>,
    pub ops: Seq<OpDefV>,
}

impl View for ImplDef {
    type V = ImplDefV;

    open spec fn view(&self) -> ImplDefV {
        ImplDefV { self_ty: self.self_ty@, ops: self.ops.deep_view() }
    }
}

/// One item of the annotated module: a state definition, an operation
/// set, or any other item passed through unchanged.
#[derive(Debug)]
pub enum Item {
    Struct(StructDef),
    Impl(ImplDef),
    Other(String),
}

/// The mathematical shadow of [`Item`].
pub ghost enum ItemV {
    Struct(StructDefV),
    Impl(ImplDefV),
    Other(Seq<char>),
}

impl View for Item {
    type V = ItemV;

    open spec fn view(&self) -> ItemV {
        match self {
            Item::Struct(s) => ItemV::Struct(s@),
            Item::Impl(i) => ItemV::Impl(i@),
            Item::Other(t) => ItemV::Other(t@),
        }
    }
}

impl DeepView for Item {
    type V = ItemV;

    open spec fn deep_view(&self) -> ItemV {
        self.view()
    }
}

/// The annotated module: its name, and its items if it has a body.
#[derive(Debug)]
pub struct ModuleDef {
    pub name: String,
    pub content: Option<Vec<Item>>,
}

/// The mathematical shadow of [`ModuleDef`].
pub ghost struct ModuleDefV {
    pub name: Seq<char>,
    pub content: Option<Seq<ItemV>>,
}

impl View for ModuleDef {
    type V = ModuleDefV;

    open spec fn view(&self) -> ModuleDefV {
        ModuleDefV {
            name: self.name@,
            content: match self.content {
                Option::Some(ref items) => Option::Some(items.deep_view()),
                Option::None => Option::None,
            },
        }
    }
}

/// The broadcast bundle for one signal: an emit path and a subscriber
/// type, named like a published field's, with no backing storage.
#[derive(Debug)]
pub struct SignalArtifact {
    pub op_name: String,
    pub channel_name: String,
    pub subscriber_struct_name: String,
    pub capacity: usize,
}

/// The mathematical shadow of [`SignalArtifact`].
pub ghost struct SignalArtifactV {
    pub op_name: Seq<char>,
    pub channel_name: Seq<char>,
    pub subscriber_struct_name: Seq<char>,
    pub capacity: usize,
}

impl View for SignalArtifact {
    type V = SignalArtifactV;

    open spec fn view(&self) -> SignalArtifactV {
        SignalArtifactV {
            op_name: self.op_name@,
            channel_name: self.channel_name@,
            subscriber_struct_name: self.subscriber_struct_name@,
            capacity: self.capacity,
        }
    }
}

impl DeepView for SignalArtifact {
    type V = SignalArtifactV;

    open spec fn deep_view(&self) -> SignalArtifactV {
        self.view()
    }
}

/// Everything generation emits for one module: the expanded state
/// definition, the signal bundles, and the passthrough items, under the
/// module's own name.
#[derive(Debug)]
pub struct GeneratedModule {
    pub module_name: String,
    pub expanded: ExpandedStruct,
    pub signals: Vec<SignalArtifact>,
    pub passthrough: Vec<String>,
}

/// The mathematical shadow of [`GeneratedModule`].
pub ghost struct GeneratedModuleV {
    pub module_name: Seq<char>,
    pub expanded: ExpandedStructV,
    pub signals: Seq<SignalArtifactV>,
    pub passthrough: Seq<Seq<char>>,
}

impl View for GeneratedModule {
    type V = GeneratedModuleV;

    open spec fn view(&self) -> GeneratedModuleV {
        GeneratedModuleV {
            module_name: self.module_name@,
            expanded: self.expanded@,
            signals: self.signals.deep_view(),
            passthrough: self.passthrough.deep_view(),
        }
    }
}

/// The items of a module split into at most one state definition, at most
/// one operation set, and the passthrough rest.
pub ghost struct PartitionV {
    pub struct_item: Option<StructDefV>,
    pub impl_item: Option<ImplDefV>,
    pub others: Seq<Seq<char>>,
}

/// A partition holding nothing yet.
pub open spec fn spec_empty_partition() -> PartitionV {
    PartitionV { struct_item: None, impl_item: None, others: Seq::empty() }
}

/// How one item refines the partition: a second state definition or a
/// second operation set is rejected at once.
pub open spec fn spec_partition_step(p: PartitionV, it: ItemV) -> Result<PartitionV, ErrorV> {
    match it {
        ItemV::Struct(s) => {
            if p.struct_item is Some {
                Err(ErrorV::MultipleStructDefs)
            } else {
                Ok(PartitionV { struct_item: Some(s), impl_item: p.impl_item, others: p.others })
            }
        },
        ItemV::Impl(im) => {
            if p.impl_item is Some {
                Err(ErrorV::MultipleOpSets)
            } else {
                Ok(PartitionV { struct_item: p.struct_item, impl_item: Some(im), others: p.others })
            }
        },
        ItemV::Other(t) => {
            Ok(
                PartitionV {
                    struct_item: p.struct_item,
                    impl_item: p.impl_item,
                    others: p.others + seq![t],
                },
            )
        },
    }
}

/// The items partitioned front to back, stopping at the first duplicate
/// definition.
pub open spec fn spec_partition(items: Seq<ItemV>) -> Result<PartitionV, ErrorV>
    decreases items.len(),
{
    if items.len() == 0 {
        Ok(spec_empty_partition())
    } else {
        match spec_partition(items.drop_last()) {
            Err(e) => Err(e),
            Ok(p) => spec_partition_step(p, items.last()),
        }
    }
}

/// The broadcast bundle derived for one signal, under the same naming
/// scheme as a published field's, with the signal channel depth.
pub open spec fn spec_signal_code(struct_name: Seq<char>, op_name: Seq<char>) -> SignalArtifactV {
    SignalArtifactV {
        op_name: op_name,
        channel_name: spec_channel_name(struct_name, op_name),
        subscriber_struct_name: spec_subscriber_name(struct_name, op_name),
        capacity: SIGNAL_CHANNEL_CAPACITY,
    }
}

/// The signal bundles of the operation set, front to back: entries not
/// marked as signals contribute nothing; a signal whose name is not a
/// valid identifier is rejected.
pub open spec fn spec_signals(struct_name: Seq<char>, ops: Seq<OpDefV>) -> Result<
    Seq<SignalArtifactV>,
    ErrorV,
>
    decreases ops.len(),
{
    if ops.len() == 0 {
        Ok(Seq::empty())
    } else {
        match spec_signals(struct_name, ops.drop_last()) {
            Err(e) => Err(e),
            Ok(acc) => {
                let op = ops.last();
                if !op.is_signal {
                    Ok(acc)
                } else if !is_identifier(op.name) {
                    Err(ErrorV::InvalidIdent { found: op.name })
                } else {
                    Ok(acc + seq![spec_signal_code(struct_name, op.name)])
                }
            },
        }
    }
}

/// What expanding a whole annotated module yields: the module must have a
/// body and a valid name; its items must partition into exactly one state
/// definition and exactly one operation set, which must name the state
/// type; the fields and the signals must expand.
pub open spec fn spec_expand_module(m: ModuleDefV) -> Result<GeneratedModuleV, ErrorV> {
    if !is_identifier(m.name) {
        Err(ErrorV::InvalidIdent { found: m.name })
    } else {
        match m.content {
            None => Err(ErrorV::NoModuleBody),
            Some(items) => match spec_partition(items) {
                Err(e) => Err(e),
                Ok(p) => {
                    if p.struct_item is None {
                        Err(ErrorV::MissingStructDef)
                    } else if p.impl_item is None {
                        Err(ErrorV::MissingOpSet)
                    } else {
                        let sd = p.struct_item->Some_0;
                        let im = p.impl_item->Some_0;
                        if im.self_ty != sd.name {
                            Err(
                                ErrorV::NameMismatch {
                                    op_set_name: im.self_ty,
                                    struct_name: sd.name,
                                },
                            )
                        } else {
                            match spec_expand(sd) {
                                Err(e) => Err(e),
                                Ok(ex) => match spec_signals(sd.name, im.ops) {
                                    Err(e) => Err(e),
                                    Ok(sigs) => Ok(
                                        GeneratedModuleV {
                                            module_name: m.name,
                                            expanded: ex,
                                            signals: sigs,
                                            passthrough: p.others,
                                        },
                                    ),
                                },
                            }
                        }
                    }
                },
            },
        }
    }
}

/// The view of an exec module-expansion result.
pub open spec fn module_result_view(r: Result<GeneratedModule, Error>) -> Result<
    GeneratedModuleV,
    ErrorV,
> {
    match r {
        Ok(g) => Ok(g@),
        Err(e) => Err(e@),
    }
}

/// An error in a prefix of the items decides the whole partition.
proof fn lemma_partition_err_prefix(items: Seq<ItemV>, i: int)
    requires
        0 <= i <= items.len(),
        spec_partition(items.take(i)) is Err,
    ensures
        spec_partition(items) == spec_partition(items.take(i)),
    decreases items.len() - i,
{
    if i == items.len() {
        assert(items.take(i) =~= items);
    } else {
        assert(items.take(i + 1).drop_last() =~= items.take(i));
        lemma_partition_err_prefix(items, i + 1);
    }
}

/// An error in a prefix of the operations decides all the signals.
proof fn lemma_signals_err_prefix(struct_name: Seq<char>, ops: Seq<OpDefV>, i: int)
    requires
        0 <= i <= ops.len(),
        spec_signals(struct_name, ops.take(i)) is Err,
    ensures
        spec_signals(struct_name, ops) == spec_signals(struct_name, ops.take(i)),
    decreases ops.len() - i,
{
    if i == ops.len() {
        assert(ops.take(i) =~= ops);
    } else {
        assert(ops.take(i + 1).drop_last() =~= ops.take(i));
        lemma_signals_err_prefix(struct_name, ops, i + 1);
    }
}

/// Derives the signal bundles of the operation set, as [`spec_signals`]
/// describes.
fn generate_signals(struct_name: &str, ops: &Vec<OpDef>) -> (r: Result<Vec<SignalArtifact>, Error>)
    ensures
        match r {
            Ok(sigs) => spec_signals(struct_name@, ops.deep_view()) == Ok::<
                Seq<SignalArtifactV>,
                ErrorV,
            >(sigs.deep_view()),
            Err(e) => spec_signals(struct_name@, ops.deep_view()) == Err::<
                Seq<SignalArtifactV>,
                ErrorV,
            >(e@),
        },
{
    let mut sigs: Vec<SignalArtifact> = Vec::new();
    let n = ops.len();
    proof {
        assert(ops.deep_view().take(0) =~= Seq::<OpDefV>::empty());
        assert(sigs.deep_view() =~= Seq::<SignalArtifactV>::empty());
    }
    let mut i: usize = 0;
    while i < n
        invariant
            n == ops.len(),
            i <= n,
            spec_signals(struct_name@, ops.deep_view().take(i as int)) == Ok::<
                Seq<SignalArtifactV>,
                ErrorV,
            >(sigs.deep_view()),
        decreases n - i,
    {
        let op = &ops[i];
        let ghost pre = sigs.deep_view();
        proof {
            assert(ops.deep_view().take(i + 1).drop_last() =~= ops.deep_view().take(i as int));
            assert(ops.deep_view().take(i + 1).last() == op.deep_view());
        }
        if op.is_signal {
            if !check_identifier(op.name.as_str()) {
                proof {
                    lemma_signals_err_prefix(struct_name@, ops.deep_view(), i + 1);
                }
                return Err(Error::InvalidIdent { found: op.name.clone() });
            }
            sigs.push(
                SignalArtifact {
                    op_name: op.name.clone(),
                    channel_name: channel_name(struct_name, op.name.as_str()),
                    subscriber_struct_name: subscriber_name(struct_name, op.name.as_str()),
                    capacity: SIGNAL_CHANNEL_CAPACITY,
                },
            );
            proof {
                assert(sigs.deep_view() =~= pre + seq![
                    spec_signal_code(struct_name@, op@.name),
                ]);
            }
        }
        i += 1;
    }
    proof {
        assert(ops.deep_view().take(n as int) =~= ops.deep_view());
    }
    Ok(sigs)
}

/// Expands one annotated module, as [`spec_expand_module`] describes: the
/// result merges the expanded state definition, the signal machinery and
/// the passthrough items, or it is the first diagnostic.
pub fn expand_module(input: &ModuleDef) -> (r: Result<GeneratedModule, Error>)
    ensures
        module_result_view(r) == spec_expand_module(input@),
{
    if !check_identifier(input.name.as_str()) {
        return Err(Error::InvalidIdent { found: input.name.clone() });
    }
    let items = match &input.content {
        None => {
            return Err(Error::NoModuleBody);
        },
        Some(items) => items,
    };
    let mut struct_item: Option<&StructDef> = None;
    let mut impl_item: Option<&ImplDef> = None;
    let mut passthrough: Vec<String> = Vec::new();
    let n = items.len();
    proof {
        assert(items.deep_view().take(0) =~= Seq::<ItemV>::empty());
        assert(passthrough.deep_view() =~= Seq::<Seq<char>>::empty());
    }
    let mut i: usize = 0;
    while i < n
        invariant
            n == items.len(),
            i <= n,
            is_identifier(input@.name),
            input@.content == Some(items.deep_view()),
            spec_partition(items.deep_view().take(i as int)) == Ok::<PartitionV, ErrorV>(
                PartitionV {
                    struct_item: match struct_item {
                        Some(s) => Some(s@),
                        None => None,
                    },
                    impl_item: match impl_item {
                        Some(im) => Some(im@),
                        None => None,
                    },
                    others: passthrough.deep_view(),
                },
            ),
        decreases n - i,
    {
        let ghost pre = PartitionV {
            struct_item: match struct_item {
                Some(s) => Some(s@),
                None => None,
            },
            impl_item: match impl_item {
                Some(im) => Some(im@),
                None => None,
            },
            others: passthrough.deep_view(),
        };
        proof {
            assert(items.deep_view().take(i + 1).drop_last() =~= items.deep_view().take(i as int));
            assert(items.deep_view().take(i + 1).last() == items[i as int].deep_view());
        }
        match &items[i] {
            Item::Struct(s) => {
                if struct_item.is_some() {
                    proof {
                        lemma_partition_err_prefix(items.deep_view(), i + 1);
                    }
                    return Err(Error::MultipleStructDefs);
                }
                struct_item = Some(s);
            },
            Item::Impl(im) => {
                if impl_item.is_some() {
                    proof {
                        lemma_partition_err_prefix(items.deep_view(), i + 1);
                    }
                    return Err(Error::MultipleOpSets);
                }
                impl_item = Some(im);
            },
            Item::Other(t) => {
                passthrough.push(t.clone());
                proof {
                    assert(passthrough.deep_view() =~= pre.others + seq![t@]);
                }
            },
        }
        i += 1;
    }
    proof {
        assert(items.deep_view().take(n as int) =~= items.deep_view());
    }
    let sd = match struct_item {
        None => {
            return Err(Error::MissingStructDef);
        },
        Some(s) => s,
    };
    let im = match impl_item {
        None => {
            return Err(Error::MissingOpSet);
        },
        Some(found) => found,
    };
    if !im.self_ty.eq(&sd.name) {
        return Err(
            Error::NameMismatch {
                op_set_name: im.self_ty.clone(),
                struct_name: sd.name.clone(),
            },
        );
    }
    let expanded = match expand(sd) {
        Err(e) => {
            return Err(e);
        },
        Ok(ex) => ex,
    };
    let signals = match generate_signals(sd.name.as_str(), &im.ops) {
        Err(e) => {
            return Err(e);
        },
        Ok(sigs) => sigs,
    };
    Ok(
        GeneratedModule {
            module_name: input.name.clone(),
            expanded,
            signals,
            passthrough,
        },
    )
}

/// The generator's entry point: expands one annotated module into the
/// generated state type, channel infrastructure and signal machinery, or
/// fails with the first diagnostic.
pub fn controller(input: &ModuleDef) -> (r: Result<GeneratedModule, Error>)
    ensures
        module_result_view(r) == spec_expand_module(input@),
{
    expand_module(input)
}

} // verus!
