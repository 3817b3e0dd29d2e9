//! The field-expansion engine.
//!
//! For each field of the state definition this engine parses the field's
//! markers and, for a published field, derives the bundle of mutually
//! consistent artifacts that must exist for it: the statically scoped
//! channel, the owner-side sender, the mutate-and-publish accessor and the
//! subscriber type, all named by the scheme of [`crate::names`].  Getter
//! and setter accessors are derived independently of publishing; a setter
//! on a published field routes through the publish-capable mutator, never
//! past it.

use vstd::prelude::*;

use crate::errors::Error;
use crate::errors::ErrorV;
use crate::markers::AttrsV;
use crate::markers::Marker;
use crate::markers::MarkerV;
use crate::markers::parse_controller_attrs;
use crate::markers::spec_parse_attrs;
use crate::names::check_identifier;
use crate::names::channel_name;
use crate::names::is_identifier;
use crate::names::publish_setter_name;
use crate::names::sender_name;
use crate::names::spec_channel_name;
use crate::names::spec_publish_setter_name;
use crate::names::spec_sender_name;
use crate::names::spec_subscriber_name;
use crate::names::subscriber_name;

verus! {

/// Depth of a broadcast-history channel: a slow reader may miss events
/// beyond this many, the writer never waits.
pub const ALL_CHANNEL_CAPACITY: usize = 8;

/// Depth of the channel carrying an explicit signal's payloads.
pub const SIGNAL_CHANNEL_CAPACITY: usize = 8;

/// A published channel has exactly one writer: the owning state instance.
pub const BROADCAST_MAX_PUBLISHERS: usize = 1;

/// The fixed reader fan-out limit of a published field's channel.
pub const BROADCAST_MAX_SUBSCRIBERS: usize = 16;

/// Which channel primitive backs a published field.
#[derive(Debug, Clone, Copy, PartialEq, Eq, Structural)]
pub enum Strategy {
    /// Only the newest value is retained; a fresh subscriber's first poll
    /// delivers the present value if one exists.
    LatestValue,
    /// A bounded ring of discrete change events; lagging readers miss the
    /// oldest events, the writer never blocks.
    BroadcastHistory,
}

/// The shape of the change payload a subscriber observes.
#[derive(Debug, Clone, Copy, PartialEq, Eq, Structural)]
pub enum PayloadShape {
    /// The bare new value.
    BareValue,
    /// The previous and the new value as a pair.
    BeforeAfterPair,
}

/// The payload shape each strategy delivers: the latest-value channel
/// hands out the bare new value, the broadcast-history channel a
/// before/after pair.
pub open spec fn spec_strategy_payload(s: Strategy) -> PayloadShape {
    match s {
        Strategy::LatestValue => PayloadShape::BareValue,
        Strategy::BroadcastHistory => PayloadShape::BeforeAfterPair,
    }
}

/// Picks the channel primitive for one published field.  The choice is
/// fixed: every published field uses the latest-value channel, the
/// canonical strategy.
pub fn select_strategy() -> (r: Strategy)
    ensures
        r == Strategy::LatestValue,
{
    Strategy::LatestValue
}

/// Computes [`spec_strategy_payload`].
pub fn payload_shape(s: Strategy) -> (r: PayloadShape)
    ensures
        r == spec_strategy_payload(s),
{
    match s {
        Strategy::LatestValue => PayloadShape::BareValue,
        Strategy::BroadcastHistory => PayloadShape::BeforeAfterPair,
    }
}

/// One declared field of the state definition: its name, its type as
/// written, and its markers.
#[derive(Debug)]
pub struct FieldDef {
    pub name: String,
    pub ty: String,
    pub markers: Vec<Marker>,
}

/// The mathematical shadow of [`FieldDef`].
pub ghost struct FieldDefV {
    pub name: Seq<char>,
    pub ty: Seq<char>,
    pub markers: Seq<MarkerV>,
}

impl View for FieldDef {
    type V = FieldDefV;

    open spec fn view(&self) -> FieldDefV {
        FieldDefV { name: self.name@, ty: self.ty@, markers: self.markers.deep_view() }
    }
}

impl DeepView for FieldDef {
    type V = FieldDefV;

    open spec fn deep_view(&self) -> FieldDefV {
        self.view()
    }
}

/// The state definition: the owning type's name and its declared fields.
/// `named` records whether the fields were written as named fields; a
/// tuple or unit state definition is rejected.
#[derive(Debug)]
pub struct StructDef {
    pub name: String,
    pub named: bool,
    pub fields: Vec<FieldDef>,
}

/// The mathematical shadow of [`StructDef`].
pub ghost struct StructDefV {
    pub name: Seq<char>,
    pub named: bool,
    pub fields: Seq<FieldDefV>,
}

impl View for StructDef {
    type V = StructDefV;

    open spec fn view(&self) -> StructDefV {
        StructDefV { name: self.name@, named: self.named, fields: self.fields.deep_view() }
    }
}

/// A field as it is re-emitted into the owning type, markers stripped.
#[derive(Debug)]
pub struct RawField {
    pub name: String,
    pub ty: String,
}

/// The mathematical shadow of [`RawField`].
pub ghost struct RawFieldV {
    pub name: Seq<char>,
    pub ty: Seq<char>,
}

impl View for RawField {
    type V = RawFieldV;

    open spec fn view(&self) -> RawFieldV {
        RawFieldV { name: self.name@, ty: self.ty@ }
    }
}

impl DeepView for RawField {
    type V = RawFieldV;

    open spec fn deep_view(&self) -> RawFieldV {
        self.view()
    }
}

/// The generated bundle for one published field: every artifact that must
/// exist for its changes to be observable, under the deterministic names
/// of [`crate::names`].
#[derive(Debug)]
pub struct PublishedArtifact {
    /// The field whose changes are broadcast.
    pub field_name: String,
    /// The statically scoped channel identifier.
    pub channel_name: String,
    /// The owner-side sender field embedded in the owning type.
    pub sender_name: String,
    /// The mutate-and-publish accessor.
    pub setter_name: String,
    /// The generated subscriber type.
    pub subscriber_struct_name: String,
    /// The channel primitive backing the field.
    pub strategy: Strategy,
    /// The payload a subscriber observes per change.
    pub payload: PayloadShape,
    /// The channel's reader fan-out limit.
    pub max_subscribers: usize,
}

/// The mathematical shadow of [`PublishedArtifact`].
pub ghost struct PublishedArtifactV {
    pub field_name: Seq<char>,
    pub channel_name: Seq<char>,
    pub sender_name: Seq<char>,
    pub setter_name: Seq<char>,
    pub subscriber_struct_name: Seq<char>,
    pub strategy: Strategy,
    pub payload: PayloadShape,
    pub max_subscribers: usize,
}

impl View for PublishedArtifact {
    type V = PublishedArtifactV;

    open spec fn view(&self) -> PublishedArtifactV {
        PublishedArtifactV {
            field_name: self.field_name@,
            channel_name: self.channel_name@,
            sender_name: self.sender_name@,
            setter_name: self.setter_name@,
            subscriber_struct_name: self.subscriber_struct_name@,
            strategy: self.strategy,
            payload: self.payload,
            max_subscribers: self.max_subscribers,
        }
    }
}

impl DeepView for PublishedArtifact {
    type V = PublishedArtifactV;

    open spec fn deep_view(&self) -> PublishedArtifactV {
        self.view()
    }
}

/// A field with a getter: the accessor returns a copy of the field under
/// the owner's exclusive access.
#[derive(Debug)]
pub struct GetterFieldInfo {
    pub field_name: String,
    pub field_ty: String,
    pub getter_name: String,
}

/// The mathematical shadow of [`GetterFieldInfo`].
pub ghost struct GetterFieldInfoV {
    pub field_name: Seq<char>,
    pub field_ty: Seq<char>,
    pub getter_name: Seq<char>,
}

impl View for GetterFieldInfo {
    type V = GetterFieldInfoV;

    open spec fn view(&self) -> GetterFieldInfoV {
        GetterFieldInfoV {
            field_name: self.field_name@,
            field_ty: self.field_ty@,
            getter_name: self.getter_name@,
        }
    }
}

impl DeepView for GetterFieldInfo {
    type V = GetterFieldInfoV;

    open spec fn deep_view(&self) -> GetterFieldInfoV {
        self.view()
    }
}

/// A field with a public setter.  For a published field the public setter
/// routes through the mutate-and-publish accessor named by
/// `internal_setter_name`, so no write path bypasses publication.
#[derive(Debug)]
pub struct SetterFieldInfo {
    pub field_name: String,
    pub field_ty: String,
    /// The public setter method name.
    pub setter_name: String,
    /// For a published field, the mutate-and-publish accessor the setter
    /// must call; `None` for an unpublished field, which is set directly.
    pub internal_setter_name: Option<String>,
}

/// The mathematical shadow of [`SetterFieldInfo`].
pub ghost struct SetterFieldInfoV {
    pub field_name: Seq<char>,
    pub field_ty: Seq<char>,
    pub setter_name: Seq<char>,
    pub internal_setter_name: Option<Seq<char>>,
}

impl View for SetterFieldInfo {
    type V = SetterFieldInfoV;

    open spec fn view(&self) -> SetterFieldInfoV {
        SetterFieldInfoV {
            field_name: self.field_name@,
            field_ty: self.field_ty@,
            setter_name: self.setter_name@,
            internal_setter_name: match self.internal_setter_name {
                Option::Some(s) => Option::Some(s@),
                Option::None => Option::None,
            },
        }
    }
}

impl DeepView for SetterFieldInfo {
    type V = SetterFieldInfoV;

    open spec fn deep_view(&self) -> SetterFieldInfoV {
        self.view()
    }
}

/// Everything the expansion of one state definition produces: the fields
/// re-emitted bare, and the published, getter and setter bundles.
#[derive(Debug)]
pub struct ExpandedStruct {
    pub struct_name: String,
    pub raw_fields: Vec<RawField>,
    pub published_fields: Vec<PublishedArtifact>,
    pub getter_fields: Vec<GetterFieldInfo>,
    pub setter_fields: Vec<SetterFieldInfo>,
}

/// The mathematical shadow of [`ExpandedStruct`].
pub ghost struct ExpandedStructV {
    pub struct_name: Seq<char>,
    pub raw_fields: Seq<RawFieldV>,
    pub published_fields: Seq<PublishedArtifactV>,
    pub getter_fields: Seq<GetterFieldInfoV>,
    pub setter_fields: Seq<SetterFieldInfoV>,
}

impl View for ExpandedStruct {
    type V = ExpandedStructV;

    open spec fn view(&self) -> ExpandedStructV {
        ExpandedStructV {
            struct_name: self.struct_name@,
            raw_fields: self.raw_fields.deep_view(),
            published_fields: self.published_fields.deep_view(),
            getter_fields: self.getter_fields.deep_view(),
            setter_fields: self.setter_fields.deep_view(),
        }
    }
}

/// What the operation generator needs to know of one published field, so
/// that generated client-side methods can subscribe to the same channel:
/// the field's name and the name of its subscriber type.
#[derive(Debug)]
pub struct PublishedFieldInfo {
    pub field_name: String,
    pub subscriber_struct_name: String,
}

/// The mathematical shadow of [`PublishedFieldInfo`].
pub ghost struct PublishedFieldInfoV {
    pub field_name: Seq<char>,
    pub subscriber_struct_name: Seq<char>,
}

impl View for PublishedFieldInfo {
    type V = PublishedFieldInfoV;

    open spec fn view(&self) -> PublishedFieldInfoV {
        PublishedFieldInfoV {
            field_name: self.field_name@,
            subscriber_struct_name: self.subscriber_struct_name@,
        }
    }
}

impl DeepView for PublishedFieldInfo {
    type V = PublishedFieldInfoV;

    open spec fn deep_view(&self) -> PublishedFieldInfoV {
        self.view()
    }
}

/// The descriptor handed to the operation generator for each published
/// field, in field order.
pub open spec fn spec_published_descriptors(arts: Seq<PublishedArtifactV>) -> Seq<
    PublishedFieldInfoV,
> {
    arts.map_values(
        |a: PublishedArtifactV|
            PublishedFieldInfoV {
                field_name: a.field_name,
                subscriber_struct_name: a.subscriber_struct_name,
            },
    )
}

impl ExpandedStruct {
    /// The collaborator contract consumed by the operation generator: one
    /// descriptor per published field, in field order, as
    /// [`spec_published_descriptors`] describes.
    pub fn published_descriptors(&self) -> (r: Vec<PublishedFieldInfo>)
        ensures
            r.deep_view() == spec_published_descriptors(self@.published_fields),
    {
        let mut descs: Vec<PublishedFieldInfo> = Vec::new();
        let n = self.published_fields.len();
        proof {
            assert(descs.deep_view() =~= spec_published_descriptors(
                self@.published_fields.take(0),
            ));
        }
        let mut i: usize = 0;
        while i < n
            invariant
                n == self.published_fields.len(),
                i <= n,
                descs.deep_view() == spec_published_descriptors(
                    self@.published_fields.take(i as int),
                ),
            decreases n - i,
        {
            let art = &self.published_fields[i];
            descs.push(
                PublishedFieldInfo {
                    field_name: art.field_name.clone(),
                    subscriber_struct_name: art.subscriber_struct_name.clone(),
                },
            );
            proof {
                assert(self@.published_fields.take(i + 1).drop_last() =~= self@.published_fields
                    .take(i as int));
                assert(self@.published_fields.take(i + 1).last() == art.deep_view());
                assert(spec_published_descriptors(self@.published_fields.take(i + 1))
                    =~= spec_published_descriptors(self@.published_fields.take(i as int)).push(
                    PublishedFieldInfoV {
                        field_name: art@.field_name,
                        subscriber_struct_name: art@.subscriber_struct_name,
                    },
                ));
                assert(descs.deep_view() =~= spec_published_descriptors(
                    self@.published_fields.take(i + 1),
                ));
            }
            i += 1;
        }
        proof {
            assert(self@.published_fields.take(n as int) =~= self@.published_fields);
        }
        descs
    }
}

/// The bundle derived for one published field: all artifact names come
/// from the deterministic naming scheme, the strategy is the canonical
/// latest-value one, and the payload is the bare new value.
pub open spec fn spec_publish_code(struct_name: Seq<char>, field_name: Seq<char>)
    -> PublishedArtifactV {
    PublishedArtifactV {
        field_name: field_name,
        channel_name: spec_channel_name(struct_name, field_name),
        sender_name: spec_sender_name(field_name),
        setter_name: spec_publish_setter_name(field_name),
        subscriber_struct_name: spec_subscriber_name(struct_name, field_name),
        strategy: Strategy::LatestValue,
        payload: PayloadShape::BareValue,
        max_subscribers: BROADCAST_MAX_SUBSCRIBERS,
    }
}

/// Derives the published-field bundle, following [`spec_publish_code`].
pub fn generate_publish_code(struct_name: &str, field_name: &str) -> (r: PublishedArtifact)
    ensures
        r@ == spec_publish_code(struct_name@, field_name@),
{
    let strategy = select_strategy();
    let payload = payload_shape(strategy);
    PublishedArtifact {
        field_name: String::from_str(field_name),
        channel_name: channel_name(struct_name, field_name),
        sender_name: sender_name(field_name),
        setter_name: publish_setter_name(field_name),
        subscriber_struct_name: subscriber_name(struct_name, field_name),
        strategy,
        payload,
        max_subscribers: BROADCAST_MAX_SUBSCRIBERS,
    }
}

/// What parsing one field yields: its name must be a valid identifier,
/// and its markers must parse.
pub open spec fn spec_parse_field(f: FieldDefV) -> Result<AttrsV, ErrorV> {
    if !is_identifier(f.name) {
        Err(ErrorV::InvalidIdent { found: f.name })
    } else {
        spec_parse_attrs(f.markers, f.name)
    }
}

/// The getter bundle of one field whose markers asked for `getter_name`.
pub open spec fn spec_getter_info(f: FieldDefV, getter_name: Seq<char>) -> GetterFieldInfoV {
    GetterFieldInfoV { field_name: f.name, field_ty: f.ty, getter_name: getter_name }
}

/// The setter bundle of one field: the public name is the declared one or
/// `set_{field}`; a published field routes through the mutate-and-publish
/// accessor.
pub open spec fn spec_setter_info(f: FieldDefV, a: AttrsV) -> SetterFieldInfoV {
    SetterFieldInfoV {
        field_name: f.name,
        field_ty: f.ty,
        setter_name: match a.setter_name {
            Some(s) => s,
            None => spec_publish_setter_name(f.name),
        },
        internal_setter_name: if a.publish {
            Some(spec_publish_setter_name(f.name))
        } else {
            None
        },
    }
}

/// Whether a field gets a public setter: it declared `setter`, or asked
/// for a public mutator through `publish(pub_setter)`.
pub open spec fn spec_has_setter(a: AttrsV) -> bool {
    a.setter_name is Some || a.pub_setter
}

/// One field's contribution appended to an already-expanded prefix.
pub open spec fn spec_extend_expansion(acc: ExpandedStructV, f: FieldDefV, a: AttrsV)
    -> ExpandedStructV {
    ExpandedStructV {
        struct_name: acc.struct_name,
        raw_fields: acc.raw_fields + seq![RawFieldV { name: f.name, ty: f.ty }],
        published_fields: if a.publish {
            acc.published_fields + seq![spec_publish_code(acc.struct_name, f.name)]
        } else {
            acc.published_fields
        },
        getter_fields: match a.getter_name {
            Some(g) => acc.getter_fields + seq![spec_getter_info(f, g)],
            None => acc.getter_fields,
        },
        setter_fields: if spec_has_setter(a) {
            acc.setter_fields + seq![spec_setter_info(f, a)]
        } else {
            acc.setter_fields
        },
    }
}

/// An expansion holding nothing yet.
pub open spec fn spec_empty_expansion(struct_name: Seq<char>) -> ExpandedStructV {
    ExpandedStructV {
        struct_name: struct_name,
        raw_fields: Seq::empty(),
        published_fields: Seq::empty(),
        getter_fields: Seq::empty(),
        setter_fields: Seq::empty(),
    }
}

/// The fields expanded front to back, stopping at the first field that
/// fails to parse.
pub open spec fn spec_expand_fields(struct_name: Seq<char>, fields: Seq<FieldDefV>) -> Result<
    ExpandedStructV,
    ErrorV,
>
    decreases fields.len(),
{
    if fields.len() == 0 {
        Ok(spec_empty_expansion(struct_name))
    } else {
        match spec_expand_fields(struct_name, fields.drop_last()) {
            Err(e) => Err(e),
            Ok(acc) => match spec_parse_field(fields.last()) {
                Err(e) => Err(e),
                Ok(a) => Ok(spec_extend_expansion(acc, fields.last(), a)),
            },
        }
    }
}

/// What expanding a whole state definition yields: named fields only, a
/// valid type name, and every field parsed.
pub open spec fn spec_expand(sd: StructDefV) -> Result<ExpandedStructV, ErrorV> {
    if !sd.named {
        Err(ErrorV::UnnamedFields)
    } else if !is_identifier(sd.name) {
        Err(ErrorV::InvalidIdent { found: sd.name })
    } else {
        spec_expand_fields(sd.name, sd.fields)
    }
}

/// The view of an exec expansion result.
pub open spec fn expand_result_view(r: Result<ExpandedStruct, Error>) -> Result<
    ExpandedStructV,
    ErrorV,
> {
    match r {
        Ok(x) => Ok(x@),
        Err(e) => Err(e@),
    }
}

/// An error in a prefix of the fields decides the whole expansion.
proof fn lemma_expand_fields_err_prefix(struct_name: Seq<char>, fields: Seq<FieldDefV>, i: int)
    requires
        0 <= i <= fields.len(),
        spec_expand_fields(struct_name, fields.take(i)) is Err,
    ensures
        spec_expand_fields(struct_name, fields) == spec_expand_fields(struct_name, fields.take(i)),
    decreases fields.len() - i,
{
    if i == fields.len() {
        assert(fields.take(i) =~= fields);
    } else {
        assert(fields.take(i + 1).drop_last() =~= fields.take(i));
        assert(spec_expand_fields(struct_name, fields.take(i + 1)) == spec_expand_fields(
            struct_name,
            fields.take(i),
        ));
        lemma_expand_fields_err_prefix(struct_name, fields, i + 1);
    }
}

/// Expands one state definition, as [`spec_expand`] describes: the result
/// holds the fields re-emitted bare and the published, getter and setter
/// bundles, or the first error with the offending name.
pub fn expand(sd: &StructDef) -> (r: Result<ExpandedStruct, Error>)
    ensures
        expand_result_view(r) == spec_expand(sd@),
{
    if !sd.named {
        return Err(Error::UnnamedFields);
    }
    if !check_identifier(sd.name.as_str()) {
        return Err(Error::InvalidIdent { found: sd.name.clone() });
    }
    let mut raw_fields: Vec<RawField> = Vec::new();
    let mut published_fields: Vec<PublishedArtifact> = Vec::new();
    let mut getter_fields: Vec<GetterFieldInfo> = Vec::new();
    let mut setter_fields: Vec<SetterFieldInfo> = Vec::new();
    let n = sd.fields.len();
    proof {
        assert(sd@.fields.take(0) =~= Seq::<FieldDefV>::empty());
        assert(raw_fields.deep_view() =~= Seq::<RawFieldV>::empty());
        assert(published_fields.deep_view() =~= Seq::<PublishedArtifactV>::empty());
        assert(getter_fields.deep_view() =~= Seq::<GetterFieldInfoV>::empty());
        assert(setter_fields.deep_view() =~= Seq::<SetterFieldInfoV>::empty());
    }
    let mut i: usize = 0;
    while i < n
        invariant
            n == sd.fields.len(),
            i <= n,
            sd@.named,
            is_identifier(sd@.name),
            spec_expand_fields(sd@.name, sd@.fields.take(i as int)) == Ok::<
                ExpandedStructV,
                ErrorV,
            >(
                ExpandedStructV {
                    struct_name: sd@.name,
                    raw_fields: raw_fields.deep_view(),
                    published_fields: published_fields.deep_view(),
                    getter_fields: getter_fields.deep_view(),
                    setter_fields: setter_fields.deep_view(),
                },
            ),
        decreases n - i,
    {
        let f = &sd.fields[i];
        let ghost pre = ExpandedStructV {
            struct_name: sd@.name,
            raw_fields: raw_fields.deep_view(),
            published_fields: published_fields.deep_view(),
            getter_fields: getter_fields.deep_view(),
            setter_fields: setter_fields.deep_view(),
        };
        proof {
            assert(sd@.fields.take(i + 1).drop_last() =~= sd@.fields.take(i as int));
            assert(sd@.fields.take(i + 1).last() == f.deep_view());
        }
        if !check_identifier(f.name.as_str()) {
            proof {
                lemma_expand_fields_err_prefix(sd@.name, sd@.fields, i + 1);
            }
            return Err(Error::InvalidIdent { found: f.name.clone() });
        }
        match parse_controller_attrs(f.name.as_str(), &f.markers) {
            Err(e) => {
                proof {
                    lemma_expand_fields_err_prefix(sd@.name, sd@.fields, i + 1);
                }
                return Err(e);
            },
            Ok(attrs) => {
                raw_fields.push(RawField { name: f.name.clone(), ty: f.ty.clone() });
                if attrs.publish {
                    published_fields.push(
                        generate_publish_code(sd.name.as_str(), f.name.as_str()),
                    );
                }
                match &attrs.getter_name {
                    Some(g) => {
                        getter_fields.push(
                            GetterFieldInfo {
                                field_name: f.name.clone(),
                                field_ty: f.ty.clone(),
                                getter_name: g.clone(),
                            },
                        );
                    },
                    None => {},
                }
                let has_setter = attrs.setter_name.is_some() || attrs.pub_setter;
                if has_setter {
                    let public_name = match &attrs.setter_name {
                        Some(s) => s.clone(),
                        None => publish_setter_name(f.name.as_str()),
                    };
                    let internal = if attrs.publish {
                        Some(publish_setter_name(f.name.as_str()))
                    } else {
                        None
                    };
                    setter_fields.push(
                        SetterFieldInfo {
                            field_name: f.name.clone(),
                            field_ty: f.ty.clone(),
                            setter_name: public_name,
                            internal_setter_name: internal,
                        },
                    );
                }
                proof {
                    assert(spec_parse_field(f.deep_view()) == Ok::<AttrsV, ErrorV>(attrs@));
                    assert(raw_fields.deep_view() =~= pre.raw_fields + seq![
                        RawFieldV { name: f@.name, ty: f@.ty },
                    ]);
                    if attrs@.publish {
                        assert(published_fields.deep_view() =~= pre.published_fields + seq![
                            spec_publish_code(sd@.name, f@.name),
                        ]);
                    } else {
                        assert(published_fields.deep_view() =~= pre.published_fields);
                    }
                    match attrs@.getter_name {
                        Some(g) => {
                            assert(getter_fields.deep_view() =~= pre.getter_fields + seq![
                                spec_getter_info(f.deep_view(), g),
                            ]);
                        },
                        None => {
                            assert(getter_fields.deep_view() =~= pre.getter_fields);
                        },
                    }
                    if spec_has_setter(attrs@) {
                        assert(setter_fields.deep_view() =~= pre.setter_fields + seq![
                            spec_setter_info(f.deep_view(), attrs@),
                        ]);
                    } else {
                        assert(setter_fields.deep_view() =~= pre.setter_fields);
                    }
                    assert(spec_expand_fields(sd@.name, sd@.fields.take(i + 1)) == Ok::<
                        ExpandedStructV,
                        ErrorV,
                    >(spec_extend_expansion(pre, f.deep_view(), attrs@)));
                }
            },
        }
        i += 1;
    }
    proof {
        assert(sd@.fields.take(n as int) =~= sd@.fields);
    }
    Ok(
        ExpandedStruct {
            struct_name: sd.name.clone(),
            raw_fields,
            published_fields,
            getter_fields,
            setter_fields,
        },
    )
}

} // verus!
