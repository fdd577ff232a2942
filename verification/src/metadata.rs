//! What the metadata of a function says of its type.
use vstd::prelude::*;

use crate::data::{FuncMetadata, PropertyMetadata, Type};
use crate::names::{Deprecation, DeprecationView, FunctionKind, FunctionKindView};
use crate::styles::{DataclassTransformMetadata, PropertyRole};
use crate::toplevel::{
    lemma_held_metadata, toplevel_callables, toplevel_metadata, with_toplevel_metadata,
    UpdateMetadata,
};
use crate::view::{
    lemma_func_flags_view, lemma_func_metadata_view, lemma_property_metadata_view,
    FuncFlagsView, FuncMetadataView, PropertyMetadataView, TypeView,
};

verus! {

/// Drops what is known of a property.
struct ClearProperty {}

impl UpdateMetadata for ClearProperty {
    type State = ();

    open spec fn state(&self) -> () {
        ()
    }

    open spec fn step(s: (), m: FuncMetadataView) -> ((), FuncMetadataView) {
        ((), with_property(m, None))
    }

    fn call(&mut self, m: &mut FuncMetadata) {
        broadcast use {lemma_func_metadata_view, lemma_func_flags_view};

        m.flags.property_metadata = None;
    }
}

/// Hands on what it has to the first metadata that it sees.
struct GiveProperty {
    metadata: Option<PropertyMetadata>,
}

/// The metadata with `p` as what is known of a property.
pub open spec fn with_property(
    m: FuncMetadataView,
    p: Option<PropertyMetadataView>,
) -> FuncMetadataView {
    FuncMetadataView { flags: FuncFlagsView { property_metadata: p, ..m.flags }, ..m }
}

/// The model of property metadata that may be missing.
pub open spec fn view_property(p: Option<PropertyMetadata>) -> Option<PropertyMetadataView> {
    match p {
        Some(p) => Some(p@),
        None => None,
    }
}

impl UpdateMetadata for GiveProperty {
    type State = Option<PropertyMetadataView>;

    closed spec fn state(&self) -> Option<PropertyMetadataView> {
        view_property(self.metadata)
    }

    open spec fn step(s: Option<PropertyMetadataView>, m: FuncMetadataView) -> (
        Option<PropertyMetadataView>,
        FuncMetadataView,
    ) {
        (None, with_property(m, s))
    }

    fn call(&mut self, m: &mut FuncMetadata) {
        broadcast use {lemma_func_metadata_view, lemma_func_flags_view};

        m.flags.property_metadata = self.metadata.take();
    }
}

/// What a type says of a property at its top level.
pub open spec fn toplevel_property(t: TypeView) -> Option<PropertyMetadataView> {
    match toplevel_metadata(t) {
        Some(m) => m.flags.property_metadata,
        None => None,
    }
}

/// The deprecation that a type has at its top level.
pub open spec fn toplevel_deprecation(t: TypeView) -> Option<DeprecationView> {
    match toplevel_metadata(t) {
        Some(m) => m.flags.deprecation,
        None => None,
    }
}

/// The `dataclass_transform` decoration that a type has at its top level.
pub open spec fn toplevel_transform(t: TypeView) -> Option<DataclassTransformMetadata> {
    match toplevel_metadata(t) {
        Some(m) => m.flags.dataclass_transform_metadata,
        None => None,
    }
}

/// What a type says of a property, of deprecation and of `dataclass_transform` is what the metadata
/// of its function says, and nothing where it has no metadata.
pub proof fn lemma_toplevel_flags(t: TypeView)
    ensures
        toplevel_metadata(t) is None ==> toplevel_property(t) is None && toplevel_deprecation(
            t,
        ) is None && toplevel_transform(t) is None,
        toplevel_metadata(t) is Some ==> toplevel_property(t)
            == toplevel_metadata(t)->Some_0.flags.property_metadata,
        toplevel_metadata(t) is Some ==> toplevel_deprecation(t)
            == toplevel_metadata(t)->Some_0.flags.deprecation,
        toplevel_metadata(t) is Some ==> toplevel_transform(t)
            == toplevel_metadata(t)->Some_0.flags.dataclass_transform_metadata,
{
}

/// `t` with `p` as what it says of a property, if it is function-like.
pub open spec fn property_set(t: TypeView, p: Option<PropertyMetadataView>) -> TypeView {
    match toplevel_metadata(t) {
        Some(m) => with_toplevel_metadata(t, with_property(m, p)),
        None => t,
    }
}

/// What was set as property metadata of a function-like type is what it says of a property
/// afterwards, and setting it changes neither what else is known of the function nor its
/// signatures.
pub proof fn lemma_property_set(t: TypeView, p: Option<PropertyMetadataView>)
    ensures
        toplevel_metadata(t) is Some ==> toplevel_property(property_set(t, p)) == p,
        toplevel_metadata(t) matches Some(m) ==> toplevel_metadata(property_set(t, p)) == Some(
            with_property(m, p),
        ),
        toplevel_callables(property_set(t, p)) == toplevel_callables(t),
{
}

/// Setting property metadata changes no other flag and not the kind of the function, and it changes
/// nothing at all where there is no function.
pub proof fn lemma_property_set_only(t: TypeView, p: Option<PropertyMetadataView>)
    ensures
        toplevel_metadata(t) is None ==> property_set(t, p) == t,
        toplevel_metadata(t) is Some ==> property_set(property_set(t, p), toplevel_property(t))
            == t,
        toplevel_metadata(t) is Some ==> toplevel_metadata(property_set(t, p)) is Some
            && toplevel_metadata(property_set(t, p))->Some_0.kind == toplevel_metadata(
            t,
        )->Some_0.kind,
        toplevel_deprecation(property_set(t, p)) == toplevel_deprecation(t),
        toplevel_transform(property_set(t, p)) == toplevel_transform(t),
{
}

/// Of two property metadata set one after the other, the last counts.
pub proof fn lemma_property_set_twice(
    t: TypeView,
    p: Option<PropertyMetadataView>,
    q: Option<PropertyMetadataView>,
)
    ensures
        property_set(property_set(t, p), q) == property_set(t, q),
{
}

impl Type {
    /// Is the type the function `assert_shape`, or one that is marked like it?
    pub fn is_assert_shape(&self) -> (r: bool)
        ensures
            r == (toplevel_metadata(self@) matches Some(m) && (m.flags.is_assert_shape || m.kind
                == FunctionKindView::AssertShape)),
    {
        broadcast use {lemma_func_metadata_view, lemma_func_flags_view};

        proof {
            lemma_held_metadata(*self);
        }
        let visit = |meta: &FuncMetadata| -> (r: bool)
            ensures
                r == (meta.flags.is_assert_shape || meta.kind is AssertShape)
        { meta.flags.is_assert_shape || matches!(meta.kind, FunctionKind::AssertShape) };
        self.visit_toplevel_func_metadata(&visit)
    }

    pub fn has_toplevel_func_metadata(&self) -> (r: bool)
        ensures
            r == (toplevel_metadata(self@) is Some),
    {
        proof {
            lemma_held_metadata(*self);
        }
        let visit = |meta: &FuncMetadata| -> (r: bool)
            ensures
                r
        { true };
        self.visit_toplevel_func_metadata(&visit)
    }

    pub fn is_abstract_method(&self) -> (r: bool)
        ensures
            r == (toplevel_metadata(self@) matches Some(m) && m.flags.is_abstract_method),
    {
        broadcast use {lemma_func_metadata_view, lemma_func_flags_view};

        proof {
            lemma_held_metadata(*self);
        }
        let visit = |meta: &FuncMetadata| -> (r: bool)
            ensures
                r == meta.flags.is_abstract_method
        { meta.flags.is_abstract_method };
        self.visit_toplevel_func_metadata(&visit)
    }

    pub fn is_override(&self) -> (r: bool)
        ensures
            r == (toplevel_metadata(self@) matches Some(m) && m.flags.is_override),
    {
        broadcast use {lemma_func_metadata_view, lemma_func_flags_view};

        proof {
            lemma_held_metadata(*self);
        }
        let visit = |meta: &FuncMetadata| -> (r: bool)
            ensures
                r == meta.flags.is_override
        { meta.flags.is_override };
        self.visit_toplevel_func_metadata(&visit)
    }

    pub fn has_enum_member_decoration(&self) -> (r: bool)
        ensures
            r == (toplevel_metadata(self@) matches Some(m) && m.flags.has_enum_member_decoration),
    {
        broadcast use {lemma_func_metadata_view, lemma_func_flags_view};

        proof {
            lemma_held_metadata(*self);
        }
        let visit = |meta: &FuncMetadata| -> (r: bool)
            ensures
                r == meta.flags.has_enum_member_decoration
        { meta.flags.has_enum_member_decoration };
        self.visit_toplevel_func_metadata(&visit)
    }

    pub fn is_cached_property(&self) -> (r: bool)
        ensures
            r == (toplevel_metadata(self@) matches Some(m) && m.flags.is_cached_property),
    {
        broadcast use {lemma_func_metadata_view, lemma_func_flags_view};

        proof {
            lemma_held_metadata(*self);
        }
        let visit = |meta: &FuncMetadata| -> (r: bool)
            ensures
                r == meta.flags.is_cached_property
        { meta.flags.is_cached_property };
        self.visit_toplevel_func_metadata(&visit)
    }

    pub fn is_overload(&self) -> (r: bool)
        ensures
            r == (toplevel_metadata(self@) matches Some(m) && m.flags.is_overload),
    {
        broadcast use {lemma_func_metadata_view, lemma_func_flags_view};

        proof {
            lemma_held_metadata(*self);
        }
        let visit = |meta: &FuncMetadata| -> (r: bool)
            ensures
                r == meta.flags.is_overload
        { meta.flags.is_overload };
        self.visit_toplevel_func_metadata(&visit)
    }

    pub fn has_final_decoration(&self) -> (r: bool)
        ensures
            r == (toplevel_metadata(self@) matches Some(m) && m.flags.has_final_decoration),
    {
        broadcast use {lemma_func_metadata_view, lemma_func_flags_view};

        proof {
            lemma_held_metadata(*self);
        }
        let visit = |meta: &FuncMetadata| -> (r: bool)
            ensures
                r == meta.flags.has_final_decoration
        { meta.flags.has_final_decoration };
        self.visit_toplevel_func_metadata(&visit)
    }

    pub fn property_metadata<'a>(&'a self) -> (r: Option<&'a PropertyMetadata>)
        ensures
            match r {
                Some(p) => toplevel_property(self@) == Some(p@),
                None => toplevel_property(self@) is None,
            },
    {
        broadcast use {lemma_func_metadata_view, lemma_func_flags_view};

        proof {
            lemma_held_metadata(*self);
        }
        let visit = |meta: &'a FuncMetadata| -> (r: Option<&'a PropertyMetadata>)
            ensures
                match r {
                    Some(p) => meta.flags.property_metadata == Some(*p),
                    None => meta.flags.property_metadata is None,
                }
        { meta.flags.property_metadata.as_ref() };
        self.visit_toplevel_func_metadata(&visit)
    }

    pub fn function_deprecation<'a>(&'a self) -> (r: Option<&'a Deprecation>)
        ensures
            match r {
                Some(p) => toplevel_deprecation(self@) == Some(p@),
                None => toplevel_deprecation(self@) is None,
            },
    {
        broadcast use {lemma_func_metadata_view, lemma_func_flags_view};

        proof {
            lemma_held_metadata(*self);
        }
        let visit = |meta: &'a FuncMetadata| -> (r: Option<&'a Deprecation>)
            ensures
                match r {
                    Some(p) => meta.flags.deprecation == Some(*p),
                    None => meta.flags.deprecation is None,
                }
        { meta.flags.deprecation.as_ref() };
        self.visit_toplevel_func_metadata(&visit)
    }

    pub fn dataclass_transform_metadata<'a>(&'a self) -> (r: Option<&'a DataclassTransformMetadata>)
        ensures
            match r {
                Some(p) => toplevel_transform(self@) == Some(*p),
                None => toplevel_transform(self@) is None,
            },
    {
        broadcast use {lemma_func_metadata_view, lemma_func_flags_view};

        proof {
            lemma_held_metadata(*self);
        }
        let visit = |meta: &'a FuncMetadata| -> (r: Option<&'a DataclassTransformMetadata>)
            ensures
                match r {
                    Some(p) => meta.flags.dataclass_transform_metadata == Some(*p),
                    None => meta.flags.dataclass_transform_metadata is None,
                }
        { meta.flags.dataclass_transform_metadata.as_ref() };
        self.visit_toplevel_func_metadata(&visit)
    }

    /// The kind of the function, if the type is a function or method.
    pub fn to_func_kind<'a>(&'a self) -> (r: Option<&'a FunctionKind>)
        ensures
            match r {
                Some(k) => toplevel_metadata(self@) matches Some(m) && k@ == m.kind,
                None => toplevel_metadata(self@) is None,
            },
    {
        broadcast use lemma_func_metadata_view;

        proof {
            lemma_held_metadata(*self);
        }
        let visit = |meta: &'a FuncMetadata| -> (r: Option<&'a FunctionKind>)
            ensures
                r == Some(&meta.kind)
        { Some(&meta.kind) };
        self.visit_toplevel_func_metadata(&visit)
    }

    pub fn is_property_getter(&self) -> (r: bool)
        ensures
            r == (toplevel_property(self@) matches Some(p) && p.role is Getter),
    {
        broadcast use lemma_property_metadata_view;

        match self.property_metadata() {
            Some(meta) => matches!(meta.role, PropertyRole::Getter),
            None => false,
        }
    }

    pub fn is_property_setter_decorator(&self) -> (r: bool)
        ensures
            r == (toplevel_property(self@) matches Some(p) && p.role is SetterDecorator),
    {
        broadcast use lemma_property_metadata_view;

        match self.property_metadata() {
            Some(meta) => matches!(meta.role, PropertyRole::SetterDecorator),
            None => false,
        }
    }

    /// The getter of the property that the type is the setter of.
    pub fn is_property_setter_with_getter(&self) -> (r: Option<Type>)
        ensures
            match r {
                Some(t) => toplevel_property(self@) matches Some(p) && p.role is Setter && t@
                    == p.getter,
                None => !(toplevel_property(self@) matches Some(p) && p.role is Setter),
            },
    {
        broadcast use lemma_property_metadata_view;

        match self.property_metadata() {
            Some(meta) => match meta.role {
                PropertyRole::Setter => Some(meta.getter.clone()),
                _ => None,
            },
            None => None,
        }
    }

    pub fn property_deleter_metadata(&self) -> (r: Option<&PropertyMetadata>)
        ensures
            match r {
                Some(p) => toplevel_property(self@) == Some(p@) && p@.role is DeleterDecorator,
                None => !(toplevel_property(self@) matches Some(p)
                    && p.role is DeleterDecorator),
            },
    {
        broadcast use lemma_property_metadata_view;

        match self.property_metadata() {
            Some(meta) => match meta.role {
                PropertyRole::DeleterDecorator => Some(meta),
                _ => None,
            },
            None => None,
        }
    }

    pub fn without_property_metadata(&self) -> (r: Type)
        ensures
            r@ == property_set(self@, None),
    {
        let mut clone = self.clone();
        clone.transform_toplevel_func_metadata(&mut ClearProperty {  });
        clone
    }

    /// Returns `true` if the metadata was set, that is, if the type is function-like.
    pub fn set_property_metadata(&mut self, metadata: PropertyMetadata) -> (r: bool)
        ensures
            r == (toplevel_metadata(old(self)@) is Some),
            final(self)@ == property_set(old(self)@, Some(metadata@)),
    {
        let mut give = GiveProperty { metadata: Some(metadata) };
        self.transform_toplevel_func_metadata(&mut give);
        give.metadata.is_none()
    }
}

} // verus!
