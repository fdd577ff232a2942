//! Plain enumerations that types are made of.
use vstd::prelude::*;

verus! {

/// The types of Never. Prefer later ones where we have multiple.
#[derive(Debug, Clone, Copy, PartialEq, Eq, PartialOrd, Ord, Hash, Structural)]
pub enum NeverStyle {
    NoReturn,
    Never,
}

/// The values stand in the order in which they are declared, so that no two stand at one place.
pub proof fn lemma_never_style_order()
    ensures
        NeverStyle::NoReturn.rank_spec() < NeverStyle::Never.rank_spec(),
{
}

impl NeverStyle {
    /// The position of the variant in the declaration, by which values are ordered.
    pub open spec fn rank_spec(self) -> u64 {
        match self {
            NeverStyle::NoReturn => 0,
            NeverStyle::Never => 1,
        }
    }

    pub fn rank(self) -> (r: u64)
        ensures
            r == self.rank_spec(),
    {
        match self {
            NeverStyle::NoReturn => 0,
            NeverStyle::Never => 1,
        }
    }

    /// The style by its name.
    pub fn text(&self) -> (r: &'static str)
        ensures
            r@ == match *self {
                NeverStyle::NoReturn => "NoReturn"@,
                NeverStyle::Never => "Never"@,
            },
    {
        match self {
            NeverStyle::NoReturn => "NoReturn",
            NeverStyle::Never => "Never",
        }
    }
}

/// The types of Any. Prefer later ones where we have multiple.
#[derive(Debug, Clone, Copy, PartialEq, Eq, PartialOrd, Ord, Hash, Structural)]
pub enum AnyStyle {
    /// The user wrote `Any` literally.
    Explicit,
    /// The user didn't write a type, so we inferred `Any`.
    Implicit,
    /// There was an error, so we made up `Any`. If this `Any` is used in an error position, don't
    /// report another error.
    Error,
}

/// The values stand in the order in which they are declared, so that no two stand at one place.
pub proof fn lemma_any_style_order()
    ensures
        AnyStyle::Explicit.rank_spec() < AnyStyle::Implicit.rank_spec(),
        AnyStyle::Implicit.rank_spec() < AnyStyle::Error.rank_spec(),
{
}

impl AnyStyle {
    /// The position of the variant in the declaration, by which values are ordered.
    pub open spec fn rank_spec(self) -> u64 {
        match self {
            AnyStyle::Explicit => 0,
            AnyStyle::Implicit => 1,
            AnyStyle::Error => 2,
        }
    }

    pub fn rank(self) -> (r: u64)
        ensures
            r == self.rank_spec(),
    {
        match self {
            AnyStyle::Explicit => 0,
            AnyStyle::Implicit => 1,
            AnyStyle::Error => 2,
        }
    }

    /// The style by its name.
    pub fn text(&self) -> (r: &'static str)
        ensures
            r@ == match *self {
                AnyStyle::Explicit => "Explicit"@,
                AnyStyle::Implicit => "Implicit"@,
                AnyStyle::Error => "Error"@,
            },
    {
        match self {
            AnyStyle::Explicit => "Explicit",
            AnyStyle::Implicit => "Implicit",
            AnyStyle::Error => "Error",
        }
    }
}

/// How a literal type came about.
#[derive(Debug, Clone, Copy, PartialEq, Eq, Structural)]
pub enum LitStyle {
    /// Inferred from a literal expression; may be widened to its class.
    Implicit,
    /// Written by the user as a literal type.
    Explicit,
}

/// The values stand in the order in which they are declared, so that no two stand at one place.
pub proof fn lemma_lit_style_order()
    ensures
        LitStyle::Implicit.rank_spec() < LitStyle::Explicit.rank_spec(),
{
}

impl LitStyle {
    /// The position of the variant in the declaration, by which values are ordered.
    pub open spec fn rank_spec(self) -> u64 {
        match self {
            LitStyle::Implicit => 0,
            LitStyle::Explicit => 1,
        }
    }

    pub fn rank(self) -> (r: u64)
        ensures
            r == self.rank_spec(),
    {
        match self {
            LitStyle::Implicit => 0,
            LitStyle::Explicit => 1,
        }
    }
}

/// The special forms of `typing`.
#[derive(Debug, Clone, Copy, PartialEq, Eq, Structural)]
pub enum SpecialForm {
    Annotated,
    Callable,
    ClassVar,
    Concatenate,
    Final,
    Generic,
    Literal,
    LiteralString,
    Never,
    NoReturn,
    Optional,
    Protocol,
    Required,
    NotRequired,
    ReadOnly,
    SelfType,
    Tuple,
    Type,
    TypeAlias,
    TypeForm,
    TypeGuard,
    TypeIs,
    Union,
    Unpack,
}

/// The values stand in the order in which they are declared, so that no two stand at one place.
pub proof fn lemma_special_form_order()
    ensures
        SpecialForm::Annotated.rank_spec() < SpecialForm::Callable.rank_spec(),
        SpecialForm::Callable.rank_spec() < SpecialForm::ClassVar.rank_spec(),
        SpecialForm::ClassVar.rank_spec() < SpecialForm::Concatenate.rank_spec(),
        SpecialForm::Concatenate.rank_spec() < SpecialForm::Final.rank_spec(),
        SpecialForm::Final.rank_spec() < SpecialForm::Generic.rank_spec(),
        SpecialForm::Generic.rank_spec() < SpecialForm::Literal.rank_spec(),
        SpecialForm::Literal.rank_spec() < SpecialForm::LiteralString.rank_spec(),
        SpecialForm::LiteralString.rank_spec() < SpecialForm::Never.rank_spec(),
        SpecialForm::Never.rank_spec() < SpecialForm::NoReturn.rank_spec(),
        SpecialForm::NoReturn.rank_spec() < SpecialForm::Optional.rank_spec(),
        SpecialForm::Optional.rank_spec() < SpecialForm::Protocol.rank_spec(),
        SpecialForm::Protocol.rank_spec() < SpecialForm::Required.rank_spec(),
        SpecialForm::Required.rank_spec() < SpecialForm::NotRequired.rank_spec(),
        SpecialForm::NotRequired.rank_spec() < SpecialForm::ReadOnly.rank_spec(),
        SpecialForm::ReadOnly.rank_spec() < SpecialForm::SelfType.rank_spec(),
        SpecialForm::SelfType.rank_spec() < SpecialForm::Tuple.rank_spec(),
        SpecialForm::Tuple.rank_spec() < SpecialForm::Type.rank_spec(),
        SpecialForm::Type.rank_spec() < SpecialForm::TypeAlias.rank_spec(),
        SpecialForm::TypeAlias.rank_spec() < SpecialForm::TypeForm.rank_spec(),
        SpecialForm::TypeForm.rank_spec() < SpecialForm::TypeGuard.rank_spec(),
        SpecialForm::TypeGuard.rank_spec() < SpecialForm::TypeIs.rank_spec(),
        SpecialForm::TypeIs.rank_spec() < SpecialForm::Union.rank_spec(),
        SpecialForm::Union.rank_spec() < SpecialForm::Unpack.rank_spec(),
{
}

impl SpecialForm {
    /// The position of the variant in the declaration, by which values are ordered.
    pub open spec fn rank_spec(self) -> u64 {
        match self {
            SpecialForm::Annotated => 0,
            SpecialForm::Callable => 1,
            SpecialForm::ClassVar => 2,
            SpecialForm::Concatenate => 3,
            SpecialForm::Final => 4,
            SpecialForm::Generic => 5,
            SpecialForm::Literal => 6,
            SpecialForm::LiteralString => 7,
            SpecialForm::Never => 8,
            SpecialForm::NoReturn => 9,
            SpecialForm::Optional => 10,
            SpecialForm::Protocol => 11,
            SpecialForm::Required => 12,
            SpecialForm::NotRequired => 13,
            SpecialForm::ReadOnly => 14,
            SpecialForm::SelfType => 15,
            SpecialForm::Tuple => 16,
            SpecialForm::Type => 17,
            SpecialForm::TypeAlias => 18,
            SpecialForm::TypeForm => 19,
            SpecialForm::TypeGuard => 20,
            SpecialForm::TypeIs => 21,
            SpecialForm::Union => 22,
            SpecialForm::Unpack => 23,
        }
    }

    pub fn rank(self) -> (r: u64)
        ensures
            r == self.rank_spec(),
    {
        match self {
            SpecialForm::Annotated => 0,
            SpecialForm::Callable => 1,
            SpecialForm::ClassVar => 2,
            SpecialForm::Concatenate => 3,
            SpecialForm::Final => 4,
            SpecialForm::Generic => 5,
            SpecialForm::Literal => 6,
            SpecialForm::LiteralString => 7,
            SpecialForm::Never => 8,
            SpecialForm::NoReturn => 9,
            SpecialForm::Optional => 10,
            SpecialForm::Protocol => 11,
            SpecialForm::Required => 12,
            SpecialForm::NotRequired => 13,
            SpecialForm::ReadOnly => 14,
            SpecialForm::SelfType => 15,
            SpecialForm::Tuple => 16,
            SpecialForm::Type => 17,
            SpecialForm::TypeAlias => 18,
            SpecialForm::TypeForm => 19,
            SpecialForm::TypeGuard => 20,
            SpecialForm::TypeIs => 21,
            SpecialForm::Union => 22,
            SpecialForm::Unpack => 23,
        }
    }
}

/// The kinds of type parameter.
#[derive(Debug, Clone, Copy, PartialEq, Eq, Structural)]
pub enum QuantifiedKind {
    TypeVar,
    ParamSpec,
    TypeVarTuple,
}

/// The values stand in the order in which they are declared, so that no two stand at one place.
pub proof fn lemma_quantified_kind_order()
    ensures
        QuantifiedKind::TypeVar.rank_spec() < QuantifiedKind::ParamSpec.rank_spec(),
        QuantifiedKind::ParamSpec.rank_spec() < QuantifiedKind::TypeVarTuple.rank_spec(),
{
}

impl QuantifiedKind {
    /// The position of the variant in the declaration, by which values are ordered.
    pub open spec fn rank_spec(self) -> u64 {
        match self {
            QuantifiedKind::TypeVar => 0,
            QuantifiedKind::ParamSpec => 1,
            QuantifiedKind::TypeVarTuple => 2,
        }
    }

    pub fn rank(self) -> (r: u64)
        ensures
            r == self.rank_spec(),
    {
        match self {
            QuantifiedKind::TypeVar => 0,
            QuantifiedKind::ParamSpec => 1,
            QuantifiedKind::TypeVarTuple => 2,
        }
    }
}

/// Where a type parameter was declared.
#[derive(Debug, Clone, Copy, PartialEq, Eq, Structural)]
pub enum QuantifiedOrigin {
    /// In a type parameter list.
    Pep695,
    /// By a reference to a legacy type variable in scope.
    Legacy,
}

/// The values stand in the order in which they are declared, so that no two stand at one place.
pub proof fn lemma_quantified_origin_order()
    ensures
        QuantifiedOrigin::Pep695.rank_spec() < QuantifiedOrigin::Legacy.rank_spec(),
{
}

impl QuantifiedOrigin {
    /// The position of the variant in the declaration, by which values are ordered.
    pub open spec fn rank_spec(self) -> u64 {
        match self {
            QuantifiedOrigin::Pep695 => 0,
            QuantifiedOrigin::Legacy => 1,
        }
    }

    pub fn rank(self) -> (r: u64)
        ensures
            r == self.rank_spec(),
    {
        match self {
            QuantifiedOrigin::Pep695 => 0,
            QuantifiedOrigin::Legacy => 1,
        }
    }
}

/// The variance that a type parameter is declared with.
#[derive(Debug, Clone, Copy, PartialEq, Eq, Structural)]
pub enum PreInferenceVariance {
    Covariant,
    Contravariant,
    Invariant,
    Undefined,
}

/// The values stand in the order in which they are declared, so that no two stand at one place.
pub proof fn lemma_pre_inference_variance_order()
    ensures
        PreInferenceVariance::Covariant.rank_spec()
            < PreInferenceVariance::Contravariant.rank_spec(),
        PreInferenceVariance::Contravariant.rank_spec()
            < PreInferenceVariance::Invariant.rank_spec(),
        PreInferenceVariance::Invariant.rank_spec() < PreInferenceVariance::Undefined.rank_spec(),
{
}

impl PreInferenceVariance {
    /// The position of the variant in the declaration, by which values are ordered.
    pub open spec fn rank_spec(self) -> u64 {
        match self {
            PreInferenceVariance::Covariant => 0,
            PreInferenceVariance::Contravariant => 1,
            PreInferenceVariance::Invariant => 2,
            PreInferenceVariance::Undefined => 3,
        }
    }

    pub fn rank(self) -> (r: u64)
        ensures
            r == self.rank_spec(),
    {
        match self {
            PreInferenceVariance::Covariant => 0,
            PreInferenceVariance::Contravariant => 1,
            PreInferenceVariance::Invariant => 2,
            PreInferenceVariance::Undefined => 3,
        }
    }
}

/// The part that a function plays in a property.
#[derive(Debug, Clone, Copy, PartialEq, Eq, Structural)]
pub enum PropertyRole {
    Getter,
    Setter,
    SetterDecorator,
    DeleterDecorator,
}

/// The values stand in the order in which they are declared, so that no two stand at one place.
pub proof fn lemma_property_role_order()
    ensures
        PropertyRole::Getter.rank_spec() < PropertyRole::Setter.rank_spec(),
        PropertyRole::Setter.rank_spec() < PropertyRole::SetterDecorator.rank_spec(),
        PropertyRole::SetterDecorator.rank_spec() < PropertyRole::DeleterDecorator.rank_spec(),
{
}

impl PropertyRole {
    /// The position of the variant in the declaration, by which values are ordered.
    pub open spec fn rank_spec(self) -> u64 {
        match self {
            PropertyRole::Getter => 0,
            PropertyRole::Setter => 1,
            PropertyRole::SetterDecorator => 2,
            PropertyRole::DeleterDecorator => 3,
        }
    }

    pub fn rank(self) -> (r: u64)
        ensures
            r == self.rank_spec(),
    {
        match self {
            PropertyRole::Getter => 0,
            PropertyRole::Setter => 1,
            PropertyRole::SetterDecorator => 2,
            PropertyRole::DeleterDecorator => 3,
        }
    }
}

/// How arguments reach a parameter.
#[derive(Debug, Clone, Copy, PartialEq, Eq, Structural)]
pub enum ParamKind {
    PosOnly,
    Pos,
    VarArg,
    KwOnly,
    Kwargs,
}

/// The values stand in the order in which they are declared, so that no two stand at one place.
pub proof fn lemma_param_kind_order()
    ensures
        ParamKind::PosOnly.rank_spec() < ParamKind::Pos.rank_spec(),
        ParamKind::Pos.rank_spec() < ParamKind::VarArg.rank_spec(),
        ParamKind::VarArg.rank_spec() < ParamKind::KwOnly.rank_spec(),
        ParamKind::KwOnly.rank_spec() < ParamKind::Kwargs.rank_spec(),
{
}

impl ParamKind {
    /// The position of the variant in the declaration, by which values are ordered.
    pub open spec fn rank_spec(self) -> u64 {
        match self {
            ParamKind::PosOnly => 0,
            ParamKind::Pos => 1,
            ParamKind::VarArg => 2,
            ParamKind::KwOnly => 3,
            ParamKind::Kwargs => 4,
        }
    }

    pub fn rank(self) -> (r: u64)
        ensures
            r == self.rank_spec(),
    {
        match self {
            ParamKind::PosOnly => 0,
            ParamKind::Pos => 1,
            ParamKind::VarArg => 2,
            ParamKind::KwOnly => 3,
            ParamKind::Kwargs => 4,
        }
    }
}

/// What a class stands for when it is called.
#[derive(Debug, Clone, Copy, PartialEq, Eq, Structural)]
pub enum ClassKind {
    Class,
    StaticMethod,
    ClassMethod,
    Property,
    EnumMember,
    DataclassField,
}

/// The values stand in the order in which they are declared, so that no two stand at one place.
pub proof fn lemma_class_kind_order()
    ensures
        ClassKind::Class.rank_spec() < ClassKind::StaticMethod.rank_spec(),
        ClassKind::StaticMethod.rank_spec() < ClassKind::ClassMethod.rank_spec(),
        ClassKind::ClassMethod.rank_spec() < ClassKind::Property.rank_spec(),
        ClassKind::Property.rank_spec() < ClassKind::EnumMember.rank_spec(),
        ClassKind::EnumMember.rank_spec() < ClassKind::DataclassField.rank_spec(),
{
}

impl ClassKind {
    /// The position of the variant in the declaration, by which values are ordered.
    pub open spec fn rank_spec(self) -> u64 {
        match self {
            ClassKind::Class => 0,
            ClassKind::StaticMethod => 1,
            ClassKind::ClassMethod => 2,
            ClassKind::Property => 3,
            ClassKind::EnumMember => 4,
            ClassKind::DataclassField => 5,
        }
    }

    pub fn rank(self) -> (r: u64)
        ensures
            r == self.rank_spec(),
    {
        match self {
            ClassKind::Class => 0,
            ClassKind::StaticMethod => 1,
            ClassKind::ClassMethod => 2,
            ClassKind::Property => 3,
            ClassKind::EnumMember => 4,
            ClassKind::DataclassField => 5,
        }
    }
}

/// What a set of type parameters belongs to.
#[derive(Debug, Clone, Copy, PartialEq, Eq, Structural)]
pub enum TParamsSource {
    Class,
    TypeAlias,
    Function,
}

impl TParamsSource {
    /// The words that messages use for the source.
    pub fn text(&self) -> (r: &'static str)
        ensures
            r@ == match *self {
                TParamsSource::Class => "class"@,
                TParamsSource::TypeAlias => "type alias"@,
                TParamsSource::Function => "function"@,
            },
    {
        match self {
            TParamsSource::Class => "class",
            TParamsSource::TypeAlias => "type alias",
            TParamsSource::Function => "function",
        }
    }
}

/// The defaults that a `dataclass_transform` decoration sets.
#[derive(Debug, Clone, Copy, PartialEq, Eq, Structural)]
pub struct DataclassTransformMetadata {
    pub eq_default: bool,
    pub order_default: bool,
    pub kw_only_default: bool,
    pub frozen_default: bool,
}

} // verus!
