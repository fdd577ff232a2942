//! The data of types, as the type checker holds them.
use std::sync::Arc;

use vstd::prelude::*;

use crate::names::{
    Class, Deprecation, FunctionKind, LitInt, ModuleName, ModuleType, Name, ParamSpec,
    QuantifiedIdentity, Sentinel, TypeVar, TypeVarTuple, Var,
};
use crate::outside::{ModuleFields, Signatures};
use crate::styles::{
    AnyStyle, DataclassTransformMetadata, LitStyle, NeverStyle, ParamKind, PreInferenceVariance,
    PropertyRole, QuantifiedKind, SpecialForm,
};

verus! {

/// Something under the type parameters that it is generic over.
#[derive(Debug)]
pub struct Forall<T> {
    pub tparams: Arc<TParams>,
    pub body: T,
}

/// A parameter that stands before a parameter specification.
pub type PrefixParam = Param;

/// What a type parameter accepts.
#[derive(Debug)]
pub enum Restriction {
    /// The values are bounded above by this type.
    Bound(Type),
    /// The value is one of these types.
    Constraints(Vec<Type>),
    /// Any value is accepted.
    Unrestricted,
}

/// A type parameter of a function, class or type alias.
#[derive(Debug)]
pub struct Quantified {
    pub identity: QuantifiedIdentity,
    pub name: Name,
    pub kind: QuantifiedKind,
    pub default: Option<Type>,
    pub restriction: Restriction,
    pub variance: PreInferenceVariance,
}

/// The type parameters that a declaration introduces, in order.
#[derive(Debug)]
pub struct TParams {
    pub(crate) params: Vec<Quantified>,
}

/// Type arguments together with the type parameters that they are given for.
#[derive(Debug)]
pub struct TArgs {
    pub(crate) tparams: Arc<TParams>,
    pub(crate) args: Vec<Type>,
}

/// A class applied to type arguments.
#[derive(Debug)]
pub struct ClassType {
    pub class: Class,
    pub targs: TArgs,
}

/// A member of an enum class.
#[derive(Debug)]
pub struct LitEnum {
    pub class: ClassType,
    pub member: Name,
}

/// A literal value.
#[derive(Debug)]
pub enum Lit {
    Str(Name),
    Int(LitInt),
    Bool(bool),
    Bytes(Vec<u8>),
    Enum(Box<LitEnum>),
}

/// A literal value and how the program came by it.
#[derive(Debug)]
pub struct Literal {
    pub value: Lit,
    pub style: LitStyle,
}

/// One parameter of a callable.
#[derive(Debug)]
pub struct Param {
    pub name: Option<Name>,
    pub kind: ParamKind,
    pub required: bool,
    pub ty: Type,
}

/// The parameters of a callable, in order.
#[derive(Debug)]
pub struct ParamList {
    pub items: Vec<Param>,
}

/// What a callable accepts.
#[derive(Debug)]
pub enum Params {
    List(ParamList),
    Ellipsis,
    Materialization,
    ParamSpec(Vec<Param>, Type),
}

/// The signature of a callable.
#[derive(Debug)]
pub struct Callable {
    pub params: Params,
    pub ret: Type,
}

/// How a function takes part in a property.
#[derive(Debug)]
pub struct PropertyMetadata {
    pub role: PropertyRole,
    pub getter: Type,
}

/// What decorators and definitions say of a function.
#[derive(Debug)]
pub struct FuncFlags {
    pub is_overload: bool,
    pub is_cached_property: bool,
    pub is_abstract_method: bool,
    pub is_override: bool,
    pub is_assert_shape: bool,
    pub has_enum_member_decoration: bool,
    pub has_final_decoration: bool,
    pub property_metadata: Option<PropertyMetadata>,
    pub deprecation: Option<Deprecation>,
    pub dataclass_transform_metadata: Option<DataclassTransformMetadata>,
}

/// What is known of a function beside its signature.
#[derive(Debug)]
pub struct FuncMetadata {
    pub kind: FunctionKind,
    pub flags: FuncFlags,
}

/// A function: its signature and its metadata.
#[derive(Debug)]
pub struct Function {
    pub signature: Callable,
    pub metadata: FuncMetadata,
}

/// A type alias whose value is known.
#[derive(Debug)]
pub struct TypeAlias {
    pub name: Name,
    pub ty: Type,
}

/// A reference to a type alias that is looked up later.
#[derive(Debug)]
pub struct TypeAliasRef {
    pub name: Name,
    pub args: Option<TArgs>,
}

/// A type alias or a reference to one.
#[derive(Debug)]
pub enum TypeAliasData {
    Value(TypeAlias),
    Ref(TypeAliasRef),
}

/// What can be generic over type parameters.
#[derive(Debug)]
pub enum Forallable {
    TypeAlias(TypeAliasData),
    Function(Function),
    Callable(Callable),
}

/// One signature of an overloaded function.
#[derive(Debug)]
pub enum OverloadType {
    Function(Function),
    Forall(Forall<Function>),
}

/// An overloaded function.
#[derive(Debug)]
pub struct Overload {
    pub signatures: Signatures,
    pub metadata: Box<FuncMetadata>,
}

/// The function of a bound method.
#[derive(Debug)]
pub enum BoundMethodType {
    Function(Function),
    Forall(Forall<Function>),
    Overload(Overload),
}

/// A method bound to the object or class it is called on.
#[derive(Debug)]
pub struct BoundMethod {
    pub obj: Type,
    pub func: BoundMethodType,
}

/// Alternatives, with an optional name to display them by.
#[derive(Debug)]
pub struct Union {
    pub members: Vec<Type>,
    pub display_name: Option<(ModuleName, Name)>,
}

/// A typed dictionary: one that a class declares, or one given by its fields.
#[derive(Debug)]
pub enum TypedDict {
    TypedDict(ClassType),
    Anonymous(Vec<Field>),
}

/// A name and the type that stands under it.
#[derive(Debug)]
pub struct Field {
    pub name: Name,
    pub ty: Type,
}

/// A dimension of a shape.
#[derive(Debug)]
pub enum Int {
    Literal(i64),
    Symbolic(Box<Type>),
    Gradual,
    Materialization,
}

/// A shape: its dimensions, in order.
#[derive(Debug)]
pub struct IntTuple {
    pub dims: Vec<Int>,
}

/// An array class with the shape of its instances.
#[derive(Debug)]
pub struct ShapedArrayType {
    pub base_class: ClassType,
    pub shape: IntTuple,
}

/// An nn.Module instance with its captured constructor arguments.
#[derive(Debug)]
pub struct NNModuleType {
    pub class: ClassType,
    pub fields: ModuleFields,
}

/// A data frame class with the columns of its instances, in order.
#[derive(Debug)]
pub struct DataFrameSchema {
    pub class: ClassType,
    pub columns: Vec<Field>,
}

/// A series class with the type of its elements.
#[derive(Debug)]
pub struct SeriesSchema {
    pub class: ClassType,
    pub element: Type,
}

/// A tuple type.
#[derive(Debug)]
pub enum Tuple {
    Concrete(Vec<Type>),
    Unbounded(Box<Type>),
    Unpacked(Box<(Vec<Type>, Type, Vec<Type>)>),
}

/// The result of a call whose keyword arguments matter.
#[derive(Debug)]
pub struct KwCall {
    pub keywords: Vec<Field>,
    pub return_ty: Type,
}

/// What is left of a generic argument of a higher-order call.
#[derive(Debug)]
pub struct CallableResidual {
    pub captured: Vec<Type>,
    pub fallback: Type,
}

/// An application of a type-level shape function.
#[derive(Debug)]
pub struct TypeLevelDslCall {
    pub function: Name,
    pub args: Vec<Type>,
    pub result_schema: Type,
}

/// The second argument of a super() call.
#[derive(Debug)]
pub enum SuperObj {
    Instance(ClassType),
    Class(ClassType),
}

/// A type of the type checker.
#[derive(Debug)]
pub enum Type {
    /// A literal value, such as `Literal[3]`.
    Literal(Box<Literal>),
    /// `typing.LiteralString`.
    LiteralString(LitStyle),
    /// `typing.Callable`.
    Callable(Box<Callable>),
    /// What a parameter of a higher-order function took from a generic or overloaded argument, to
    /// be put back where the parameter occurs in a callable.
    CallableResidual(Box<CallableResidual>),
    /// An application of a shape function, valid in the return annotation of a callable.
    TypeLevelDslCall(Box<TypeLevelDslCall>),
    /// A function that `def` declares.
    Function(Box<Function>),
    /// A method of a class, bound to its receiver.
    BoundMethod(Box<BoundMethod>),
    /// An overloaded function.
    Overload(Overload),
    /// A union; may hold a name to display it by.
    Union(Box<Union>),
    /// An intersection, with the type that stands for it where intersections are not supported.
    Intersect(Box<(Vec<Type>, Type)>),
    /// A class definition used as a value.
    ClassDef(Class),
    /// An instance of a class with its type arguments.
    ClassType(ClassType),
    /// An instance of a typed dictionary.
    TypedDict(TypedDict),
    /// Any subset of the fields of a typed dictionary.
    PartialTypedDict(TypedDict),
    /// An array with a known shape.
    ShapedArray(Box<ShapedArrayType>),
    /// A tensor shape.
    IntTuple(Box<IntTuple>),
    /// An nn.Module instance with captured constructor arguments.
    NNModule(Box<NNModuleType>),
    /// A data frame with its column schema.
    DataFrame(Box<DataFrameSchema>),
    /// A series with its element type.
    Series(Box<SeriesSchema>),
    /// A dimension value.
    Int(Int),
    /// A tuple.
    Tuple(Tuple),
    /// A module.
    Module(ModuleType),
    /// Something generic over type parameters.
    Forall(Box<Forall<Forallable>>),
    /// A variable of the solver.
    Var(Var),
    /// A value annotated with a type variable.
    Quantified(Box<Quantified>),
    /// The value of a type variable itself.
    QuantifiedValue(Box<Quantified>),
    /// What unpacking a type variable tuple gives.
    ElementOfTypeVarTuple(Box<Quantified>),
    /// `TypeGuard[T]`.
    TypeGuard(Box<Type>),
    /// `TypeIs[T]`.
    TypeIs(Box<Type>),
    /// `Annotated[T, ...]`, with its metadata.
    Annotated(Box<Type>, Vec<Type>),
    /// `Unpack[T]`.
    Unpack(Box<Type>),
    /// A legacy type variable outside any scope.
    TypeVar(TypeVar),
    /// A legacy parameter specification outside any scope.
    ParamSpec(ParamSpec),
    /// A legacy type variable tuple outside any scope.
    TypeVarTuple(TypeVarTuple),
    /// A special form used as a value.
    SpecialForm(SpecialForm),
    /// `Concatenate[T1, ..., P]`.
    Concatenate(Vec<Param>, Box<Type>),
    /// A parameter list standing for a parameter specification.
    ParamSpecValue(ParamList),
    /// A value annotated with `P.args`.
    Args(Box<Quantified>),
    /// A value annotated with `P.kwargs`.
    Kwargs(Box<Quantified>),
    /// The value `P.args`.
    ArgsValue(Box<Quantified>),
    /// The value `P.kwargs`.
    KwargsValue(Box<Quantified>),
    /// A type that has a value representation, such as a class.
    Type(Box<Type>),
    /// `TypeForm[T]`.
    TypeForm(Box<Type>),
    /// `...`.
    Ellipsis,
    /// `Any`.
    Any(AnyStyle),
    /// `Never`.
    Never(NeverStyle),
    /// A type alias used as a value.
    TypeAlias(Box<TypeAliasData>),
    /// The type that a type alias stands for, to be found when it is looked up.
    UntypedAlias(Box<TypeAliasData>),
    /// A sentinel.
    Sentinel(Sentinel),
    /// The result of `super()`: where attribute lookup starts, and the object it is done for.
    SuperInstance(Box<(ClassType, SuperObj)>),
    /// `typing.Self` in the given class.
    SelfType(ClassType),
    /// The result of a call whose keyword arguments have typing effects.
    KwCall(Box<KwCall>),
    /// All materializations of `Any`.
    Materialization,
    /// `None`.
    NoneType,
}

} // verus!
