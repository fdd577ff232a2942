//! Names, positions and identities: the values that types are told apart by.
use vstd::prelude::*;
use vstd::string::StringExecFns;

use crate::styles::{ClassKind, QuantifiedOrigin};

verus! {

/// An identifier.
#[derive(Debug)]
pub struct Name {
    pub text: String,
}

impl View for Name {
    type V = Seq<char>;

    open spec fn view(&self) -> Seq<char> {
        self.text@
    }
}

impl Clone for Name {
    fn clone(&self) -> (r: Self)
        ensures
            r == *self,
    {
        Name { text: self.text.clone() }
    }
}

impl Name {
    pub fn new_static(text: &'static str) -> (r: Name)
        ensures
            r@ == text@,
    {
        Name { text: text.to_owned() }
    }

    pub fn new(text: String) -> (r: Name)
        ensures
            r@ == text@,
    {
        Name { text }
    }

    pub fn as_str(&self) -> (r: &str)
        ensures
            r@ == self@,
    {
        self.text.as_str()
    }

    /// Do the two names read the same?
    pub fn same(&self, other: &Name) -> (r: bool)
        ensures
            r == (self@ == other@),
    {
        self.text == other.text
    }
}

/// The dotted name of a module.
#[derive(Debug)]
pub struct ModuleName {
    pub text: String,
}

impl View for ModuleName {
    type V = Seq<char>;

    open spec fn view(&self) -> Seq<char> {
        self.text@
    }
}

impl Clone for ModuleName {
    fn clone(&self) -> (r: Self)
        ensures
            r == *self,
    {
        ModuleName { text: self.text.clone() }
    }
}

impl ModuleName {
    pub fn from_str(text: &str) -> (r: ModuleName)
        ensures
            r@ == text@,
    {
        ModuleName { text: text.to_owned() }
    }

    pub fn builtins() -> (r: ModuleName)
        ensures
            r@ == "builtins"@,
    {
        ModuleName { text: "builtins".to_owned() }
    }

    /// Do the two names read the same?
    pub fn same(&self, other: &ModuleName) -> (r: bool)
        ensures
            r == (self@ == other@),
    {
        self.text == other.text
    }
}

/// The model of a [`QName`].
pub ghost struct QNameView {
    pub name: Seq<char>,
    pub module: Seq<char>,
}

/// A name qualified by the module that defines it.
#[derive(Debug)]
pub struct QName {
    pub name: Name,
    pub module: ModuleName,
}

impl View for QName {
    type V = QNameView;

    open spec fn view(&self) -> QNameView {
        QNameView { name: self.name@, module: self.module@ }
    }
}

impl Clone for QName {
    fn clone(&self) -> (r: Self)
        ensures
            r == *self,
    {
        QName { name: self.name.clone(), module: self.module.clone() }
    }
}

impl QName {
    pub fn new(name: Name, module: ModuleName) -> (r: QName)
        ensures
            r@ == (QNameView { name: name@, module: module@ }),
    {
        QName { name, module }
    }

    /// The unqualified name.
    pub fn id(&self) -> (r: &Name)
        ensures
            r@ == self@.name,
    {
        &self.name
    }

    pub fn same(&self, other: &QName) -> (r: bool)
        ensures
            r == (self@ == other@),
    {
        self.name.same(&other.name) && self.module.same(&other.module)
    }
}

/// A number that stands for one thing only.
#[derive(Debug, Clone, Copy, PartialEq, Eq, PartialOrd, Ord, Hash, Structural)]
pub struct Unique {
    pub id: u64,
}

/// Hands out numbers that were not handed out before.
#[derive(Debug)]
pub struct UniqueFactory {
    pub next: u64,
}

impl UniqueFactory {
    /// Zero is never handed out: it marks a unique whose identity does not matter.
    pub fn new() -> (r: UniqueFactory)
        ensures
            r.next == 1,
    {
        UniqueFactory { next: 1 }
    }

    pub fn fresh(&mut self) -> (r: Unique)
        requires
            old(self).next < u64::MAX,
        ensures
            r.id == old(self).next,
            final(self).next == old(self).next + 1,
    {
        let id = self.next;
        self.next = id + 1;
        Unique { id }
    }
}

/// An introduced synthetic variable to range over as yet unknown types.
#[derive(Debug, Clone, Copy, PartialEq, Eq, PartialOrd, Ord, Hash, Structural)]
pub struct Var {
    pub unique: Unique,
}

/// The variable that stands for any variable when types are printed.
pub open spec fn zero_var() -> Var {
    Var { unique: Unique { id: 0 } }
}

/// The digit for a number below ten.
pub open spec fn digit(n: nat) -> Seq<char> {
    if n == 0 {
        "0"@
    } else if n == 1 {
        "1"@
    } else if n == 2 {
        "2"@
    } else if n == 3 {
        "3"@
    } else if n == 4 {
        "4"@
    } else if n == 5 {
        "5"@
    } else if n == 6 {
        "6"@
    } else if n == 7 {
        "7"@
    } else if n == 8 {
        "8"@
    } else {
        "9"@
    }
}

/// The decimal digits of a number.
pub open spec fn decimal(n: nat) -> Seq<char>
    decreases n,
{
    if n < 10 {
        digit(n)
    } else {
        decimal(n / 10) + digit(n % 10)
    }
}

/// The number that decimal digits stand for.
pub open spec fn read_decimal(text: Seq<char>) -> nat
    decreases text.len(),
{
    if text.len() == 0 {
        0
    } else {
        10 * read_decimal(text.drop_last()) + ((text.last() as u32 - '0' as u32) as nat)
    }
}

/// A number below ten has one digit, which stands for it.
proof fn lemma_digit(n: nat)
    requires
        n < 10,
    ensures
        digit(n).len() == 1,
        digit(n)[0] as u32 == '0' as u32 + n,
{
    reveal_strlit("0");
    reveal_strlit("1");
    reveal_strlit("2");
    reveal_strlit("3");
    reveal_strlit("4");
    reveal_strlit("5");
    reveal_strlit("6");
    reveal_strlit("7");
    reveal_strlit("8");
    reveal_strlit("9");
}

/// The decimal digits of a number stand for it; they are digits, and the first is zero only if the
/// number is.
pub proof fn lemma_decimal(n: nat)
    ensures
        read_decimal(decimal(n)) == n,
        decimal(n).len() > 0,
        forall|i: int|
            0 <= i < decimal(n).len() ==> '0' as u32 <= (#[trigger] decimal(n)[i]) as u32
                <= '9' as u32,
        decimal(n)[0] == '0' ==> n == 0,
    decreases n,
{
    if n < 10 {
        lemma_digit(n);
        assert(decimal(n).drop_last() =~= Seq::empty());
        assert(read_decimal(Seq::empty()) == 0);
        assert(decimal(n).last() == digit(n)[0]);
    } else {
        lemma_decimal(n / 10);
        lemma_digit(n % 10);
        assert(decimal(n) == decimal(n / 10) + digit(n % 10));
        assert(decimal(n).drop_last() =~= decimal(n / 10));
        assert(decimal(n).last() == digit(n % 10)[0]);
        assert(n == 10 * (n / 10) + n % 10);
        assert forall|i: int| 0 <= i < decimal(n).len() implies '0' as u32 <= (
        #[trigger] decimal(n)[i]) as u32 <= '9' as u32 by {
            if i < decimal(n / 10).len() {
                assert(decimal(n)[i] == decimal(n / 10)[i]);
            } else {
                assert(decimal(n)[i] == decimal(n).last());
            }
        }
    }
}

impl Unique {
    /// The number in decimal digits.
    pub fn text(&self) -> (r: String)
        ensures
            r@ == decimal(self.id as nat),
    {
        Self::decimal(self.id)
    }

    fn digit(n: u64) -> (r: &'static str)
        requires
            n < 10,
        ensures
            r@ == digit(n as nat),
    {
        match n {
            0 => "0",
            1 => "1",
            2 => "2",
            3 => "3",
            4 => "4",
            5 => "5",
            6 => "6",
            7 => "7",
            8 => "8",
            _ => "9",
        }
    }

    fn decimal(n: u64) -> (r: String)
        ensures
            r@ == decimal(n as nat),
        decreases n,
    {
        if n < 10 {
            Self::digit(n).to_owned()
        } else {
            Self::decimal(n / 10).concat(Self::digit(n % 10))
        }
    }
}

impl Var {
    /// The variable as it is displayed.
    pub fn text(&self) -> (r: String)
        ensures
            r@ == "@"@ + decimal(self.unique.id as nat),
    {
        "@".to_owned().concat(self.unique.text().as_str())
    }

    pub fn zero() -> (r: Var)
        ensures
            r == zero_var(),
    {
        Var { unique: Unique { id: 0 } }
    }

    /// A variable that differs from all that came from `uniques` before, and from
    /// [`Var::zero`] where the factory has passed zero.
    pub fn new(uniques: &mut UniqueFactory) -> (r: Var)
        requires
            old(uniques).next < u64::MAX,
        ensures
            r.unique.id == old(uniques).next,
            final(uniques).next == old(uniques).next + 1,
    {
        Var { unique: uniques.fresh() }
    }
}

/// A stretch of a source file.
#[derive(Debug, Clone, Copy, PartialEq, Eq, Structural)]
pub struct TextRange {
    pub start: u32,
    pub end: u32,
}

impl Default for TextRange {
    fn default() -> (r: Self)
        ensures
            r == (TextRange { start: 0, end: 0 }),
    {
        TextRange { start: 0, end: 0 }
    }
}

/// Tells apart the type parameters that are declared at one place.
#[derive(Debug, Clone, Copy, PartialEq, Eq, Structural)]
pub struct AnchorIndex {
    pub range: TextRange,
    pub index: u32,
}

impl AnchorIndex {
    pub fn first(range: TextRange) -> (r: AnchorIndex)
        ensures
            r == (AnchorIndex { range, index: 0 }),
    {
        AnchorIndex { range, index: 0 }
    }
}

/// The model of a [`QuantifiedIdentity`].
pub ghost struct QuantifiedIdentityView {
    pub module: Seq<char>,
    pub anchor: AnchorIndex,
    pub origin: QuantifiedOrigin,
}

/// Where a type parameter comes from.
#[derive(Debug)]
pub struct QuantifiedIdentity {
    pub module: ModuleName,
    pub anchor: AnchorIndex,
    pub origin: QuantifiedOrigin,
}

impl View for QuantifiedIdentity {
    type V = QuantifiedIdentityView;

    open spec fn view(&self) -> QuantifiedIdentityView {
        QuantifiedIdentityView {
            module: self.module@,
            anchor: self.anchor,
            origin: self.origin,
        }
    }
}

impl Clone for QuantifiedIdentity {
    fn clone(&self) -> (r: Self)
        ensures
            r == *self,
    {
        QuantifiedIdentity {
            module: self.module.clone(),
            anchor: self.anchor,
            origin: self.origin,
        }
    }
}

impl QuantifiedIdentity {
    pub fn new(module: ModuleName, anchor: AnchorIndex, origin: QuantifiedOrigin) -> (r: Self)
        ensures
            r@ == (QuantifiedIdentityView { module: module@, anchor, origin }),
    {
        QuantifiedIdentity { module, anchor, origin }
    }

    pub fn same(&self, other: &QuantifiedIdentity) -> (r: bool)
        ensures
            r == (self@ == other@),
    {
        self.module.same(&other.module) && self.anchor == other.anchor && self.origin
            == other.origin
    }
}

/// The model of a [`Class`].
pub ghost struct ClassView {
    pub qname: QNameView,
    pub index: u32,
    pub kind: ClassKind,
}

/// A class definition: its name, its place among the classes of its module, and what a call
/// of it means.
#[derive(Debug)]
pub struct Class {
    pub qname: QName,
    pub index: u32,
    pub kind: ClassKind,
}

impl View for Class {
    type V = ClassView;

    open spec fn view(&self) -> ClassView {
        ClassView { qname: self.qname@, index: self.index, kind: self.kind }
    }
}

impl Clone for Class {
    fn clone(&self) -> (r: Self)
        ensures
            r == *self,
    {
        Class { qname: self.qname.clone(), index: self.index, kind: self.kind }
    }
}

impl Class {
    pub fn new(qname: QName, index: u32, kind: ClassKind) -> (r: Class)
        ensures
            r@ == (ClassView { qname: qname@, index, kind }),
    {
        Class { qname, index, kind }
    }

    pub fn qname(&self) -> (r: &QName)
        ensures
            r@ == self@.qname,
    {
        &self.qname
    }

    pub fn kind(&self) -> (r: ClassKind)
        ensures
            r == self@.kind,
    {
        self.kind
    }

    pub fn same(&self, other: &Class) -> (r: bool)
        ensures
            r == (self@ == other@),
    {
        self.qname.same(&other.qname) && self.index == other.index && self.kind == other.kind
    }
}

/// The model of a [`FunctionKind`].
pub ghost enum FunctionKindView {
    AssertShape,
    Def(Seq<char>),
}

/// Which function a function type stands for, where that matters.
#[derive(Debug)]
pub enum FunctionKind {
    /// `assert_shape`, which the type checker treats specially.
    AssertShape,
    /// Any other function, by its name.
    Def(Name),
}

impl View for FunctionKind {
    type V = FunctionKindView;

    open spec fn view(&self) -> FunctionKindView {
        match self {
            FunctionKind::AssertShape => FunctionKindView::AssertShape,
            FunctionKind::Def(name) => FunctionKindView::Def(name@),
        }
    }
}

impl Clone for FunctionKind {
    fn clone(&self) -> (r: Self)
        ensures
            r == *self,
    {
        match self {
            FunctionKind::AssertShape => FunctionKind::AssertShape,
            FunctionKind::Def(name) => FunctionKind::Def(name.clone()),
        }
    }
}

impl FunctionKindView {
    /// The name that the function goes by.
    pub open spec fn function_name(self) -> Seq<char> {
        match self {
            FunctionKindView::AssertShape => "assert_shape"@,
            FunctionKindView::Def(name) => name,
        }
    }
}

impl FunctionKind {
    pub fn function_name(&self) -> (r: Name)
        ensures
            r@ == self@.function_name(),
    {
        match self {
            FunctionKind::AssertShape => Name::new_static("assert_shape"),
            FunctionKind::Def(name) => name.clone(),
        }
    }

    pub fn same(&self, other: &FunctionKind) -> (r: bool)
        ensures
            r == (self@ == other@),
    {
        match (self, other) {
            (FunctionKind::AssertShape, FunctionKind::AssertShape) => true,
            (FunctionKind::Def(a), FunctionKind::Def(b)) => a.same(b),
            _ => false,
        }
    }
}

/// The model of a [`Deprecation`].
pub ghost struct DeprecationView {
    pub message: Option<Seq<char>>,
}

/// That a function is deprecated, with the message to show.
#[derive(Debug)]
pub struct Deprecation {
    pub message: Option<Name>,
}

impl View for Deprecation {
    type V = DeprecationView;

    open spec fn view(&self) -> DeprecationView {
        DeprecationView {
            message: match self.message {
                Some(text) => Some(text@),
                None => None,
            },
        }
    }
}

impl Clone for Deprecation {
    fn clone(&self) -> (r: Self)
        ensures
            r == *self,
    {
        Deprecation {
            message: match &self.message {
                Some(text) => Some(text.clone()),
                None => None,
            },
        }
    }
}

impl Deprecation {
    pub fn same(&self, other: &Deprecation) -> (r: bool)
        ensures
            r == (self@ == other@),
    {
        match (&self.message, &other.message) {
            (Some(a), Some(b)) => a.same(b),
            (None, None) => true,
            _ => false,
        }
    }
}

/// The model of a [`LitInt`].
pub ghost struct LitIntView {
    pub negative: bool,
    pub magnitude: Seq<u64>,
}

/// An integer literal of any size: a sign and the limbs of its magnitude, the least
/// significant first.
#[derive(Debug)]
pub struct LitInt {
    pub negative: bool,
    pub magnitude: Vec<u64>,
}

impl View for LitInt {
    type V = LitIntView;

    open spec fn view(&self) -> LitIntView {
        LitIntView { negative: self.negative, magnitude: self.magnitude@ }
    }
}

/// A copy of a vector of words.
pub fn copy_words(words: &Vec<u64>) -> (r: Vec<u64>)
    ensures
        r@ == words@,
{
    let r = words.clone();
    assert(r@ =~= words@);
    r
}

/// A copy of a vector of bytes.
pub fn copy_bytes(bytes: &Vec<u8>) -> (r: Vec<u8>)
    ensures
        r@ == bytes@,
{
    let r = bytes.clone();
    assert(r@ =~= bytes@);
    r
}

/// Are the two vectors of words equal?
pub fn same_words(a: &Vec<u64>, b: &Vec<u64>) -> (r: bool)
    ensures
        r == (a@ == b@),
{
    if a.len() != b.len() {
        return false;
    }
    for i in 0..a.len()
        invariant
            a.len() == b.len(),
            a@.take(i as int) == b@.take(i as int),
    {
        if a[i] != b[i] {
            return false;
        }
        assert(a@.take(i + 1) =~= a@.take(i as int).push(a@[i as int]));
        assert(b@.take(i + 1) =~= b@.take(i as int).push(b@[i as int]));
    }
    assert(a@.take(a@.len() as int) =~= a@);
    assert(b@.take(b@.len() as int) =~= b@);
    true
}

/// Are the two vectors of bytes equal?
pub fn same_bytes(a: &Vec<u8>, b: &Vec<u8>) -> (r: bool)
    ensures
        r == (a@ == b@),
{
    if a.len() != b.len() {
        return false;
    }
    for i in 0..a.len()
        invariant
            a.len() == b.len(),
            a@.take(i as int) == b@.take(i as int),
    {
        if a[i] != b[i] {
            return false;
        }
        assert(a@.take(i + 1) =~= a@.take(i as int).push(a@[i as int]));
        assert(b@.take(i + 1) =~= b@.take(i as int).push(b@[i as int]));
    }
    assert(a@.take(a@.len() as int) =~= a@);
    assert(b@.take(b@.len() as int) =~= b@);
    true
}

impl Clone for LitInt {
    fn clone(&self) -> (r: Self)
        ensures
            r@ == self@,
    {
        LitInt { negative: self.negative, magnitude: copy_words(&self.magnitude) }
    }
}

impl LitIntView {
    /// Is the integer different from zero?
    pub open spec fn nonzero(self) -> bool {
        exists|i: int| 0 <= i < self.magnitude.len() && self.magnitude[i] != 0
    }
}

impl LitInt {
    pub fn from_i64(n: i64) -> (r: LitInt)
        ensures
            r@.negative == (n < 0),
            r@.magnitude == seq![if n < 0 { -n } else { n as int } as u64],
    {
        let size: u64 = if n >= 0 {
            n as u64
        } else {
            (-(n + 1)) as u64 + 1
        };
        let mut magnitude: Vec<u64> = Vec::new();
        magnitude.push(size);
        assert(magnitude@ =~= seq![if n < 0 { -n } else { n as int } as u64]);
        LitInt { negative: n < 0, magnitude }
    }

    /// The truth value of the integer.
    pub fn as_bool(&self) -> (r: bool)
        ensures
            r == self@.nonzero(),
    {
        for i in 0..self.magnitude.len()
            invariant
                forall|j: int| 0 <= j < i ==> self.magnitude@[j] == 0,
        {
            if self.magnitude[i] != 0 {
                assert(self@.magnitude[i as int] != 0);
                return true;
            }
        }
        false
    }

    pub fn same(&self, other: &LitInt) -> (r: bool)
        ensures
            r == (self@ == other@),
    {
        self.negative == other.negative && same_words(&self.magnitude, &other.magnitude)
    }
}

/// A module used as a value.
#[derive(Debug)]
pub struct ModuleType {
    pub name: ModuleName,
}

impl View for ModuleType {
    type V = Seq<char>;

    open spec fn view(&self) -> Seq<char> {
        self.name@
    }
}

impl Clone for ModuleType {
    fn clone(&self) -> (r: Self)
        ensures
            r == *self,
    {
        ModuleType { name: self.name.clone() }
    }
}

impl ModuleType {
    pub fn same(&self, other: &ModuleType) -> (r: bool)
        ensures
            r == (self@ == other@),
    {
        self.name.same(&other.name)
    }
}

/// A legacy `typing.TypeVar`.
#[derive(Debug)]
pub struct TypeVar {
    pub qname: QName,
}

impl View for TypeVar {
    type V = QNameView;

    open spec fn view(&self) -> QNameView {
        self.qname@
    }
}

impl Clone for TypeVar {
    fn clone(&self) -> (r: Self)
        ensures
            r == *self,
    {
        TypeVar { qname: self.qname.clone() }
    }
}

impl TypeVar {
    pub fn qname(&self) -> (r: &QName)
        ensures
            r@ == self@,
    {
        &self.qname
    }

    pub fn same(&self, other: &TypeVar) -> (r: bool)
        ensures
            r == (self@ == other@),
    {
        self.qname.same(&other.qname)
    }
}

/// A legacy `typing.ParamSpec`.
#[derive(Debug)]
pub struct ParamSpec {
    pub qname: QName,
}

impl View for ParamSpec {
    type V = QNameView;

    open spec fn view(&self) -> QNameView {
        self.qname@
    }
}

impl Clone for ParamSpec {
    fn clone(&self) -> (r: Self)
        ensures
            r == *self,
    {
        ParamSpec { qname: self.qname.clone() }
    }
}

impl ParamSpec {
    pub fn qname(&self) -> (r: &QName)
        ensures
            r@ == self@,
    {
        &self.qname
    }

    pub fn same(&self, other: &ParamSpec) -> (r: bool)
        ensures
            r == (self@ == other@),
    {
        self.qname.same(&other.qname)
    }
}

/// A legacy `typing.TypeVarTuple`.
#[derive(Debug)]
pub struct TypeVarTuple {
    pub qname: QName,
}

impl View for TypeVarTuple {
    type V = QNameView;

    open spec fn view(&self) -> QNameView {
        self.qname@
    }
}

impl Clone for TypeVarTuple {
    fn clone(&self) -> (r: Self)
        ensures
            r == *self,
    {
        TypeVarTuple { qname: self.qname.clone() }
    }
}

impl TypeVarTuple {
    pub fn qname(&self) -> (r: &QName)
        ensures
            r@ == self@,
    {
        &self.qname
    }

    pub fn same(&self, other: &TypeVarTuple) -> (r: bool)
        ensures
            r == (self@ == other@),
    {
        self.qname.same(&other.qname)
    }
}

/// A sentinel value that has a type of its own.
#[derive(Debug)]
pub struct Sentinel {
    pub qname: QName,
}

impl View for Sentinel {
    type V = QNameView;

    open spec fn view(&self) -> QNameView {
        self.qname@
    }
}

impl Clone for Sentinel {
    fn clone(&self) -> (r: Self)
        ensures
            r == *self,
    {
        Sentinel { qname: self.qname.clone() }
    }
}

impl Sentinel {
    pub fn qname(&self) -> (r: &QName)
        ensures
            r@ == self@,
    {
        &self.qname
    }

    pub fn same(&self, other: &Sentinel) -> (r: bool)
        ensures
            r == (self@ == other@),
    {
        self.qname.same(&other.qname)
    }
}

} // verus!
