//! The Daml-LF 2 package model, as an archive carries it.
//!
//! Names are interned: definitions refer to entries of the package's string
//! and dotted-name tables by index, and types may refer to entries of its
//! type table. Fields the format requires are still optional here, as they
//! are on the wire; conversion reports their absence.

use vstd::prelude::*;

verus! {

/// An empty message, standing for a variant without a payload.
#[derive(Debug, Clone, Copy)]
pub struct Unit {}

/// The dotted name made of the interned strings at these indices.
#[derive(Debug)]
pub struct InternedDottedName {
    pub segments_interned_str: Vec<i32>,
}

/// A package's name and version, as interned strings.
#[derive(Debug)]
pub struct PackageMetadata {
    pub name_interned_str: i32,
    pub version_interned_str: i32,
}

/// An LF2 package.
#[derive(Debug)]
pub struct Package {
    pub modules: Vec<Module>,
    pub interned_strings: Vec<String>,
    pub interned_dotted_names: Vec<InternedDottedName>,
    pub metadata: Option<PackageMetadata>,
    pub interned_types: Vec<Type>,
    pub interned_kinds: Vec<Kind>,
    pub interned_exprs: Vec<Expr>,
}

/// The transitional LF1 feature flags of a module.
#[derive(Debug, Clone, Copy)]
pub struct FeatureFlags {
    pub forbid_party_literals: bool,
    pub dont_divulge_contract_ids_in_create_arguments: bool,
    pub dont_disclose_non_consuming_choices_to_observers: bool,
}

/// A module and its definitions.
#[derive(Debug)]
pub struct Module {
    pub name_interned_dname: i32,
    pub flags: Option<FeatureFlags>,
    pub synonyms: Vec<DefTypeSyn>,
    pub data_types: Vec<DefDataType>,
    pub templates: Vec<DefTemplate>,
    pub exceptions: Vec<DefException>,
    pub interfaces: Vec<DefInterface>,
    pub values: Vec<DefValue>,
}

/// A type synonym definition.
#[derive(Debug)]
pub struct DefTypeSyn {
    pub name_interned_dname: i32,
    pub params: Vec<TypeVarWithKind>,
    pub ty: Option<Type>,
}

/// A data type definition: a record, variant, enum or interface marker.
#[derive(Debug)]
pub struct DefDataType {
    pub name_interned_dname: i32,
    pub params: Vec<TypeVarWithKind>,
    pub serializable: bool,
    pub data_cons: Option<DataCons>,
}

/// The constructors of a data type.
#[derive(Debug)]
pub enum DataCons {
    Record(Fields),
    Variant(Fields),
    Enum(EnumConstructors),
    Interface(Unit),
}

/// The fields of a record, or the constructors of a variant.
#[derive(Debug)]
pub struct Fields {
    pub fields: Vec<FieldWithType>,
}

/// The constructor names of an enum, as interned strings.
#[derive(Debug)]
pub struct EnumConstructors {
    pub constructors_interned_str: Vec<i32>,
}

/// A field name and its type.
#[derive(Debug)]
pub struct FieldWithType {
    pub field_interned_str: i32,
    pub ty: Option<Type>,
}

/// A variable name and its type.
#[derive(Debug)]
pub struct VarWithType {
    pub var_interned_str: i32,
    pub ty: Option<Type>,
}

/// A template definition.
#[derive(Debug)]
pub struct DefTemplate {
    pub tycon_interned_dname: i32,
    pub param_interned_str: i32,
    pub choices: Vec<TemplateChoice>,
    pub implements: Vec<Implements>,
    pub key: Option<DefKey>,
}

/// A choice of a template or interface.
#[derive(Debug)]
pub struct TemplateChoice {
    pub name_interned_str: i32,
    pub consuming: bool,
    pub self_binder_interned_str: i32,
    pub arg_binder: Option<VarWithType>,
    pub ret_type: Option<Type>,
    /// Present only in LF 2.dev archives.
    pub authorizers: Option<Unit>,
}

/// An interface a template implements.
#[derive(Debug)]
pub struct Implements {
    pub interface: Option<TypeConId>,
}

/// A template's contract key.
#[derive(Debug)]
pub struct DefKey {
    pub ty: Option<Type>,
}

/// An interface definition.
#[derive(Debug)]
pub struct DefInterface {
    pub tycon_interned_dname: i32,
    pub param_interned_str: i32,
    pub methods: Vec<InterfaceMethod>,
    pub choices: Vec<TemplateChoice>,
    pub view: Option<Type>,
    pub required: Vec<TypeConId>,
}

/// A method of an interface.
#[derive(Debug)]
pub struct InterfaceMethod {
    pub method_interned_name: i32,
    pub ty: Option<Type>,
}

/// An exception definition.
#[derive(Debug)]
pub struct DefException {
    pub name_interned_dname: i32,
    /// The expression giving the exception's message.
    pub message: Option<Box<Expr>>,
}

/// Which package a module lives in.
#[derive(Debug)]
pub enum PackageRef {
    SelfPackageId(Unit),
    ImportedPackageIdInternedStr(i32),
    /// Present only in LF 2.dev archives.
    PackageImportId(i32),
}

#[derive(Debug)]
pub struct SelfOrImportedPackageId {
    pub sum: Option<PackageRef>,
}

/// A module, by package and interned dotted name.
#[derive(Debug)]
pub struct ModuleId {
    pub package_id: Option<SelfOrImportedPackageId>,
    pub module_name_interned_dname: i32,
}

/// A type constructor, by module and interned dotted name.
#[derive(Debug)]
pub struct TypeConId {
    pub module: Option<ModuleId>,
    pub name_interned_dname: i32,
}

/// A type synonym, by module and interned dotted name.
#[derive(Debug)]
pub struct TypeSynId {
    pub module: Option<ModuleId>,
    pub name_interned_dname: i32,
}

/// A kind.
#[derive(Debug)]
pub struct Kind {
    pub sum: Option<KindSum>,
}

#[derive(Debug)]
pub enum KindSum {
    Star(Unit),
    Nat(Unit),
    Arrow(Box<KindArrow>),
    InternedKind(i32),
}

#[derive(Debug)]
pub struct KindArrow {
    pub params: Vec<Kind>,
    pub result: Option<Box<Kind>>,
}

/// A type variable and its kind.
#[derive(Debug)]
pub struct TypeVarWithKind {
    pub var_interned_str: i32,
    pub kind: Option<Kind>,
}

/// The builtin types.
#[derive(Debug, Clone, Copy, PartialEq, Eq, Structural)]
pub enum BuiltinType {
    Unit,
    Bool,
    Int64,
    Date,
    Timestamp,
    Numeric,
    Party,
    Text,
    ContractId,
    Optional,
    List,
    Genmap,
    Textmap,
    Any,
    AnyException,
    TypeRep,
    Arrow,
    Update,
    Bignumeric,
    FailureCategory,
    RoundingMode,
}

/// A type.
#[derive(Debug)]
pub struct Type {
    pub sum: Option<TypeSum>,
}

#[derive(Debug)]
pub enum TypeSum {
    Var(TypeVar),
    Con(TypeCon),
    Syn(TypeSyn),
    Builtin(TypeBuiltin),
    Forall(Box<TypeForall>),
    Struct(TypeStruct),
    Nat(i64),
    InternedType(i32),
    /// A type applied to one argument; present only in LF 2.dev archives.
    Tapp(Box<TypeApp>),
}

#[derive(Debug)]
pub struct TypeVar {
    pub var_interned_str: i32,
    pub args: Vec<Type>,
}

#[derive(Debug)]
pub struct TypeCon {
    pub tycon: Option<TypeConId>,
    pub args: Vec<Type>,
}

#[derive(Debug)]
pub struct TypeSyn {
    pub tysyn: Option<TypeSynId>,
    pub args: Vec<Type>,
}

/// A builtin type, by its number in [`BuiltinType`] order, applied to
/// arguments.
#[derive(Debug)]
pub struct TypeBuiltin {
    pub builtin: i32,
    pub args: Vec<Type>,
}

#[derive(Debug)]
pub struct TypeForall {
    pub vars: Vec<TypeVarWithKind>,
    pub body: Option<Box<Type>>,
}

#[derive(Debug)]
pub struct TypeStruct {
    pub fields: Vec<FieldWithType>,
}

#[derive(Debug)]
pub struct TypeApp {
    pub lhs: Option<Box<Type>>,
    pub rhs: Option<Box<Type>>,
}

/// The builtin type numbered `code`, if there is one.
pub open spec fn spec_builtin_type(code: i32) -> Option<BuiltinType> {
    if code == 0 { Some(BuiltinType::Unit)
    } else if code == 1 { Some(BuiltinType::Bool)
    } else if code == 2 { Some(BuiltinType::Int64)
    } else if code == 3 { Some(BuiltinType::Date)
    } else if code == 4 { Some(BuiltinType::Timestamp)
    } else if code == 5 { Some(BuiltinType::Numeric)
    } else if code == 6 { Some(BuiltinType::Party)
    } else if code == 7 { Some(BuiltinType::Text)
    } else if code == 8 { Some(BuiltinType::ContractId)
    } else if code == 9 { Some(BuiltinType::Optional)
    } else if code == 10 { Some(BuiltinType::List)
    } else if code == 11 { Some(BuiltinType::Genmap)
    } else if code == 12 { Some(BuiltinType::Textmap)
    } else if code == 13 { Some(BuiltinType::Any)
    } else if code == 14 { Some(BuiltinType::AnyException)
    } else if code == 15 { Some(BuiltinType::TypeRep)
    } else if code == 16 { Some(BuiltinType::Arrow)
    } else if code == 17 { Some(BuiltinType::Update)
    } else if code == 18 { Some(BuiltinType::Bignumeric)
    } else if code == 19 { Some(BuiltinType::FailureCategory)
    } else if code == 20 { Some(BuiltinType::RoundingMode)
    } else { None }
}

impl BuiltinType {
    /// The builtin type numbered `code`, or `None` for an unknown number.
    pub fn from_i32(code: i32) -> (kind: Option<BuiltinType>)
        ensures
            kind == spec_builtin_type(code),
    {
        match code {
            0 => Some(BuiltinType::Unit),
            1 => Some(BuiltinType::Bool),
            2 => Some(BuiltinType::Int64),
            3 => Some(BuiltinType::Date),
            4 => Some(BuiltinType::Timestamp),
            5 => Some(BuiltinType::Numeric),
            6 => Some(BuiltinType::Party),
            7 => Some(BuiltinType::Text),
            8 => Some(BuiltinType::ContractId),
            9 => Some(BuiltinType::Optional),
            10 => Some(BuiltinType::List),
            11 => Some(BuiltinType::Genmap),
            12 => Some(BuiltinType::Textmap),
            13 => Some(BuiltinType::Any),
            14 => Some(BuiltinType::AnyException),
            15 => Some(BuiltinType::TypeRep),
            16 => Some(BuiltinType::Arrow),
            17 => Some(BuiltinType::Update),
            18 => Some(BuiltinType::Bignumeric),
            19 => Some(BuiltinType::FailureCategory),
            20 => Some(BuiltinType::RoundingMode),
            _ => None,
        }
    }
}

} // verus!

verus! {

/// An expression.
#[derive(Debug)]
pub struct Expr {
    pub sum: Option<ExprSum>,
}

/// The forms of an expression. A builtin function, a builtin constructor
/// and the members of the literal enums are given by numbers. This model
/// numbers them itself, in the order the conversion's tables list them
/// (`spec_builtin_of` and its siblings); data decoded from the wire, where
/// the protocol's own numbering applies, has to be mapped to it.
#[derive(Debug)]
pub enum ExprSum {
    VarInternedStr(i32),
    Val(ValueId),
    Builtin(i32),
    BuiltinCon(i32),
    BuiltinLit(BuiltinLit),
    Nil { ty: Option<Type> },
    OptionalNone { ty: Option<Type> },
    TypeRep(Type),
    RecCon { tycon: Option<TypeCon>, fields: Vec<FieldWithExpr> },
    RecProj { tycon: Option<TypeCon>, record: Option<Box<Expr>>, field_interned_str: i32 },
    RecUpd { tycon: Option<TypeCon>, record: Option<Box<Expr>>, update: Option<Box<Expr>>, field_interned_str: i32 },
    VariantCon { tycon: Option<TypeCon>, variant_arg: Option<Box<Expr>>, variant_con_interned_str: i32 },
    EnumCon { tycon: Option<TypeConId>, enum_con_interned_str: i32 },
    StructCon { fields: Vec<FieldWithExpr> },
    StructProj { struct_expr: Option<Box<Expr>>, field_interned_str: i32 },
    StructUpd { struct_expr: Option<Box<Expr>>, update: Option<Box<Expr>>, field_interned_str: i32 },
    ToAny { ty: Option<Type>, expr: Option<Box<Expr>> },
    FromAny { ty: Option<Type>, expr: Option<Box<Expr>> },
    App { fun: Option<Box<Expr>>, args: Vec<Expr> },
    TyApp { expr: Option<Box<Expr>>, types: Vec<Type> },
    Abs { params: Vec<VarWithType>, body: Option<Box<Expr>> },
    TyAbs { params: Vec<TypeVarWithKind>, body: Option<Box<Expr>> },
    Case { scrut: Option<Box<Expr>>, alts: Vec<CaseAlt> },
    Let(Box<Block>),
    Cons { ty: Option<Type>, front: Vec<Expr>, tail: Option<Box<Expr>> },
    OptionalSome { ty: Option<Type>, value: Option<Box<Expr>> },
    ToAnyException { ty: Option<Type>, expr: Option<Box<Expr>> },
    FromAnyException { ty: Option<Type>, expr: Option<Box<Expr>> },
    Throw { return_type: Option<Type>, exception_type: Option<Type>, exception_expr: Option<Box<Expr>> },
    ToInterface { interface_type: Option<TypeConId>, template_type: Option<TypeConId>, template_expr: Option<Box<Expr>> },
    FromInterface { interface_type: Option<TypeConId>, template_type: Option<TypeConId>, interface_expr: Option<Box<Expr>> },
    CallInterface { method_interned_str: i32, interface_type: Option<TypeConId>, interface_expr: Option<Box<Expr>> },
    ViewInterface { interface: Option<TypeConId>, expr: Option<Box<Expr>> },
    SignatoryInterface { interface: Option<TypeConId>, expr: Option<Box<Expr>> },
    ObserverInterface { interface: Option<TypeConId>, expr: Option<Box<Expr>> },
    UnsafeFromInterface { interface_type: Option<TypeConId>, template_type: Option<TypeConId>, contract_id_expr: Option<Box<Expr>>, interface_expr: Option<Box<Expr>> },
    ToRequiredInterface { required_interface: Option<TypeConId>, requiring_interface: Option<TypeConId>, expr: Option<Box<Expr>> },
    FromRequiredInterface { required_interface: Option<TypeConId>, requiring_interface: Option<TypeConId>, expr: Option<Box<Expr>> },
    UnsafeFromRequiredInterface { required_interface: Option<TypeConId>, requiring_interface: Option<TypeConId>, contract_id_expr: Option<Box<Expr>>, interface_expr: Option<Box<Expr>> },
    InterfaceTemplateTypeRep { interface: Option<TypeConId>, expr: Option<Box<Expr>> },
    ChoiceController { choice_interned_str: i32, template: Option<TypeConId>, contract_expr: Option<Box<Expr>>, choice_arg_expr: Option<Box<Expr>> },
    ChoiceObserver { choice_interned_str: i32, template: Option<TypeConId>, contract_expr: Option<Box<Expr>>, choice_arg_expr: Option<Box<Expr>> },
    Update(Box<Update>),
    /// An entry of the package's table of interned expressions.
    InternedExpr(i32),
    /// An LF 2.dev experimental expression.
    Experimental(Unit),
}

#[derive(Debug)]
pub enum UpdateSum {
    Pure { ty: Option<Type>, expr: Option<Box<Expr>> },
    Block(Block),
    Create { template: Option<TypeConId>, expr: Option<Box<Expr>> },
    CreateInterface { interface: Option<TypeConId>, expr: Option<Box<Expr>> },
    Exercise { template: Option<TypeConId>, cid: Option<Box<Expr>>, arg: Option<Box<Expr>>, choice_interned_str: i32 },
    ExerciseInterface { interface: Option<TypeConId>, cid: Option<Box<Expr>>, arg: Option<Box<Expr>>, choice_interned_str: i32, guard: Option<Box<Expr>> },
    ExerciseByKey { template: Option<TypeConId>, choice_interned_str: i32, key: Option<Box<Expr>>, arg: Option<Box<Expr>> },
    Fetch { template: Option<TypeConId>, cid: Option<Box<Expr>> },
    FetchInterface { interface: Option<TypeConId>, cid: Option<Box<Expr>> },
    GetTime(Unit),
    LookupByKey { template: Option<TypeConId> },
    FetchByKey { template: Option<TypeConId> },
    QueryNByKey { template: Option<TypeConId> },
    EmbedExpr { ty: Option<Type>, body: Option<Box<Expr>> },
    TryCatch { return_type: Option<Type>, try_expr: Option<Box<Expr>>, var_interned_str: i32, catch_expr: Option<Box<Expr>> },
    LedgerTimeLt(Box<Expr>),
}

#[derive(Debug)]
pub enum CaseAltSum {
    Default(Unit),
    Variant { con: Option<TypeConId>, variant_interned_str: i32, binder_interned_str: i32 },
    BuiltinCon(i32),
    Nil(Unit),
    Cons { var_head_interned_str: i32, var_tail_interned_str: i32 },
    OptionalNone(Unit),
    OptionalSome { var_body_interned_str: i32 },
    Enum { con: Option<TypeConId>, constructor_interned_str: i32 },
}
/// An effect.
#[derive(Debug)]
pub struct Update {
    pub sum: Option<UpdateSum>,
}

/// An alternative of a case expression: its pattern and its body.
#[derive(Debug)]
pub struct CaseAlt {
    pub body: Option<Box<Expr>>,
    pub sum: Option<CaseAltSum>,
}

/// Bindings and the body they scope over.
#[derive(Debug)]
pub struct Block {
    pub bindings: Vec<Binding>,
    pub body: Option<Box<Expr>>,
}

/// A variable bound to an expression.
#[derive(Debug)]
pub struct Binding {
    pub binder: Option<VarWithType>,
    pub bound: Option<Box<Expr>>,
}

/// A field and the expression it is given.
#[derive(Debug)]
pub struct FieldWithExpr {
    pub field_interned_str: i32,
    pub expr: Option<Box<Expr>>,
}

/// A reference to a value definition: its module and dotted name.
#[derive(Debug)]
pub struct ValueId {
    pub module: Option<ModuleId>,
    pub name_interned_dname: i32,
}

/// A literal.
#[derive(Debug)]
pub struct BuiltinLit {
    pub sum: Option<BuiltinLitSum>,
}

#[derive(Debug)]
pub enum BuiltinLitSum {
    Int64(i64),
    Timestamp(i64),
    Date(i32),
    NumericInternedStr(i32),
    TextInternedStr(i32),
    RoundingMode(i32),
    FailureCategory(i32),
}

/// A top-level value definition.
#[derive(Debug)]
pub struct DefValue {
    pub name_with_type: Option<ValueNameWithType>,
    pub expr: Option<Box<Expr>>,
}

/// The dotted name and type of a value definition.
#[derive(Debug)]
pub struct ValueNameWithType {
    pub name_interned_dname: i32,
    pub ty: Option<Type>,
}

} // verus!
