//! Expressions, effects and value definitions of the element tree, and
//! their models.

use vstd::prelude::*;

use crate::element::types::{
    types_view, typevars_view, DamlTyCon, DamlTyConName, DamlType, DamlTypeVarWithKind, TyConNameV, TypeV,
    TypeVarV,
};
use crate::element::types::names_view;

verus! {

/// A builtin function.
#[derive(Debug, Clone, Copy, PartialEq, Eq, Structural)]
pub enum DamlBuiltinFunction {
    Trace,
    Error,
    Equal,
    LessEq,
    Less,
    GreaterEq,
    Greater,
    AddInt64,
    SubInt64,
    MulInt64,
    DivInt64,
    ModInt64,
    ExpInt64,
    AddNumeric,
    SubNumeric,
    MulNumeric,
    DivNumeric,
    RoundNumeric,
    CastNumeric,
    ShiftNumeric,
    Int64ToNumeric,
    NumericToInt64,
    Int64ToText,
    NumericToText,
    TimestampToText,
    DateToText,
    PartyToText,
    TextToParty,
    TextToInt64,
    TextToNumeric,
    ContractIdToText,
    Sha256Text,
    ExplodeText,
    AppendText,
    ImplodeText,
    CodePointsToText,
    TextPointsToCode,
    DateToUnixDays,
    UnixDaysToDate,
    TimestampToUnixMicroseconds,
    UnixMicrosecondsToTimestamp,
    CoerceContractId,
    Foldl,
    Foldr,
    EqualList,
    GenmapEmpty,
    GenmapInsert,
    GenmapLookup,
    GenmapDelete,
    GenmapKeys,
    GenmapValues,
    GenmapSize,
    TextmapEmpty,
    TextmapInsert,
    TextmapLookup,
    TextmapDelete,
    TextmapToList,
    TextmapSize,
    AnyExceptionMessage,
    ScaleBignumeric,
    PrecisionBignumeric,
    AddBignumeric,
    SubBignumeric,
    MulBignumeric,
    DivBignumeric,
    ShiftRightBignumeric,
    BigNumericToNumeric,
    NumericToBigNumeric,
    BigNumericToText,
    FailWithStatus,
    Keccak256Text,
    Secp256k1Bool,
    Secp256k1WithEcdsaBool,
    Secp256k1ValidateKey,
    HexToText,
    TextToHex,
    Sha256Hex,
    TypeRepTyconName,
}

impl View for DamlBuiltinFunction {
    type V = DamlBuiltinFunction;

    open spec fn view(&self) -> DamlBuiltinFunction {
        *self
    }
}

/// A builtin constructor.
#[derive(Debug, Clone, Copy, PartialEq, Eq, Structural)]
pub enum DamlPrimCon {
    Unit,
    False,
    True,
}

impl View for DamlPrimCon {
    type V = DamlPrimCon;

    open spec fn view(&self) -> DamlPrimCon {
        *self
    }
}

/// How a numeric is rounded.
#[derive(Debug, Clone, Copy, PartialEq, Eq, Structural)]
pub enum RoundingMode {
    Up,
    Down,
    Ceiling,
    Floor,
    HalfUp,
    HalfDown,
    HalfEven,
    Unnecessary,
}

/// The category of a failure.
#[derive(Debug, Clone, Copy, PartialEq, Eq, Structural)]
pub enum FailureCategory {
    InvalidIndependentOfSystemState,
    InvalidGivenCurrentSystemStateOther,
}

/// A literal.
#[derive(Debug)]
pub enum DamlPrimLit {
    Int64(i64),
    Timestamp(i64),
    Date(i32),
    Numeric(String),
    Text(String),
    RoundingMode(RoundingMode),
    FailureCategory(FailureCategory),
}

/// The model of a literal.
pub enum PrimLitV {
    Int64(i64),
    Timestamp(i64),
    Date(i32),
    Numeric(Seq<char>),
    Text(Seq<char>),
    RoundingMode(RoundingMode),
    FailureCategory(FailureCategory),
}

impl View for DamlPrimLit {
    type V = PrimLitV;

    open spec fn view(&self) -> PrimLitV {
        match self {
            DamlPrimLit::Int64(v) => PrimLitV::Int64(*v),
            DamlPrimLit::Timestamp(v) => PrimLitV::Timestamp(*v),
            DamlPrimLit::Date(v) => PrimLitV::Date(*v),
            DamlPrimLit::Numeric(s) => PrimLitV::Numeric(s@),
            DamlPrimLit::Text(s) => PrimLitV::Text(s@),
            DamlPrimLit::RoundingMode(m) => PrimLitV::RoundingMode(*m),
            DamlPrimLit::FailureCategory(c) => PrimLitV::FailureCategory(*c),
        }
    }
}

/// The name of a value definition: its name, its package and module.
#[derive(Debug)]
pub struct DamlValueName {
    pub name: String,
    pub package_id: String,
    pub package_name: String,
    pub module_segments: Vec<String>,
}

/// The model of a value name.
pub struct ValueNameV {
    pub name: Seq<char>,
    pub package_id: Seq<char>,
    pub package_name: Seq<char>,
    pub module_segments: Seq<Seq<char>>,
}

impl DamlValueName {
    /// The package id, module path and name this value name refers to.
    pub fn reference_parts(&self) -> (parts: (&str, &Vec<String>, &str))
        ensures
            parts.0@ == self.package_id@,
            names_view(parts.1@) == names_view(self.module_segments@),
            parts.2@ == self.name@,
    {
        (self.package_id.as_str(), &self.module_segments, self.name.as_str())
    }
}

impl View for DamlValueName {
    type V = ValueNameV;

    open spec fn view(&self) -> ValueNameV {
        ValueNameV {
            name: self.name@,
            package_id: self.package_id@,
            package_name: self.package_name@,
            module_segments: names_view(self.module_segments@),
        }
    }
}

/// A variable and its type.
#[derive(Debug)]
pub struct DamlVarWithType {
    pub var: String,
    pub ty: DamlType,
}

/// The model of a variable and its type.
pub struct VarTypeV {
    pub var: Seq<char>,
    pub ty: TypeV,
}

impl View for DamlVarWithType {
    type V = VarTypeV;

    open spec fn view(&self) -> VarTypeV {
        VarTypeV { var: self.var@, ty: self.ty@ }
    }
}

pub open spec fn var_types_view(vs: Seq<DamlVarWithType>) -> Seq<VarTypeV> {
    vs.map_values(|v: DamlVarWithType| v@)
}

/// A type constructor applied to arguments, by its model.
pub open spec fn tycon_view(c: DamlTyCon) -> (TyConNameV, Seq<TypeV>) {
    ((*c.tycon)@, types_view(c.type_arguments@))
}

/// A field and the expression it is given.
#[derive(Debug)]
pub struct DamlFieldWithExpr {
    pub name: String,
    pub expr: DamlExpr,
}

pub struct FieldExprV {
    pub name: Seq<char>,
    pub expr: ExprV,
}

/// A variable bound to an expression.
#[derive(Debug)]
pub struct DamlBinding {
    pub binder: DamlVarWithType,
    pub bound: DamlExpr,
}

pub struct BindingV {
    pub binder: VarTypeV,
    pub bound: ExprV,
}

/// Bindings and the body they scope over.
#[derive(Debug)]
pub struct DamlBlock {
    pub bindings: Vec<DamlBinding>,
    pub body: Box<DamlExpr>,
}

pub struct BlockV {
    pub bindings: Seq<BindingV>,
    pub body: Box<ExprV>,
}

/// An alternative of a case expression.
#[derive(Debug)]
pub struct DamlCaseAlt {
    pub body: DamlExpr,
    pub sum: DamlCaseAltSum,
}

pub struct CaseAltV {
    pub body: ExprV,
    pub sum: CaseAltSumV,
}

/// The pattern of a case alternative.
#[derive(Debug)]
pub enum DamlCaseAltSum {
    Default,
    Variant { con: DamlTyConName, variant: String, binder: String },
    PrimCon(DamlPrimCon),
    Nil,
    Cons { var_head: String, var_tail: String },
    OptionalNone,
    OptionalSome { var_body: String },
    Enum { con: DamlTyConName, constructor: String },
}

pub enum CaseAltSumV {
    Default,
    Variant { con: TyConNameV, variant: Seq<char>, binder: Seq<char> },
    PrimCon(DamlPrimCon),
    Nil,
    Cons { var_head: Seq<char>, var_tail: Seq<char> },
    OptionalNone,
    OptionalSome { var_body: Seq<char> },
    Enum { con: TyConNameV, constructor: Seq<char> },
}

/// An expression.
#[derive(Debug)]
pub enum DamlExpr {
    Var(String),
    Val(DamlValueName),
    Builtin(DamlBuiltinFunction),
    PrimCon(DamlPrimCon),
    PrimLit(DamlPrimLit),
    Nil { ty: DamlType },
    OptionalNone { ty: DamlType },
    TypeRep(DamlType),
    RecCon { tycon: DamlTyCon, fields: Vec<DamlFieldWithExpr> },
    RecProj { tycon: DamlTyCon, record: Box<DamlExpr>, field: String },
    RecUpd { tycon: DamlTyCon, record: Box<DamlExpr>, update: Box<DamlExpr>, field: String },
    VariantCon { tycon: DamlTyCon, variant_arg: Box<DamlExpr>, variant_con: String },
    EnumCon { tycon: DamlTyConName, enum_con: String },
    StructCon { fields: Vec<DamlFieldWithExpr> },
    StructProj { struct_expr: Box<DamlExpr>, field: String },
    StructUpd { struct_expr: Box<DamlExpr>, update: Box<DamlExpr>, field: String },
    ToAny { ty: DamlType, expr: Box<DamlExpr> },
    FromAny { ty: DamlType, expr: Box<DamlExpr> },
    App { fun: Box<DamlExpr>, args: Vec<DamlExpr> },
    TyApp { expr: Box<DamlExpr>, types: Vec<DamlType> },
    Abs { params: Vec<DamlVarWithType>, body: Box<DamlExpr> },
    TyAbs { params: Vec<DamlTypeVarWithKind>, body: Box<DamlExpr> },
    Case { scrut: Box<DamlExpr>, alts: Vec<DamlCaseAlt> },
    Let(DamlBlock),
    Cons { ty: DamlType, front: Vec<DamlExpr>, tail: Box<DamlExpr> },
    OptionalSome { ty: DamlType, value: Box<DamlExpr> },
    ToAnyException { ty: DamlType, expr: Box<DamlExpr> },
    FromAnyException { ty: DamlType, expr: Box<DamlExpr> },
    Throw { return_type: DamlType, exception_type: DamlType, exception_expr: Box<DamlExpr> },
    ToInterface { interface_type: DamlTyConName, template_type: DamlTyConName, template_expr: Box<DamlExpr> },
    FromInterface { interface_type: DamlTyConName, template_type: DamlTyConName, interface_expr: Box<DamlExpr> },
    CallInterface { method: String, interface_type: DamlTyConName, interface_expr: Box<DamlExpr> },
    ViewInterface { interface: DamlTyConName, expr: Box<DamlExpr> },
    SignatoryInterface { interface: DamlTyConName, expr: Box<DamlExpr> },
    ObserverInterface { interface: DamlTyConName, expr: Box<DamlExpr> },
    UnsafeFromInterface { interface_type: DamlTyConName, template_type: DamlTyConName, contract_id_expr: Box<DamlExpr>, interface_expr: Box<DamlExpr> },
    ToRequiredInterface { required_interface: DamlTyConName, requiring_interface: DamlTyConName, expr: Box<DamlExpr> },
    FromRequiredInterface { required_interface: DamlTyConName, requiring_interface: DamlTyConName, expr: Box<DamlExpr> },
    UnsafeFromRequiredInterface { required_interface: DamlTyConName, requiring_interface: DamlTyConName, contract_id_expr: Box<DamlExpr>, interface_expr: Box<DamlExpr> },
    InterfaceTemplateTypeRep { interface: DamlTyConName, expr: Box<DamlExpr> },
    ChoiceController { choice: String, template: DamlTyConName, contract_expr: Box<DamlExpr>, choice_arg_expr: Box<DamlExpr> },
    ChoiceObserver { choice: String, template: DamlTyConName, contract_expr: Box<DamlExpr>, choice_arg_expr: Box<DamlExpr> },
    Update(Box<DamlUpdate>),
}

/// The model of an expression.
pub enum ExprV {
    Var(Seq<char>),
    Val(ValueNameV),
    Builtin(DamlBuiltinFunction),
    PrimCon(DamlPrimCon),
    PrimLit(PrimLitV),
    Nil { ty: TypeV },
    OptionalNone { ty: TypeV },
    TypeRep(TypeV),
    RecCon { tycon: (TyConNameV, Seq<TypeV>), fields: Seq<FieldExprV> },
    RecProj { tycon: (TyConNameV, Seq<TypeV>), record: Box<ExprV>, field: Seq<char> },
    RecUpd { tycon: (TyConNameV, Seq<TypeV>), record: Box<ExprV>, update: Box<ExprV>, field: Seq<char> },
    VariantCon { tycon: (TyConNameV, Seq<TypeV>), variant_arg: Box<ExprV>, variant_con: Seq<char> },
    EnumCon { tycon: TyConNameV, enum_con: Seq<char> },
    StructCon { fields: Seq<FieldExprV> },
    StructProj { struct_expr: Box<ExprV>, field: Seq<char> },
    StructUpd { struct_expr: Box<ExprV>, update: Box<ExprV>, field: Seq<char> },
    ToAny { ty: TypeV, expr: Box<ExprV> },
    FromAny { ty: TypeV, expr: Box<ExprV> },
    App { fun: Box<ExprV>, args: Seq<ExprV> },
    TyApp { expr: Box<ExprV>, types: Seq<TypeV> },
    Abs { params: Seq<VarTypeV>, body: Box<ExprV> },
    TyAbs { params: Seq<TypeVarV>, body: Box<ExprV> },
    Case { scrut: Box<ExprV>, alts: Seq<CaseAltV> },
    Let(BlockV),
    Cons { ty: TypeV, front: Seq<ExprV>, tail: Box<ExprV> },
    OptionalSome { ty: TypeV, value: Box<ExprV> },
    ToAnyException { ty: TypeV, expr: Box<ExprV> },
    FromAnyException { ty: TypeV, expr: Box<ExprV> },
    Throw { return_type: TypeV, exception_type: TypeV, exception_expr: Box<ExprV> },
    ToInterface { interface_type: TyConNameV, template_type: TyConNameV, template_expr: Box<ExprV> },
    FromInterface { interface_type: TyConNameV, template_type: TyConNameV, interface_expr: Box<ExprV> },
    CallInterface { method: Seq<char>, interface_type: TyConNameV, interface_expr: Box<ExprV> },
    ViewInterface { interface: TyConNameV, expr: Box<ExprV> },
    SignatoryInterface { interface: TyConNameV, expr: Box<ExprV> },
    ObserverInterface { interface: TyConNameV, expr: Box<ExprV> },
    UnsafeFromInterface { interface_type: TyConNameV, template_type: TyConNameV, contract_id_expr: Box<ExprV>, interface_expr: Box<ExprV> },
    ToRequiredInterface { required_interface: TyConNameV, requiring_interface: TyConNameV, expr: Box<ExprV> },
    FromRequiredInterface { required_interface: TyConNameV, requiring_interface: TyConNameV, expr: Box<ExprV> },
    UnsafeFromRequiredInterface { required_interface: TyConNameV, requiring_interface: TyConNameV, contract_id_expr: Box<ExprV>, interface_expr: Box<ExprV> },
    InterfaceTemplateTypeRep { interface: TyConNameV, expr: Box<ExprV> },
    ChoiceController { choice: Seq<char>, template: TyConNameV, contract_expr: Box<ExprV>, choice_arg_expr: Box<ExprV> },
    ChoiceObserver { choice: Seq<char>, template: TyConNameV, contract_expr: Box<ExprV>, choice_arg_expr: Box<ExprV> },
    Update(Box<UpdateV>),
}

/// An effect.
#[derive(Debug)]
pub enum DamlUpdate {
    Pure { ty: DamlType, expr: Box<DamlExpr> },
    Block(DamlBlock),
    Create { template: DamlTyConName, expr: Box<DamlExpr> },
    CreateInterface { interface: DamlTyConName, expr: Box<DamlExpr> },
    Exercise { template: DamlTyConName, cid: Box<DamlExpr>, arg: Box<DamlExpr>, choice: String },
    ExerciseInterface { interface: DamlTyConName, cid: Box<DamlExpr>, arg: Box<DamlExpr>, choice: String, guard: Option<Box<DamlExpr>> },
    ExerciseByKey { template: DamlTyConName, choice: String, key: Box<DamlExpr>, arg: Box<DamlExpr> },
    Fetch { template: DamlTyConName, cid: Box<DamlExpr> },
    FetchInterface { interface: DamlTyConName, cid: Box<DamlExpr> },
    GetTime,
    LookupByKey { template: DamlTyConName, key: Box<DamlExpr> },
    FetchByKey { template: DamlTyConName, key: Box<DamlExpr> },
    QueryNByKey { template: DamlTyConName },
    EmbedExpr { ty: DamlType, body: Box<DamlExpr> },
    TryCatch { return_type: DamlType, try_expr: Box<DamlExpr>, var: String, catch_expr: Box<DamlExpr> },
    LedgerTimeLt(Box<DamlExpr>),
}

/// The model of an effect.
pub enum UpdateV {
    Pure { ty: TypeV, expr: Box<ExprV> },
    Block(BlockV),
    Create { template: TyConNameV, expr: Box<ExprV> },
    CreateInterface { interface: TyConNameV, expr: Box<ExprV> },
    Exercise { template: TyConNameV, cid: Box<ExprV>, arg: Box<ExprV>, choice: Seq<char> },
    ExerciseInterface { interface: TyConNameV, cid: Box<ExprV>, arg: Box<ExprV>, choice: Seq<char>, guard: Option<Box<ExprV>> },
    ExerciseByKey { template: TyConNameV, choice: Seq<char>, key: Box<ExprV>, arg: Box<ExprV> },
    Fetch { template: TyConNameV, cid: Box<ExprV> },
    FetchInterface { interface: TyConNameV, cid: Box<ExprV> },
    GetTime,
    LookupByKey { template: TyConNameV, key: Box<ExprV> },
    FetchByKey { template: TyConNameV, key: Box<ExprV> },
    QueryNByKey { template: TyConNameV },
    EmbedExpr { ty: TypeV, body: Box<ExprV> },
    TryCatch { return_type: TypeV, try_expr: Box<ExprV>, var: Seq<char>, catch_expr: Box<ExprV> },
    LedgerTimeLt(Box<ExprV>),
}

pub open spec fn alt_sum_view(s: DamlCaseAltSum) -> CaseAltSumV {
    match s {
            DamlCaseAltSum::Default => CaseAltSumV::Default,
            DamlCaseAltSum::Variant { con, variant, binder } => CaseAltSumV::Variant { con: con@, variant: variant@, binder: binder@ },
            DamlCaseAltSum::PrimCon(con) => CaseAltSumV::PrimCon(con),
            DamlCaseAltSum::Nil => CaseAltSumV::Nil,
            DamlCaseAltSum::Cons { var_head, var_tail } => CaseAltSumV::Cons { var_head: var_head@, var_tail: var_tail@ },
            DamlCaseAltSum::OptionalNone => CaseAltSumV::OptionalNone,
            DamlCaseAltSum::OptionalSome { var_body } => CaseAltSumV::OptionalSome { var_body: var_body@ },
            DamlCaseAltSum::Enum { con, constructor } => CaseAltSumV::Enum { con: con@, constructor: constructor@ },
    }
}

pub open spec fn expr_view(e: DamlExpr) -> ExprV
    decreases e,
{
    match e {
            DamlExpr::Var(var) => ExprV::Var(var@),
            DamlExpr::Val(value) => ExprV::Val(value@),
            DamlExpr::Builtin(function) => ExprV::Builtin(function),
            DamlExpr::PrimCon(con) => ExprV::PrimCon(con),
            DamlExpr::PrimLit(lit) => ExprV::PrimLit(lit@),
            DamlExpr::Nil { ty } => ExprV::Nil { ty: ty@ },
            DamlExpr::OptionalNone { ty } => ExprV::OptionalNone { ty: ty@ },
            DamlExpr::TypeRep(ty) => ExprV::TypeRep(ty@),
            DamlExpr::RecCon { tycon, fields } => ExprV::RecCon { tycon: tycon_view(tycon), fields: field_exprs_view(fields@) },
            DamlExpr::RecProj { tycon, record, field } => ExprV::RecProj { tycon: tycon_view(tycon), record: Box::new(expr_view(*record)), field: field@ },
            DamlExpr::RecUpd { tycon, record, update, field } => ExprV::RecUpd { tycon: tycon_view(tycon), record: Box::new(expr_view(*record)), update: Box::new(expr_view(*update)), field: field@ },
            DamlExpr::VariantCon { tycon, variant_arg, variant_con } => ExprV::VariantCon { tycon: tycon_view(tycon), variant_arg: Box::new(expr_view(*variant_arg)), variant_con: variant_con@ },
            DamlExpr::EnumCon { tycon, enum_con } => ExprV::EnumCon { tycon: tycon@, enum_con: enum_con@ },
            DamlExpr::StructCon { fields } => ExprV::StructCon { fields: field_exprs_view(fields@) },
            DamlExpr::StructProj { struct_expr, field } => ExprV::StructProj { struct_expr: Box::new(expr_view(*struct_expr)), field: field@ },
            DamlExpr::StructUpd { struct_expr, update, field } => ExprV::StructUpd { struct_expr: Box::new(expr_view(*struct_expr)), update: Box::new(expr_view(*update)), field: field@ },
            DamlExpr::ToAny { ty, expr } => ExprV::ToAny { ty: ty@, expr: Box::new(expr_view(*expr)) },
            DamlExpr::FromAny { ty, expr } => ExprV::FromAny { ty: ty@, expr: Box::new(expr_view(*expr)) },
            DamlExpr::App { fun, args } => ExprV::App { fun: Box::new(expr_view(*fun)), args: exprs_view(args@) },
            DamlExpr::TyApp { expr, types } => ExprV::TyApp { expr: Box::new(expr_view(*expr)), types: types_view(types@) },
            DamlExpr::Abs { params, body } => ExprV::Abs { params: var_types_view(params@), body: Box::new(expr_view(*body)) },
            DamlExpr::TyAbs { params, body } => ExprV::TyAbs { params: typevars_view(params@), body: Box::new(expr_view(*body)) },
            DamlExpr::Case { scrut, alts } => ExprV::Case { scrut: Box::new(expr_view(*scrut)), alts: alts_view(alts@) },
            DamlExpr::Let(block) => ExprV::Let(block_view(block)),
            DamlExpr::Cons { ty, front, tail } => ExprV::Cons { ty: ty@, front: exprs_view(front@), tail: Box::new(expr_view(*tail)) },
            DamlExpr::OptionalSome { ty, value } => ExprV::OptionalSome { ty: ty@, value: Box::new(expr_view(*value)) },
            DamlExpr::ToAnyException { ty, expr } => ExprV::ToAnyException { ty: ty@, expr: Box::new(expr_view(*expr)) },
            DamlExpr::FromAnyException { ty, expr } => ExprV::FromAnyException { ty: ty@, expr: Box::new(expr_view(*expr)) },
            DamlExpr::Throw { return_type, exception_type, exception_expr } => ExprV::Throw { return_type: return_type@, exception_type: exception_type@, exception_expr: Box::new(expr_view(*exception_expr)) },
            DamlExpr::ToInterface { interface_type, template_type, template_expr } => ExprV::ToInterface { interface_type: interface_type@, template_type: template_type@, template_expr: Box::new(expr_view(*template_expr)) },
            DamlExpr::FromInterface { interface_type, template_type, interface_expr } => ExprV::FromInterface { interface_type: interface_type@, template_type: template_type@, interface_expr: Box::new(expr_view(*interface_expr)) },
            DamlExpr::CallInterface { method, interface_type, interface_expr } => ExprV::CallInterface { method: method@, interface_type: interface_type@, interface_expr: Box::new(expr_view(*interface_expr)) },
            DamlExpr::ViewInterface { interface, expr } => ExprV::ViewInterface { interface: interface@, expr: Box::new(expr_view(*expr)) },
            DamlExpr::SignatoryInterface { interface, expr } => ExprV::SignatoryInterface { interface: interface@, expr: Box::new(expr_view(*expr)) },
            DamlExpr::ObserverInterface { interface, expr } => ExprV::ObserverInterface { interface: interface@, expr: Box::new(expr_view(*expr)) },
            DamlExpr::UnsafeFromInterface { interface_type, template_type, contract_id_expr, interface_expr } => ExprV::UnsafeFromInterface { interface_type: interface_type@, template_type: template_type@, contract_id_expr: Box::new(expr_view(*contract_id_expr)), interface_expr: Box::new(expr_view(*interface_expr)) },
            DamlExpr::ToRequiredInterface { required_interface, requiring_interface, expr } => ExprV::ToRequiredInterface { required_interface: required_interface@, requiring_interface: requiring_interface@, expr: Box::new(expr_view(*expr)) },
            DamlExpr::FromRequiredInterface { required_interface, requiring_interface, expr } => ExprV::FromRequiredInterface { required_interface: required_interface@, requiring_interface: requiring_interface@, expr: Box::new(expr_view(*expr)) },
            DamlExpr::UnsafeFromRequiredInterface { required_interface, requiring_interface, contract_id_expr, interface_expr } => ExprV::UnsafeFromRequiredInterface { required_interface: required_interface@, requiring_interface: requiring_interface@, contract_id_expr: Box::new(expr_view(*contract_id_expr)), interface_expr: Box::new(expr_view(*interface_expr)) },
            DamlExpr::InterfaceTemplateTypeRep { interface, expr } => ExprV::InterfaceTemplateTypeRep { interface: interface@, expr: Box::new(expr_view(*expr)) },
            DamlExpr::ChoiceController { choice, template, contract_expr, choice_arg_expr } => ExprV::ChoiceController { choice: choice@, template: template@, contract_expr: Box::new(expr_view(*contract_expr)), choice_arg_expr: Box::new(expr_view(*choice_arg_expr)) },
            DamlExpr::ChoiceObserver { choice, template, contract_expr, choice_arg_expr } => ExprV::ChoiceObserver { choice: choice@, template: template@, contract_expr: Box::new(expr_view(*contract_expr)), choice_arg_expr: Box::new(expr_view(*choice_arg_expr)) },
            DamlExpr::Update(update) => ExprV::Update(Box::new(update_view(*update))),
    }
}

pub open spec fn update_view(u: DamlUpdate) -> UpdateV
    decreases u,
{
    match u {
            DamlUpdate::Pure { ty, expr } => UpdateV::Pure { ty: ty@, expr: Box::new(expr_view(*expr)) },
            DamlUpdate::Block(block) => UpdateV::Block(block_view(block)),
            DamlUpdate::Create { template, expr } => UpdateV::Create { template: template@, expr: Box::new(expr_view(*expr)) },
            DamlUpdate::CreateInterface { interface, expr } => UpdateV::CreateInterface { interface: interface@, expr: Box::new(expr_view(*expr)) },
            DamlUpdate::Exercise { template, cid, arg, choice } => UpdateV::Exercise { template: template@, cid: Box::new(expr_view(*cid)), arg: Box::new(expr_view(*arg)), choice: choice@ },
            DamlUpdate::ExerciseInterface { interface, cid, arg, choice, guard } => UpdateV::ExerciseInterface { interface: interface@, cid: Box::new(expr_view(*cid)), arg: Box::new(expr_view(*arg)), choice: choice@, guard: opt_expr_view(guard) },
            DamlUpdate::ExerciseByKey { template, choice, key, arg } => UpdateV::ExerciseByKey { template: template@, choice: choice@, key: Box::new(expr_view(*key)), arg: Box::new(expr_view(*arg)) },
            DamlUpdate::Fetch { template, cid } => UpdateV::Fetch { template: template@, cid: Box::new(expr_view(*cid)) },
            DamlUpdate::FetchInterface { interface, cid } => UpdateV::FetchInterface { interface: interface@, cid: Box::new(expr_view(*cid)) },
            DamlUpdate::GetTime => UpdateV::GetTime,
            DamlUpdate::LookupByKey { template, key } => UpdateV::LookupByKey { template: template@, key: Box::new(expr_view(*key)) },
            DamlUpdate::FetchByKey { template, key } => UpdateV::FetchByKey { template: template@, key: Box::new(expr_view(*key)) },
            DamlUpdate::QueryNByKey { template } => UpdateV::QueryNByKey { template: template@ },
            DamlUpdate::EmbedExpr { ty, body } => UpdateV::EmbedExpr { ty: ty@, body: Box::new(expr_view(*body)) },
            DamlUpdate::TryCatch { return_type, try_expr, var, catch_expr } => UpdateV::TryCatch { return_type: return_type@, try_expr: Box::new(expr_view(*try_expr)), var: var@, catch_expr: Box::new(expr_view(*catch_expr)) },
            DamlUpdate::LedgerTimeLt(time) => UpdateV::LedgerTimeLt(Box::new(expr_view(*time))),
    }
}

pub open spec fn opt_expr_view(o: Option<Box<DamlExpr>>) -> Option<Box<ExprV>>
    decreases o,
{
    match o {
        Some(e) => Some(Box::new(expr_view(*e))),
        None => None,
    }
}

pub open spec fn exprs_view(es: Seq<DamlExpr>) -> Seq<ExprV>
    decreases es,
{
    if es.len() == 0 {
        Seq::empty()
    } else {
        exprs_view(es.drop_last()).push(expr_view(es.last()))
    }
}

pub open spec fn field_expr_view(f: DamlFieldWithExpr) -> FieldExprV
    decreases f,
{
    FieldExprV { name: f.name@, expr: expr_view(f.expr) }
}

pub open spec fn field_exprs_view(fs: Seq<DamlFieldWithExpr>) -> Seq<FieldExprV>
    decreases fs,
{
    if fs.len() == 0 {
        Seq::empty()
    } else {
        field_exprs_view(fs.drop_last()).push(field_expr_view(fs.last()))
    }
}

pub open spec fn binding_view(b: DamlBinding) -> BindingV
    decreases b,
{
    BindingV { binder: b.binder@, bound: expr_view(b.bound) }
}

pub open spec fn bindings_view(bs: Seq<DamlBinding>) -> Seq<BindingV>
    decreases bs,
{
    if bs.len() == 0 {
        Seq::empty()
    } else {
        bindings_view(bs.drop_last()).push(binding_view(bs.last()))
    }
}

pub open spec fn block_view(b: DamlBlock) -> BlockV
    decreases b,
{
    BlockV { bindings: bindings_view(b.bindings@), body: Box::new(expr_view(*b.body)) }
}

pub open spec fn alt_view(a: DamlCaseAlt) -> CaseAltV
    decreases a,
{
    CaseAltV { body: expr_view(a.body), sum: alt_sum_view(a.sum) }
}

pub open spec fn alts_view(alts: Seq<DamlCaseAlt>) -> Seq<CaseAltV>
    decreases alts,
{
    if alts.len() == 0 {
        Seq::empty()
    } else {
        alts_view(alts.drop_last()).push(alt_view(alts.last()))
    }
}

impl View for DamlExpr {
    type V = ExprV;

    open spec fn view(&self) -> ExprV {
        expr_view(*self)
    }
}

impl View for DamlUpdate {
    type V = UpdateV;

    open spec fn view(&self) -> UpdateV {
        update_view(*self)
    }
}

impl View for DamlBlock {
    type V = BlockV;

    open spec fn view(&self) -> BlockV {
        block_view(*self)
    }
}

impl View for DamlCaseAltSum {
    type V = CaseAltSumV;

    open spec fn view(&self) -> CaseAltSumV {
        alt_sum_view(*self)
    }
}

/// A top-level value definition: its name, type and expression.
#[derive(Debug)]
pub struct DamlDefValue {
    pub name: String,
    pub ty: DamlType,
    pub expr: DamlExpr,
}

pub struct DefValueV {
    pub name: Seq<char>,
    pub ty: TypeV,
    pub expr: ExprV,
}

impl View for DamlDefValue {
    type V = DefValueV;

    open spec fn view(&self) -> DefValueV {
        DefValueV { name: self.name@, ty: self.ty@, expr: self.expr@ }
    }
}

impl DamlDefValue {
    pub fn new(name: String, ty: DamlType, expr: DamlExpr) -> (value: Self)
        ensures
            value.name == name,
            value.ty == ty,
            value.expr == expr,
    {
        DamlDefValue { name, ty, expr }
    }

    /// The name of this value.
    pub fn name(&self) -> (name: &str)
        ensures
            name@ == self.name@,
    {
        self.name.as_str()
    }

    /// A copy of the name of this value.
    pub fn name_clone(&self) -> (name: String)
        ensures
            name@ == self.name@,
    {
        self.name.clone()
    }

    /// The type of this value.
    pub fn ty(&self) -> (ty: &DamlType)
        ensures
            *ty == self.ty,
    {
        &self.ty
    }

    /// The expression of this value.
    pub fn expr(&self) -> (expr: &DamlExpr)
        ensures
            *expr == self.expr,
    {
        &self.expr
    }
}

} // verus!
