//! Converting LF2 expressions, effects and value definitions.

use vstd::prelude::*;

use crate::convert::interned::{spec_resolve_dotted, spec_resolve_string, PackageInternedResolver};
use crate::convert::package_payload::DamlPackagePayload;
use crate::convert::type_payload::{
    convert_tycon_id, convert_type, convert_type_name, convert_types_with_fuel, convert_typevars, spec_convert_tycon_id,
    spec_convert_type, spec_convert_type_name, spec_convert_types, spec_convert_typevars, type_fuel,
};
use crate::element::expr::{
    alt_view, alts_view, binding_view, bindings_view, expr_view, exprs_view, field_expr_view, field_exprs_view,
    opt_expr_view, tycon_view, var_types_view, BindingV, BlockV, CaseAltSumV, CaseAltV, DamlBinding, DamlBlock,
    DamlBuiltinFunction, DamlCaseAlt, DamlCaseAltSum, DamlDefValue, DamlExpr, DamlFieldWithExpr, DamlPrimCon,
    DamlPrimLit, DamlUpdate, DamlValueName, DamlVarWithType, DefValueV, ExprV, FailureCategory, FieldExprV, PrimLitV,
    RoundingMode, UpdateV, ValueNameV, VarTypeV,
};
use crate::element::types::{
    names_view, types_view, DamlTyCon, DamlTyConName, DamlType, TyConNameV, TypeV,
};
use crate::error::{result_view, ConvertErrorV, DamlLfConvertError, DamlLfConvertResult};
use crate::lf2;
use crate::text::{int_text, join, spec_int_text, spec_join};
use crate::version::spec_version_text;

verus! {

/// The text of the error an interned-expression reference gives: the table
/// of interned expressions is not carried over to the element layer.
pub open spec fn interned_expr_text() -> Seq<char> {
    "interned-expr references are not supported"@
}

/// `pre` before what `r` holds, or the failure of `r`.
pub open spec fn prepend<V>(pre: Seq<V>, r: Result<Seq<V>, ConvertErrorV>) -> Result<Seq<V>, ConvertErrorV> {
    match r {
        Ok(rest) => Ok(pre + rest),
        Err(e) => Err(e),
    }
}

proof fn lemma_prepend_step<V>(pre: Seq<V>, v: V, r: Result<Seq<V>, ConvertErrorV>)
    ensures
        prepend(
            pre,
            match r {
                Err(e) => Err(e),
                Ok(rest) => Ok(seq![v] + rest),
            },
        ) == prepend(pre.push(v), r),
{
    if let Ok(rest) = r {
        assert(pre + (seq![v] + rest) =~= pre.push(v) + rest);
    }
}

pub open spec fn spec_req_type<'a>(o: Option<lf2::Type>, p: DamlPackagePayload<'a>) -> Result<TypeV, ConvertErrorV> {
    match o {
        None => Err(ConvertErrorV::MissingRequiredField),
        Some(t) => spec_convert_type(t, p, type_fuel(p)),
    }
}

pub open spec fn spec_req_tycon_id<'a>(o: Option<lf2::TypeConId>, p: DamlPackagePayload<'a>) -> Result<TyConNameV, ConvertErrorV> {
    match o {
        None => Err(ConvertErrorV::MissingRequiredField),
        Some(id) => spec_convert_tycon_id(id, p),
    }
}

/// A type constructor and its arguments.
pub open spec fn spec_req_type_con<'a>(o: Option<lf2::TypeCon>, p: DamlPackagePayload<'a>) -> Result<
    (TyConNameV, Seq<TypeV>),
    ConvertErrorV,
> {
    match o {
        None => Err(ConvertErrorV::MissingRequiredField),
        Some(c) => match c.tycon {
            None => Err(ConvertErrorV::MissingRequiredField),
            Some(id) => match spec_convert_tycon_id(id, p) {
                Err(e) => Err(e),
                Ok(n) => match spec_convert_types(c.args@, p, type_fuel(p)) {
                    Err(e) => Err(e),
                    Ok(args) => Ok((n, args)),
                },
            },
        },
    }
}

/// The value name an absolute name gives.
pub open spec fn value_name_of(n: TyConNameV) -> ValueNameV {
    match n {
        TyConNameV::Local { data_name, package_id, package_name, module_segments } => ValueNameV {
            name: data_name,
            package_id,
            package_name,
            module_segments,
        },
        TyConNameV::NonLocal { data_name, target_package_id, target_package_name, module_segments, .. } => ValueNameV {
            name: data_name,
            package_id: target_package_id,
            package_name: target_package_name,
            module_segments,
        },
        TyConNameV::Absolute { data_name, package_id, package_name, module_segments } => ValueNameV {
            name: data_name,
            package_id,
            package_name,
            module_segments,
        },
    }
}

pub open spec fn package_import_text() -> Seq<char> {
    "PackageImportId in value-name PackageRef"@
}

/// The name a value reference names: as a type constructor is named, its
/// last segment the name; a 2.dev package import is refused.
pub open spec fn spec_convert_value_id<'a>(v: lf2::ValueId, p: DamlPackagePayload<'a>) -> Result<ValueNameV, ConvertErrorV> {
    match v.module {
        Some(m) if m.package_id matches Some(r) && r.sum matches Some(lf2::PackageRef::PackageImportId(_)) => Err(
            ConvertErrorV::UnsupportedFeatureUsed(spec_version_text(p.language_version), package_import_text(), "2.dev"@),
        ),
        _ => match spec_convert_type_name(v.module, v.name_interned_dname, p) {
            Err(e) => Err(e),
            Ok(n) => Ok(value_name_of(n)),
        },
    }
}

/// The builtin function numbered `code`.
pub open spec fn spec_builtin_of(code: i32) -> Result<DamlBuiltinFunction, ConvertErrorV> {
    if code == 0 {
        Ok(DamlBuiltinFunction::Trace)
    } else if code == 1 {
        Ok(DamlBuiltinFunction::Error)
    } else if code == 2 {
        Ok(DamlBuiltinFunction::Equal)
    } else if code == 3 {
        Ok(DamlBuiltinFunction::LessEq)
    } else if code == 4 {
        Ok(DamlBuiltinFunction::Less)
    } else if code == 5 {
        Ok(DamlBuiltinFunction::GreaterEq)
    } else if code == 6 {
        Ok(DamlBuiltinFunction::Greater)
    } else if code == 7 {
        Ok(DamlBuiltinFunction::AddInt64)
    } else if code == 8 {
        Ok(DamlBuiltinFunction::SubInt64)
    } else if code == 9 {
        Ok(DamlBuiltinFunction::MulInt64)
    } else if code == 10 {
        Ok(DamlBuiltinFunction::DivInt64)
    } else if code == 11 {
        Ok(DamlBuiltinFunction::ModInt64)
    } else if code == 12 {
        Ok(DamlBuiltinFunction::ExpInt64)
    } else if code == 13 {
        Ok(DamlBuiltinFunction::AddNumeric)
    } else if code == 14 {
        Ok(DamlBuiltinFunction::SubNumeric)
    } else if code == 15 {
        Ok(DamlBuiltinFunction::MulNumeric)
    } else if code == 16 {
        Ok(DamlBuiltinFunction::DivNumeric)
    } else if code == 17 {
        Ok(DamlBuiltinFunction::RoundNumeric)
    } else if code == 18 {
        Ok(DamlBuiltinFunction::CastNumeric)
    } else if code == 19 {
        Ok(DamlBuiltinFunction::ShiftNumeric)
    } else if code == 20 {
        Ok(DamlBuiltinFunction::Int64ToNumeric)
    } else if code == 21 {
        Ok(DamlBuiltinFunction::NumericToInt64)
    } else if code == 22 {
        Ok(DamlBuiltinFunction::Int64ToText)
    } else if code == 23 {
        Ok(DamlBuiltinFunction::NumericToText)
    } else if code == 24 {
        Ok(DamlBuiltinFunction::TimestampToText)
    } else if code == 25 {
        Ok(DamlBuiltinFunction::DateToText)
    } else if code == 26 {
        Ok(DamlBuiltinFunction::PartyToText)
    } else if code == 27 {
        Ok(DamlBuiltinFunction::TextToParty)
    } else if code == 28 {
        Ok(DamlBuiltinFunction::TextToInt64)
    } else if code == 29 {
        Ok(DamlBuiltinFunction::TextToNumeric)
    } else if code == 30 {
        Ok(DamlBuiltinFunction::ContractIdToText)
    } else if code == 31 {
        Ok(DamlBuiltinFunction::Sha256Text)
    } else if code == 32 {
        Ok(DamlBuiltinFunction::ExplodeText)
    } else if code == 33 {
        Ok(DamlBuiltinFunction::AppendText)
    } else if code == 34 {
        Ok(DamlBuiltinFunction::ImplodeText)
    } else if code == 35 {
        Ok(DamlBuiltinFunction::CodePointsToText)
    } else if code == 36 {
        Ok(DamlBuiltinFunction::TextPointsToCode)
    } else if code == 37 {
        Ok(DamlBuiltinFunction::DateToUnixDays)
    } else if code == 38 {
        Ok(DamlBuiltinFunction::UnixDaysToDate)
    } else if code == 39 {
        Ok(DamlBuiltinFunction::TimestampToUnixMicroseconds)
    } else if code == 40 {
        Ok(DamlBuiltinFunction::UnixMicrosecondsToTimestamp)
    } else if code == 41 {
        Ok(DamlBuiltinFunction::CoerceContractId)
    } else if code == 42 {
        Ok(DamlBuiltinFunction::Foldl)
    } else if code == 43 {
        Ok(DamlBuiltinFunction::Foldr)
    } else if code == 44 {
        Ok(DamlBuiltinFunction::EqualList)
    } else if code == 45 {
        Ok(DamlBuiltinFunction::GenmapEmpty)
    } else if code == 46 {
        Ok(DamlBuiltinFunction::GenmapInsert)
    } else if code == 47 {
        Ok(DamlBuiltinFunction::GenmapLookup)
    } else if code == 48 {
        Ok(DamlBuiltinFunction::GenmapDelete)
    } else if code == 49 {
        Ok(DamlBuiltinFunction::GenmapKeys)
    } else if code == 50 {
        Ok(DamlBuiltinFunction::GenmapValues)
    } else if code == 51 {
        Ok(DamlBuiltinFunction::GenmapSize)
    } else if code == 52 {
        Ok(DamlBuiltinFunction::TextmapEmpty)
    } else if code == 53 {
        Ok(DamlBuiltinFunction::TextmapInsert)
    } else if code == 54 {
        Ok(DamlBuiltinFunction::TextmapLookup)
    } else if code == 55 {
        Ok(DamlBuiltinFunction::TextmapDelete)
    } else if code == 56 {
        Ok(DamlBuiltinFunction::TextmapToList)
    } else if code == 57 {
        Ok(DamlBuiltinFunction::TextmapSize)
    } else if code == 58 {
        Ok(DamlBuiltinFunction::AnyExceptionMessage)
    } else if code == 59 {
        Ok(DamlBuiltinFunction::ScaleBignumeric)
    } else if code == 60 {
        Ok(DamlBuiltinFunction::PrecisionBignumeric)
    } else if code == 61 {
        Ok(DamlBuiltinFunction::AddBignumeric)
    } else if code == 62 {
        Ok(DamlBuiltinFunction::SubBignumeric)
    } else if code == 63 {
        Ok(DamlBuiltinFunction::MulBignumeric)
    } else if code == 64 {
        Ok(DamlBuiltinFunction::DivBignumeric)
    } else if code == 65 {
        Ok(DamlBuiltinFunction::ShiftRightBignumeric)
    } else if code == 66 {
        Ok(DamlBuiltinFunction::BigNumericToNumeric)
    } else if code == 67 {
        Ok(DamlBuiltinFunction::NumericToBigNumeric)
    } else if code == 68 {
        Ok(DamlBuiltinFunction::BigNumericToText)
    } else if code == 69 {
        Ok(DamlBuiltinFunction::FailWithStatus)
    } else if code == 70 {
        Ok(DamlBuiltinFunction::Keccak256Text)
    } else if code == 71 {
        Ok(DamlBuiltinFunction::Secp256k1Bool)
    } else if code == 72 {
        Ok(DamlBuiltinFunction::Secp256k1WithEcdsaBool)
    } else if code == 73 {
        Ok(DamlBuiltinFunction::Secp256k1ValidateKey)
    } else if code == 74 {
        Ok(DamlBuiltinFunction::HexToText)
    } else if code == 75 {
        Ok(DamlBuiltinFunction::TextToHex)
    } else if code == 76 {
        Ok(DamlBuiltinFunction::Sha256Hex)
    } else if code == 77 {
        Ok(DamlBuiltinFunction::TypeRepTyconName)
    } else {
        Err(ConvertErrorV::UnknownBuiltinFunction(code))
    }
}

/// The builtin constructor numbered `code`.
pub open spec fn spec_builtin_con_of(code: i32) -> Result<DamlPrimCon, ConvertErrorV> {
    if code == 0 {
        Ok(DamlPrimCon::Unit)
    } else if code == 1 {
        Ok(DamlPrimCon::False)
    } else if code == 2 {
        Ok(DamlPrimCon::True)
    } else {
        Err(ConvertErrorV::UnknownPrimCon(code))
    }
}

/// The rounding mode numbered `code`.
pub open spec fn spec_rounding_of(code: i32) -> Result<RoundingMode, ConvertErrorV> {
    if code == 0 {
        Ok(RoundingMode::Up)
    } else if code == 1 {
        Ok(RoundingMode::Down)
    } else if code == 2 {
        Ok(RoundingMode::Ceiling)
    } else if code == 3 {
        Ok(RoundingMode::Floor)
    } else if code == 4 {
        Ok(RoundingMode::HalfUp)
    } else if code == 5 {
        Ok(RoundingMode::HalfDown)
    } else if code == 6 {
        Ok(RoundingMode::HalfEven)
    } else if code == 7 {
        Ok(RoundingMode::Unnecessary)
    } else {
        Err(ConvertErrorV::UnknownRoundingMode(code))
    }
}

pub open spec fn failure_category_text(code: i32) -> Seq<char> {
    "unknown FailureCategory enum variant "@ + spec_int_text(code as int)
}

/// The failure category numbered `code`.
pub open spec fn spec_failure_of(code: i32) -> Result<FailureCategory, ConvertErrorV> {
    if code == 0 {
        Ok(FailureCategory::InvalidIndependentOfSystemState)
    } else if code == 1 {
        Ok(FailureCategory::InvalidGivenCurrentSystemStateOther)
    } else {
        Err(ConvertErrorV::InternalError(failure_category_text(code)))
    }
}

pub open spec fn spec_convert_builtin_lit<'a>(l: lf2::BuiltinLit, p: DamlPackagePayload<'a>) -> Result<PrimLitV, ConvertErrorV> {
    match l.sum {
        None => Err(ConvertErrorV::MissingRequiredField),
        Some(lf2::BuiltinLitSum::Int64(v)) => Ok(PrimLitV::Int64(v)),
        Some(lf2::BuiltinLitSum::Timestamp(v)) => Ok(PrimLitV::Timestamp(v)),
        Some(lf2::BuiltinLitSum::Date(v)) => Ok(PrimLitV::Date(v)),
        Some(lf2::BuiltinLitSum::NumericInternedStr(i)) => match spec_resolve_string(p.package.interned_strings@, i as int) {
            Err(e) => Err(e),
            Ok(s) => Ok(PrimLitV::Numeric(s)),
        },
        Some(lf2::BuiltinLitSum::TextInternedStr(i)) => match spec_resolve_string(p.package.interned_strings@, i as int) {
            Err(e) => Err(e),
            Ok(s) => Ok(PrimLitV::Text(s)),
        },
        Some(lf2::BuiltinLitSum::RoundingMode(c)) => match spec_rounding_of(c) {
            Err(e) => Err(e),
            Ok(m) => Ok(PrimLitV::RoundingMode(m)),
        },
        Some(lf2::BuiltinLitSum::FailureCategory(c)) => match spec_failure_of(c) {
            Err(e) => Err(e),
            Ok(f) => Ok(PrimLitV::FailureCategory(f)),
        },
    }
}

/// A literal keeps its value and its kind: a number, timestamp or date is
/// held as it is, and a numeric or text literal holds the interned string
/// its index names, as a numeric or a text literal respectively; an index
/// outside the string table is refused, and so is a literal with nothing in
/// it. An expression made of a literal is that literal.
pub proof fn law_literals_keep_value_and_kind<'a>(i: i32, v: i64, d: i32, p: DamlPackagePayload<'a>)
    ensures
        spec_convert_builtin_lit((lf2::BuiltinLit { sum: Some(lf2::BuiltinLitSum::Int64(v)) }), p) == Ok::<
            PrimLitV,
            ConvertErrorV,
        >(PrimLitV::Int64(v)),
        spec_convert_builtin_lit((lf2::BuiltinLit { sum: Some(lf2::BuiltinLitSum::Timestamp(v)) }), p) == Ok::<
            PrimLitV,
            ConvertErrorV,
        >(PrimLitV::Timestamp(v)),
        spec_convert_builtin_lit((lf2::BuiltinLit { sum: Some(lf2::BuiltinLitSum::Date(d)) }), p) == Ok::<
            PrimLitV,
            ConvertErrorV,
        >(PrimLitV::Date(d)),
        spec_convert_builtin_lit((lf2::BuiltinLit { sum: None }), p) is Err,
        0 <= i < p.package.interned_strings@.len() ==> spec_convert_builtin_lit(
            (lf2::BuiltinLit { sum: Some(lf2::BuiltinLitSum::NumericInternedStr(i)) }),
            p,
        ) == Ok::<PrimLitV, ConvertErrorV>(PrimLitV::Numeric(p.package.interned_strings@[i as int]@)),
        0 <= i < p.package.interned_strings@.len() ==> spec_convert_builtin_lit(
            (lf2::BuiltinLit { sum: Some(lf2::BuiltinLitSum::TextInternedStr(i)) }),
            p,
        ) == Ok::<PrimLitV, ConvertErrorV>(PrimLitV::Text(p.package.interned_strings@[i as int]@)),
        !(0 <= i < p.package.interned_strings@.len()) ==> spec_convert_builtin_lit(
            (lf2::BuiltinLit { sum: Some(lf2::BuiltinLitSum::NumericInternedStr(i)) }),
            p,
        ) is Err && spec_convert_builtin_lit(
            (lf2::BuiltinLit { sum: Some(lf2::BuiltinLitSum::TextInternedStr(i)) }),
            p,
        ) is Err,
        0 <= i < p.package.interned_strings@.len() ==> spec_convert_expr(
            (lf2::Expr {
                sum: Some(
                    lf2::ExprSum::BuiltinLit(lf2::BuiltinLit { sum: Some(lf2::BuiltinLitSum::NumericInternedStr(i)) }),
                ),
            }),
            p,
        ) == Ok::<ExprV, ConvertErrorV>(ExprV::PrimLit(PrimLitV::Numeric(p.package.interned_strings@[i as int]@))),
        0 <= i < p.package.interned_strings@.len() ==> spec_convert_expr(
            (lf2::Expr {
                sum: Some(
                    lf2::ExprSum::BuiltinLit(lf2::BuiltinLit { sum: Some(lf2::BuiltinLitSum::TextInternedStr(i)) }),
                ),
            }),
            p,
        ) == Ok::<ExprV, ConvertErrorV>(ExprV::PrimLit(PrimLitV::Text(p.package.interned_strings@[i as int]@))),
{
}

/// A variable, then its type.
pub open spec fn spec_convert_var_type<'a>(v: lf2::VarWithType, p: DamlPackagePayload<'a>) -> Result<VarTypeV, ConvertErrorV> {
    match spec_resolve_string(p.package.interned_strings@, v.var_interned_str as int) {
        Err(e) => Err(e),
        Ok(var) => match spec_req_type(v.ty, p) {
            Err(e) => Err(e),
            Ok(ty) => Ok(VarTypeV { var, ty }),
        },
    }
}

pub open spec fn spec_convert_var_types<'a>(s: Seq<lf2::VarWithType>, p: DamlPackagePayload<'a>) -> Result<Seq<VarTypeV>, ConvertErrorV>
    decreases s.len(),
{
    if s.len() == 0 {
        Ok(Seq::empty())
    } else {
        match spec_convert_var_type(s[0], p) {
            Err(e) => Err(e),
            Ok(v) => match spec_convert_var_types(s.subrange(1, s.len() as int), p) {
                Err(e) => Err(e),
                Ok(rest) => Ok(seq![v] + rest),
            },
        }
    }
}

/// The pattern of a case alternative.
pub open spec fn spec_convert_alt_sum<'a>(s: Option<lf2::CaseAltSum>, p: DamlPackagePayload<'a>) -> Result<CaseAltSumV, ConvertErrorV> {
    match s {
        None => Err(ConvertErrorV::MissingRequiredField),
        Some(lf2::CaseAltSum::Default(_)) => Ok(CaseAltSumV::Default),
        Some(lf2::CaseAltSum::Variant { con, variant_interned_str, binder_interned_str }) => match spec_req_tycon_id(con, p) { Err(e) => Err(e), Ok(v0) => match spec_resolve_string(p.package.interned_strings@, variant_interned_str as int) { Err(e) => Err(e), Ok(v1) => match spec_resolve_string(p.package.interned_strings@, binder_interned_str as int) { Err(e) => Err(e), Ok(v2) => Ok(CaseAltSumV::Variant { con: v0, variant: v1, binder: v2 }) } } },
        Some(lf2::CaseAltSum::BuiltinCon(con)) => match spec_builtin_con_of(con) { Err(e) => Err(e), Ok(v0) => Ok(CaseAltSumV::PrimCon(v0)) },
        Some(lf2::CaseAltSum::Nil(_)) => Ok(CaseAltSumV::Nil),
        Some(lf2::CaseAltSum::Cons { var_head_interned_str, var_tail_interned_str }) => match spec_resolve_string(p.package.interned_strings@, var_head_interned_str as int) { Err(e) => Err(e), Ok(v0) => match spec_resolve_string(p.package.interned_strings@, var_tail_interned_str as int) { Err(e) => Err(e), Ok(v1) => Ok(CaseAltSumV::Cons { var_head: v0, var_tail: v1 }) } },
        Some(lf2::CaseAltSum::OptionalNone(_)) => Ok(CaseAltSumV::OptionalNone),
        Some(lf2::CaseAltSum::OptionalSome { var_body_interned_str }) => match spec_resolve_string(p.package.interned_strings@, var_body_interned_str as int) { Err(e) => Err(e), Ok(v0) => Ok(CaseAltSumV::OptionalSome { var_body: v0 }) },
        Some(lf2::CaseAltSum::Enum { con, constructor_interned_str }) => match spec_req_tycon_id(con, p) { Err(e) => Err(e), Ok(v0) => match spec_resolve_string(p.package.interned_strings@, constructor_interned_str as int) { Err(e) => Err(e), Ok(v1) => Ok(CaseAltSumV::Enum { con: v0, constructor: v1 }) } },
    }
}

/// Whether an expression works on interfaces, or on templates and their
/// choices.
pub open spec fn is_interface_expr(e: lf2::Expr) -> bool {
    match e.sum {
        Some(lf2::ExprSum::ToInterface { .. }) | Some(lf2::ExprSum::FromInterface { .. }) | Some(
            lf2::ExprSum::CallInterface { .. },
        ) | Some(lf2::ExprSum::ViewInterface { .. }) | Some(lf2::ExprSum::SignatoryInterface { .. }) | Some(
            lf2::ExprSum::ObserverInterface { .. },
        ) | Some(lf2::ExprSum::UnsafeFromInterface { .. }) | Some(lf2::ExprSum::ToRequiredInterface { .. }) | Some(
            lf2::ExprSum::FromRequiredInterface { .. },
        ) | Some(lf2::ExprSum::UnsafeFromRequiredInterface { .. }) | Some(
            lf2::ExprSum::InterfaceTemplateTypeRep { .. },
        ) | Some(lf2::ExprSum::ChoiceController { .. }) | Some(lf2::ExprSum::ChoiceObserver { .. }) => true,
        _ => false,
    }
}

/// The element expression of an LF2 expression. A reference to an interned
/// expression is refused with an internal error.
pub open spec fn spec_convert_expr<'a>(e: lf2::Expr, p: DamlPackagePayload<'a>) -> Result<ExprV, ConvertErrorV>
    decreases e,
{
    match e.sum {
        None => Err(ConvertErrorV::MissingRequiredField),
        Some(lf2::ExprSum::VarInternedStr(var_interned_str)) => match spec_resolve_string(p.package.interned_strings@, var_interned_str as int) { Err(e) => Err(e), Ok(v0) => Ok(ExprV::Var(v0)) },
        Some(lf2::ExprSum::Val(value)) => match spec_convert_value_id(value, p) { Err(e) => Err(e), Ok(v0) => Ok(ExprV::Val(v0)) },
        Some(lf2::ExprSum::Builtin(function)) => match spec_builtin_of(function) { Err(e) => Err(e), Ok(v0) => Ok(ExprV::Builtin(v0)) },
        Some(lf2::ExprSum::BuiltinCon(con)) => match spec_builtin_con_of(con) { Err(e) => Err(e), Ok(v0) => Ok(ExprV::PrimCon(v0)) },
        Some(lf2::ExprSum::BuiltinLit(lit)) => match spec_convert_builtin_lit(lit, p) { Err(e) => Err(e), Ok(v0) => Ok(ExprV::PrimLit(v0)) },
        Some(lf2::ExprSum::Nil { ty }) => match spec_req_type(ty, p) { Err(e) => Err(e), Ok(v0) => Ok(ExprV::Nil { ty: v0 }) },
        Some(lf2::ExprSum::OptionalNone { ty }) => match spec_req_type(ty, p) { Err(e) => Err(e), Ok(v0) => Ok(ExprV::OptionalNone { ty: v0 }) },
        Some(lf2::ExprSum::TypeRep(ty)) => match spec_convert_type(ty, p, type_fuel(p)) { Err(e) => Err(e), Ok(v0) => Ok(ExprV::TypeRep(v0)) },
        Some(lf2::ExprSum::RecCon { tycon, fields }) => match spec_req_type_con(tycon, p) { Err(e) => Err(e), Ok(v0) => match spec_convert_field_exprs(fields@, p) { Err(e) => Err(e), Ok(v1) => Ok(ExprV::RecCon { tycon: v0, fields: v1 }) } },
        Some(lf2::ExprSum::RecProj { tycon, record, field_interned_str }) => match spec_req_type_con(tycon, p) { Err(e) => Err(e), Ok(v0) => match spec_req_expr(record, p) { Err(e) => Err(e), Ok(v1) => match spec_resolve_string(p.package.interned_strings@, field_interned_str as int) { Err(e) => Err(e), Ok(v2) => Ok(ExprV::RecProj { tycon: v0, record: Box::new(v1), field: v2 }) } } },
        Some(lf2::ExprSum::RecUpd { tycon, record, update, field_interned_str }) => match spec_req_type_con(tycon, p) { Err(e) => Err(e), Ok(v0) => match spec_req_expr(record, p) { Err(e) => Err(e), Ok(v1) => match spec_req_expr(update, p) { Err(e) => Err(e), Ok(v2) => match spec_resolve_string(p.package.interned_strings@, field_interned_str as int) { Err(e) => Err(e), Ok(v3) => Ok(ExprV::RecUpd { tycon: v0, record: Box::new(v1), update: Box::new(v2), field: v3 }) } } } },
        Some(lf2::ExprSum::VariantCon { tycon, variant_arg, variant_con_interned_str }) => match spec_req_type_con(tycon, p) { Err(e) => Err(e), Ok(v0) => match spec_req_expr(variant_arg, p) { Err(e) => Err(e), Ok(v1) => match spec_resolve_string(p.package.interned_strings@, variant_con_interned_str as int) { Err(e) => Err(e), Ok(v2) => Ok(ExprV::VariantCon { tycon: v0, variant_arg: Box::new(v1), variant_con: v2 }) } } },
        Some(lf2::ExprSum::EnumCon { tycon, enum_con_interned_str }) => match spec_req_tycon_id(tycon, p) { Err(e) => Err(e), Ok(v0) => match spec_resolve_string(p.package.interned_strings@, enum_con_interned_str as int) { Err(e) => Err(e), Ok(v1) => Ok(ExprV::EnumCon { tycon: v0, enum_con: v1 }) } },
        Some(lf2::ExprSum::StructCon { fields }) => match spec_convert_field_exprs(fields@, p) { Err(e) => Err(e), Ok(v0) => Ok(ExprV::StructCon { fields: v0 }) },
        Some(lf2::ExprSum::StructProj { struct_expr, field_interned_str }) => match spec_req_expr(struct_expr, p) { Err(e) => Err(e), Ok(v0) => match spec_resolve_string(p.package.interned_strings@, field_interned_str as int) { Err(e) => Err(e), Ok(v1) => Ok(ExprV::StructProj { struct_expr: Box::new(v0), field: v1 }) } },
        Some(lf2::ExprSum::StructUpd { struct_expr, update, field_interned_str }) => match spec_req_expr(struct_expr, p) { Err(e) => Err(e), Ok(v0) => match spec_req_expr(update, p) { Err(e) => Err(e), Ok(v1) => match spec_resolve_string(p.package.interned_strings@, field_interned_str as int) { Err(e) => Err(e), Ok(v2) => Ok(ExprV::StructUpd { struct_expr: Box::new(v0), update: Box::new(v1), field: v2 }) } } },
        Some(lf2::ExprSum::ToAny { ty, expr }) => match spec_req_type(ty, p) { Err(e) => Err(e), Ok(v0) => match spec_req_expr(expr, p) { Err(e) => Err(e), Ok(v1) => Ok(ExprV::ToAny { ty: v0, expr: Box::new(v1) }) } },
        Some(lf2::ExprSum::FromAny { ty, expr }) => match spec_req_type(ty, p) { Err(e) => Err(e), Ok(v0) => match spec_req_expr(expr, p) { Err(e) => Err(e), Ok(v1) => Ok(ExprV::FromAny { ty: v0, expr: Box::new(v1) }) } },
        Some(lf2::ExprSum::App { fun, args }) => match spec_req_expr(fun, p) { Err(e) => Err(e), Ok(v0) => match spec_convert_exprs(args@, p) { Err(e) => Err(e), Ok(v1) => Ok(ExprV::App { fun: Box::new(v0), args: v1 }) } },
        Some(lf2::ExprSum::TyApp { expr, types }) => match spec_req_expr(expr, p) { Err(e) => Err(e), Ok(v0) => match spec_convert_types(types@, p, type_fuel(p)) { Err(e) => Err(e), Ok(v1) => Ok(ExprV::TyApp { expr: Box::new(v0), types: v1 }) } },
        Some(lf2::ExprSum::Abs { params, body }) => match spec_convert_var_types(params@, p) { Err(e) => Err(e), Ok(v0) => match spec_req_expr(body, p) { Err(e) => Err(e), Ok(v1) => Ok(ExprV::Abs { params: v0, body: Box::new(v1) }) } },
        Some(lf2::ExprSum::TyAbs { params, body }) => match spec_convert_typevars(params@, p) { Err(e) => Err(e), Ok(v0) => match spec_req_expr(body, p) { Err(e) => Err(e), Ok(v1) => Ok(ExprV::TyAbs { params: v0, body: Box::new(v1) }) } },
        Some(lf2::ExprSum::Case { scrut, alts }) => match spec_req_expr(scrut, p) { Err(e) => Err(e), Ok(v0) => match spec_convert_alts(alts@, p) { Err(e) => Err(e), Ok(v1) => Ok(ExprV::Case { scrut: Box::new(v0), alts: v1 }) } },
        Some(lf2::ExprSum::Let(block)) => match spec_convert_block(*block, p) { Err(e) => Err(e), Ok(v0) => Ok(ExprV::Let(v0)) },
        Some(lf2::ExprSum::Cons { ty, front, tail }) => match spec_req_type(ty, p) { Err(e) => Err(e), Ok(v0) => match spec_convert_exprs(front@, p) { Err(e) => Err(e), Ok(v1) => match spec_req_expr(tail, p) { Err(e) => Err(e), Ok(v2) => Ok(ExprV::Cons { ty: v0, front: v1, tail: Box::new(v2) }) } } },
        Some(lf2::ExprSum::OptionalSome { ty, value }) => match spec_req_type(ty, p) { Err(e) => Err(e), Ok(v0) => match spec_req_expr(value, p) { Err(e) => Err(e), Ok(v1) => Ok(ExprV::OptionalSome { ty: v0, value: Box::new(v1) }) } },
        Some(lf2::ExprSum::ToAnyException { ty, expr }) => match spec_req_type(ty, p) { Err(e) => Err(e), Ok(v0) => match spec_req_expr(expr, p) { Err(e) => Err(e), Ok(v1) => Ok(ExprV::ToAnyException { ty: v0, expr: Box::new(v1) }) } },
        Some(lf2::ExprSum::FromAnyException { ty, expr }) => match spec_req_type(ty, p) { Err(e) => Err(e), Ok(v0) => match spec_req_expr(expr, p) { Err(e) => Err(e), Ok(v1) => Ok(ExprV::FromAnyException { ty: v0, expr: Box::new(v1) }) } },
        Some(lf2::ExprSum::Throw { return_type, exception_type, exception_expr }) => match spec_req_type(return_type, p) { Err(e) => Err(e), Ok(v0) => match spec_req_type(exception_type, p) { Err(e) => Err(e), Ok(v1) => match spec_req_expr(exception_expr, p) { Err(e) => Err(e), Ok(v2) => Ok(ExprV::Throw { return_type: v0, exception_type: v1, exception_expr: Box::new(v2) }) } } },
        Some(lf2::ExprSum::ToInterface { interface_type, template_type, template_expr }) => match spec_req_tycon_id(interface_type, p) { Err(e) => Err(e), Ok(v0) => match spec_req_tycon_id(template_type, p) { Err(e) => Err(e), Ok(v1) => match spec_req_expr(template_expr, p) { Err(e) => Err(e), Ok(v2) => Ok(ExprV::ToInterface { interface_type: v0, template_type: v1, template_expr: Box::new(v2) }) } } },
        Some(lf2::ExprSum::FromInterface { interface_type, template_type, interface_expr }) => match spec_req_tycon_id(interface_type, p) { Err(e) => Err(e), Ok(v0) => match spec_req_tycon_id(template_type, p) { Err(e) => Err(e), Ok(v1) => match spec_req_expr(interface_expr, p) { Err(e) => Err(e), Ok(v2) => Ok(ExprV::FromInterface { interface_type: v0, template_type: v1, interface_expr: Box::new(v2) }) } } },
        Some(lf2::ExprSum::CallInterface { method_interned_str, interface_type, interface_expr }) => match spec_resolve_string(p.package.interned_strings@, method_interned_str as int) { Err(e) => Err(e), Ok(v0) => match spec_req_tycon_id(interface_type, p) { Err(e) => Err(e), Ok(v1) => match spec_req_expr(interface_expr, p) { Err(e) => Err(e), Ok(v2) => Ok(ExprV::CallInterface { method: v0, interface_type: v1, interface_expr: Box::new(v2) }) } } },
        Some(lf2::ExprSum::ViewInterface { interface, expr }) => match spec_req_tycon_id(interface, p) { Err(e) => Err(e), Ok(v0) => match spec_req_expr(expr, p) { Err(e) => Err(e), Ok(v1) => Ok(ExprV::ViewInterface { interface: v0, expr: Box::new(v1) }) } },
        Some(lf2::ExprSum::SignatoryInterface { interface, expr }) => match spec_req_tycon_id(interface, p) { Err(e) => Err(e), Ok(v0) => match spec_req_expr(expr, p) { Err(e) => Err(e), Ok(v1) => Ok(ExprV::SignatoryInterface { interface: v0, expr: Box::new(v1) }) } },
        Some(lf2::ExprSum::ObserverInterface { interface, expr }) => match spec_req_tycon_id(interface, p) { Err(e) => Err(e), Ok(v0) => match spec_req_expr(expr, p) { Err(e) => Err(e), Ok(v1) => Ok(ExprV::ObserverInterface { interface: v0, expr: Box::new(v1) }) } },
        Some(lf2::ExprSum::UnsafeFromInterface { interface_type, template_type, contract_id_expr, interface_expr }) => match spec_req_tycon_id(interface_type, p) { Err(e) => Err(e), Ok(v0) => match spec_req_tycon_id(template_type, p) { Err(e) => Err(e), Ok(v1) => match spec_req_expr(contract_id_expr, p) { Err(e) => Err(e), Ok(v2) => match spec_req_expr(interface_expr, p) { Err(e) => Err(e), Ok(v3) => Ok(ExprV::UnsafeFromInterface { interface_type: v0, template_type: v1, contract_id_expr: Box::new(v2), interface_expr: Box::new(v3) }) } } } },
        Some(lf2::ExprSum::ToRequiredInterface { required_interface, requiring_interface, expr }) => match spec_req_tycon_id(required_interface, p) { Err(e) => Err(e), Ok(v0) => match spec_req_tycon_id(requiring_interface, p) { Err(e) => Err(e), Ok(v1) => match spec_req_expr(expr, p) { Err(e) => Err(e), Ok(v2) => Ok(ExprV::ToRequiredInterface { required_interface: v0, requiring_interface: v1, expr: Box::new(v2) }) } } },
        Some(lf2::ExprSum::FromRequiredInterface { required_interface, requiring_interface, expr }) => match spec_req_tycon_id(required_interface, p) { Err(e) => Err(e), Ok(v0) => match spec_req_tycon_id(requiring_interface, p) { Err(e) => Err(e), Ok(v1) => match spec_req_expr(expr, p) { Err(e) => Err(e), Ok(v2) => Ok(ExprV::FromRequiredInterface { required_interface: v0, requiring_interface: v1, expr: Box::new(v2) }) } } },
        Some(lf2::ExprSum::UnsafeFromRequiredInterface { required_interface, requiring_interface, contract_id_expr, interface_expr }) => match spec_req_tycon_id(required_interface, p) { Err(e) => Err(e), Ok(v0) => match spec_req_tycon_id(requiring_interface, p) { Err(e) => Err(e), Ok(v1) => match spec_req_expr(contract_id_expr, p) { Err(e) => Err(e), Ok(v2) => match spec_req_expr(interface_expr, p) { Err(e) => Err(e), Ok(v3) => Ok(ExprV::UnsafeFromRequiredInterface { required_interface: v0, requiring_interface: v1, contract_id_expr: Box::new(v2), interface_expr: Box::new(v3) }) } } } },
        Some(lf2::ExprSum::InterfaceTemplateTypeRep { interface, expr }) => match spec_req_tycon_id(interface, p) { Err(e) => Err(e), Ok(v0) => match spec_req_expr(expr, p) { Err(e) => Err(e), Ok(v1) => Ok(ExprV::InterfaceTemplateTypeRep { interface: v0, expr: Box::new(v1) }) } },
        Some(lf2::ExprSum::ChoiceController { choice_interned_str, template, contract_expr, choice_arg_expr }) => match spec_resolve_string(p.package.interned_strings@, choice_interned_str as int) { Err(e) => Err(e), Ok(v0) => match spec_req_tycon_id(template, p) { Err(e) => Err(e), Ok(v1) => match spec_req_expr(contract_expr, p) { Err(e) => Err(e), Ok(v2) => match spec_req_expr(choice_arg_expr, p) { Err(e) => Err(e), Ok(v3) => Ok(ExprV::ChoiceController { choice: v0, template: v1, contract_expr: Box::new(v2), choice_arg_expr: Box::new(v3) }) } } } },
        Some(lf2::ExprSum::ChoiceObserver { choice_interned_str, template, contract_expr, choice_arg_expr }) => match spec_resolve_string(p.package.interned_strings@, choice_interned_str as int) { Err(e) => Err(e), Ok(v0) => match spec_req_tycon_id(template, p) { Err(e) => Err(e), Ok(v1) => match spec_req_expr(contract_expr, p) { Err(e) => Err(e), Ok(v2) => match spec_req_expr(choice_arg_expr, p) { Err(e) => Err(e), Ok(v3) => Ok(ExprV::ChoiceObserver { choice: v0, template: v1, contract_expr: Box::new(v2), choice_arg_expr: Box::new(v3) }) } } } },
        Some(lf2::ExprSum::Update(update)) => match spec_convert_update(*update, p) { Err(e) => Err(e), Ok(v0) => Ok(ExprV::Update(Box::new(v0))) },
        Some(lf2::ExprSum::InternedExpr(_)) => Err(ConvertErrorV::InternalError(interned_expr_text())),
        Some(lf2::ExprSum::Experimental(_)) => Err(
            ConvertErrorV::UnsupportedFeatureUsed(spec_version_text(p.language_version), "Experimental expression"@, "2.dev"@),
        ),
    }
}

pub open spec fn spec_req_expr<'a>(o: Option<Box<lf2::Expr>>, p: DamlPackagePayload<'a>) -> Result<ExprV, ConvertErrorV>
    decreases o,
{
    match o {
        None => Err(ConvertErrorV::MissingRequiredField),
        Some(b) => spec_convert_expr(*b, p),
    }
}

pub open spec fn spec_opt_expr<'a>(o: Option<Box<lf2::Expr>>, p: DamlPackagePayload<'a>) -> Result<
    Option<Box<ExprV>>,
    ConvertErrorV,
>
    decreases o,
{
    match o {
        None => Ok(None),
        Some(b) => match spec_convert_expr(*b, p) {
            Err(e) => Err(e),
            Ok(v) => Ok(Some(Box::new(v))),
        },
    }
}

pub open spec fn spec_convert_exprs<'a>(s: Seq<lf2::Expr>, p: DamlPackagePayload<'a>) -> Result<Seq<ExprV>, ConvertErrorV>
    decreases s,
{
    if s.len() == 0 {
        Ok(Seq::empty())
    } else {
        match spec_convert_expr(s[0], p) {
            Err(e) => Err(e),
            Ok(v) => match spec_convert_exprs(s.subrange(1, s.len() as int), p) {
                Err(e) => Err(e),
                Ok(rest) => Ok(seq![v] + rest),
            },
        }
    }
}

/// A field's name, then its expression.
pub open spec fn spec_convert_field_expr<'a>(f: lf2::FieldWithExpr, p: DamlPackagePayload<'a>) -> Result<
    FieldExprV,
    ConvertErrorV,
>
    decreases f,
{
    match spec_resolve_string(p.package.interned_strings@, f.field_interned_str as int) {
        Err(e) => Err(e),
        Ok(name) => match spec_req_expr(f.expr, p) {
            Err(e) => Err(e),
            Ok(expr) => Ok(FieldExprV { name, expr }),
        },
    }
}

pub open spec fn spec_convert_field_exprs<'a>(s: Seq<lf2::FieldWithExpr>, p: DamlPackagePayload<'a>) -> Result<Seq<FieldExprV>, ConvertErrorV>
    decreases s,
{
    if s.len() == 0 {
        Ok(Seq::empty())
    } else {
        match spec_convert_field_expr(s[0], p) {
            Err(e) => Err(e),
            Ok(v) => match spec_convert_field_exprs(s.subrange(1, s.len() as int), p) {
                Err(e) => Err(e),
                Ok(rest) => Ok(seq![v] + rest),
            },
        }
    }
}

/// A binding's variable, then its expression.
pub open spec fn spec_convert_binding<'a>(b: lf2::Binding, p: DamlPackagePayload<'a>) -> Result<BindingV, ConvertErrorV>
    decreases b,
{
    match b.binder {
        None => Err(ConvertErrorV::MissingRequiredField),
        Some(vt) => match spec_convert_var_type(vt, p) {
            Err(e) => Err(e),
            Ok(binder) => match spec_req_expr(b.bound, p) {
                Err(e) => Err(e),
                Ok(bound) => Ok(BindingV { binder, bound }),
            },
        },
    }
}

pub open spec fn spec_convert_bindings<'a>(s: Seq<lf2::Binding>, p: DamlPackagePayload<'a>) -> Result<Seq<BindingV>, ConvertErrorV>
    decreases s,
{
    if s.len() == 0 {
        Ok(Seq::empty())
    } else {
        match spec_convert_binding(s[0], p) {
            Err(e) => Err(e),
            Ok(v) => match spec_convert_bindings(s.subrange(1, s.len() as int), p) {
                Err(e) => Err(e),
                Ok(rest) => Ok(seq![v] + rest),
            },
        }
    }
}

/// A block's bindings, then its body.
pub open spec fn spec_convert_block<'a>(b: lf2::Block, p: DamlPackagePayload<'a>) -> Result<BlockV, ConvertErrorV>
    decreases b,
{
    match spec_convert_bindings(b.bindings@, p) {
        Err(e) => Err(e),
        Ok(bindings) => match spec_req_expr(b.body, p) {
            Err(e) => Err(e),
            Ok(body) => Ok(BlockV { bindings, body: Box::new(body) }),
        },
    }
}

/// A case alternative's body, then its pattern.
pub open spec fn spec_convert_alt<'a>(a: lf2::CaseAlt, p: DamlPackagePayload<'a>) -> Result<CaseAltV, ConvertErrorV>
    decreases a,
{
    match spec_req_expr(a.body, p) {
        Err(e) => Err(e),
        Ok(body) => match spec_convert_alt_sum(a.sum, p) {
            Err(e) => Err(e),
            Ok(sum) => Ok(CaseAltV { body, sum }),
        },
    }
}

pub open spec fn spec_convert_alts<'a>(s: Seq<lf2::CaseAlt>, p: DamlPackagePayload<'a>) -> Result<Seq<CaseAltV>, ConvertErrorV>
    decreases s,
{
    if s.len() == 0 {
        Ok(Seq::empty())
    } else {
        match spec_convert_alt(s[0], p) {
            Err(e) => Err(e),
            Ok(v) => match spec_convert_alts(s.subrange(1, s.len() as int), p) {
                Err(e) => Err(e),
                Ok(rest) => Ok(seq![v] + rest),
            },
        }
    }
}

/// The element effect of an LF2 effect.
pub open spec fn spec_convert_update<'a>(u: lf2::Update, p: DamlPackagePayload<'a>) -> Result<UpdateV, ConvertErrorV>
    decreases u,
{
    match u.sum {
        None => Err(ConvertErrorV::MissingRequiredField),
        Some(lf2::UpdateSum::Pure { ty, expr }) => match spec_req_type(ty, p) { Err(e) => Err(e), Ok(v0) => match spec_req_expr(expr, p) { Err(e) => Err(e), Ok(v1) => Ok(UpdateV::Pure { ty: v0, expr: Box::new(v1) }) } },
        Some(lf2::UpdateSum::Block(block)) => match spec_convert_block(block, p) { Err(e) => Err(e), Ok(v0) => Ok(UpdateV::Block(v0)) },
        Some(lf2::UpdateSum::Create { template, expr }) => match spec_req_tycon_id(template, p) { Err(e) => Err(e), Ok(v0) => match spec_req_expr(expr, p) { Err(e) => Err(e), Ok(v1) => Ok(UpdateV::Create { template: v0, expr: Box::new(v1) }) } },
        Some(lf2::UpdateSum::CreateInterface { interface, expr }) => match spec_req_tycon_id(interface, p) { Err(e) => Err(e), Ok(v0) => match spec_req_expr(expr, p) { Err(e) => Err(e), Ok(v1) => Ok(UpdateV::CreateInterface { interface: v0, expr: Box::new(v1) }) } },
        Some(lf2::UpdateSum::Exercise { template, cid, arg, choice_interned_str }) => match spec_req_tycon_id(template, p) { Err(e) => Err(e), Ok(v0) => match spec_req_expr(cid, p) { Err(e) => Err(e), Ok(v1) => match spec_req_expr(arg, p) { Err(e) => Err(e), Ok(v2) => match spec_resolve_string(p.package.interned_strings@, choice_interned_str as int) { Err(e) => Err(e), Ok(v3) => Ok(UpdateV::Exercise { template: v0, cid: Box::new(v1), arg: Box::new(v2), choice: v3 }) } } } },
        Some(lf2::UpdateSum::ExerciseInterface { interface, cid, arg, choice_interned_str, guard }) => match spec_req_tycon_id(interface, p) { Err(e) => Err(e), Ok(v0) => match spec_req_expr(cid, p) { Err(e) => Err(e), Ok(v1) => match spec_req_expr(arg, p) { Err(e) => Err(e), Ok(v2) => match spec_resolve_string(p.package.interned_strings@, choice_interned_str as int) { Err(e) => Err(e), Ok(v3) => match spec_opt_expr(guard, p) { Err(e) => Err(e), Ok(v4) => Ok(UpdateV::ExerciseInterface { interface: v0, cid: Box::new(v1), arg: Box::new(v2), choice: v3, guard: v4 }) } } } } },
        Some(lf2::UpdateSum::ExerciseByKey { template, choice_interned_str, key, arg }) => match spec_req_tycon_id(template, p) { Err(e) => Err(e), Ok(v0) => match spec_resolve_string(p.package.interned_strings@, choice_interned_str as int) { Err(e) => Err(e), Ok(v1) => match spec_req_expr(key, p) { Err(e) => Err(e), Ok(v2) => match spec_req_expr(arg, p) { Err(e) => Err(e), Ok(v3) => Ok(UpdateV::ExerciseByKey { template: v0, choice: v1, key: Box::new(v2), arg: Box::new(v3) }) } } } },
        Some(lf2::UpdateSum::Fetch { template, cid }) => match spec_req_tycon_id(template, p) { Err(e) => Err(e), Ok(v0) => match spec_req_expr(cid, p) { Err(e) => Err(e), Ok(v1) => Ok(UpdateV::Fetch { template: v0, cid: Box::new(v1) }) } },
        Some(lf2::UpdateSum::FetchInterface { interface, cid }) => match spec_req_tycon_id(interface, p) { Err(e) => Err(e), Ok(v0) => match spec_req_expr(cid, p) { Err(e) => Err(e), Ok(v1) => Ok(UpdateV::FetchInterface { interface: v0, cid: Box::new(v1) }) } },
        Some(lf2::UpdateSum::GetTime(_)) => Ok(UpdateV::GetTime),
        Some(lf2::UpdateSum::LookupByKey { template }) => match spec_req_tycon_id(template, p) { Err(e) => Err(e), Ok(v0) => Ok(UpdateV::LookupByKey { template: v0, key: Box::new(ExprV::OptionalNone { ty: TypeV::Unit }) }) },
        Some(lf2::UpdateSum::FetchByKey { template }) => match spec_req_tycon_id(template, p) { Err(e) => Err(e), Ok(v0) => Ok(UpdateV::FetchByKey { template: v0, key: Box::new(ExprV::OptionalNone { ty: TypeV::Unit }) }) },
        Some(lf2::UpdateSum::QueryNByKey { template }) => match spec_req_tycon_id(template, p) { Err(e) => Err(e), Ok(v0) => Ok(UpdateV::QueryNByKey { template: v0 }) },
        Some(lf2::UpdateSum::EmbedExpr { ty, body }) => match spec_req_type(ty, p) { Err(e) => Err(e), Ok(v0) => match spec_req_expr(body, p) { Err(e) => Err(e), Ok(v1) => Ok(UpdateV::EmbedExpr { ty: v0, body: Box::new(v1) }) } },
        Some(lf2::UpdateSum::TryCatch { return_type, try_expr, var_interned_str, catch_expr }) => match spec_req_type(return_type, p) { Err(e) => Err(e), Ok(v0) => match spec_req_expr(try_expr, p) { Err(e) => Err(e), Ok(v1) => match spec_resolve_string(p.package.interned_strings@, var_interned_str as int) { Err(e) => Err(e), Ok(v2) => match spec_req_expr(catch_expr, p) { Err(e) => Err(e), Ok(v3) => Ok(UpdateV::TryCatch { return_type: v0, try_expr: Box::new(v1), var: v2, catch_expr: Box::new(v3) }) } } } },
        Some(lf2::UpdateSum::LedgerTimeLt(time)) => match spec_convert_expr(*time, p) { Err(e) => Err(e), Ok(v0) => Ok(UpdateV::LedgerTimeLt(Box::new(v0))) },
    }
}

/// The name segments of a value definition, joined with `.`.
pub open spec fn value_name_text(segments: Seq<Seq<char>>) -> Seq<char> {
    if segments.len() == 1 {
        segments[0]
    } else {
        spec_join(segments, "."@)
    }
}

/// A value definition: its dotted name joined, its type, then its
/// expression.
pub open spec fn spec_convert_def_value<'a>(v: lf2::DefValue, p: DamlPackagePayload<'a>) -> Result<DefValueV, ConvertErrorV> {
    match v.name_with_type {
        None => Err(ConvertErrorV::MissingRequiredField),
        Some(nt) => match spec_resolve_dotted(p.package.interned_strings@, p.spec_dotted(), nt.name_interned_dname as int) {
            Err(e) => Err(e),
            Ok(segments) => match spec_req_type(nt.ty, p) {
                Err(e) => Err(e),
                Ok(ty) => match spec_req_expr(v.expr, p) {
                    Err(e) => Err(e),
                    Ok(expr) => Ok(DefValueV { name: value_name_text(segments), ty, expr }),
                },
            },
        },
    }
}

// ----- executable -----

fn convert_req_type<'a>(o: &Option<lf2::Type>, package: &DamlPackagePayload<'a>) -> (r: DamlLfConvertResult<DamlType>)
    ensures
        result_view(r) == spec_req_type(*o, *package),
{
    match o {
        None => Err(DamlLfConvertError::MissingRequiredField),
        Some(t) => convert_type(t, package),
    }
}

fn convert_types_full<'a>(ts: &Vec<lf2::Type>, package: &DamlPackagePayload<'a>) -> (r: DamlLfConvertResult<Vec<DamlType>>)
    ensures
        match r {
            Ok(v) => spec_convert_types(ts@, *package, type_fuel(*package)) == Ok::<Seq<TypeV>, ConvertErrorV>(types_view(v@)),
            Err(e) => spec_convert_types(ts@, *package, type_fuel(*package)) == Err::<Seq<TypeV>, ConvertErrorV>(e@),
        },
{
    convert_types_with_fuel(ts, package, package.package.interned_types.len())
}

fn convert_req_tycon_id<'a>(o: &Option<lf2::TypeConId>, package: &DamlPackagePayload<'a>) -> (r: DamlLfConvertResult<DamlTyConName>)
    ensures
        result_view(r) == spec_req_tycon_id(*o, *package),
{
    match o {
        None => Err(DamlLfConvertError::MissingRequiredField),
        Some(id) => convert_tycon_id(id, package),
    }
}

fn convert_req_type_con<'a>(o: &Option<lf2::TypeCon>, package: &DamlPackagePayload<'a>) -> (r: DamlLfConvertResult<DamlTyCon>)
    ensures
        match r {
            Ok(c) => spec_req_type_con(*o, *package) == Ok::<(TyConNameV, Seq<TypeV>), ConvertErrorV>(tycon_view(c)),
            Err(e) => spec_req_type_con(*o, *package) == Err::<(TyConNameV, Seq<TypeV>), ConvertErrorV>(e@),
        },
{
    let c = match o {
        None => return Err(DamlLfConvertError::MissingRequiredField),
        Some(c) => c,
    };
    let id = match &c.tycon {
        None => return Err(DamlLfConvertError::MissingRequiredField),
        Some(id) => id,
    };
    let tycon = convert_tycon_id(id, package)?;
    let args = convert_types_full(&c.args, package)?;
    Ok(DamlTyCon { tycon: Box::new(tycon), type_arguments: args })
}

/// Convert a reference to a value definition into its name.
pub fn convert_value_id<'a>(proto: &lf2::ValueId, package: &DamlPackagePayload<'a>) -> (r: DamlLfConvertResult<DamlValueName>)
    ensures
        result_view(r) == spec_convert_value_id(*proto, *package),
{
    if let Some(m) = &proto.module {
        if let Some(id) = &m.package_id {
            if let Some(lf2::PackageRef::PackageImportId(_)) = &id.sum {
                let version = package.language_version.to_string();
                proof {
                    reveal_strlit("PackageImportId in value-name PackageRef");
                }
                return Err(
                    DamlLfConvertError::UnsupportedFeatureUsed(
                        version,
                        String::from_str("PackageImportId in value-name PackageRef"),
                        String::from_str("2.dev"),
                    ),
                );
            }
        }
    }
    let name = convert_type_name(&proto.module, proto.name_interned_dname, package)?;
    match name {
        DamlTyConName::Local(l) => Ok(DamlValueName {
            name: l.data_name,
            package_id: l.package_id,
            package_name: l.package_name,
            module_segments: l.module_segments,
        }),
        DamlTyConName::NonLocal(n) => Ok(DamlValueName {
            name: n.data_name,
            package_id: n.target_package_id,
            package_name: n.target_package_name,
            module_segments: n.module_segments,
        }),
        DamlTyConName::Absolute(a) => Ok(DamlValueName {
            name: a.data_name,
            package_id: a.package_id,
            package_name: a.package_name,
            module_segments: a.module_segments,
        }),
    }
}

/// Map a builtin function's number to the builtin function.
pub fn convert_builtin_function(code: i32) -> (r: DamlLfConvertResult<DamlBuiltinFunction>)
    ensures
        result_view(r) == spec_builtin_of(code),
{
    match code {
        0 => Ok(DamlBuiltinFunction::Trace),
        1 => Ok(DamlBuiltinFunction::Error),
        2 => Ok(DamlBuiltinFunction::Equal),
        3 => Ok(DamlBuiltinFunction::LessEq),
        4 => Ok(DamlBuiltinFunction::Less),
        5 => Ok(DamlBuiltinFunction::GreaterEq),
        6 => Ok(DamlBuiltinFunction::Greater),
        7 => Ok(DamlBuiltinFunction::AddInt64),
        8 => Ok(DamlBuiltinFunction::SubInt64),
        9 => Ok(DamlBuiltinFunction::MulInt64),
        10 => Ok(DamlBuiltinFunction::DivInt64),
        11 => Ok(DamlBuiltinFunction::ModInt64),
        12 => Ok(DamlBuiltinFunction::ExpInt64),
        13 => Ok(DamlBuiltinFunction::AddNumeric),
        14 => Ok(DamlBuiltinFunction::SubNumeric),
        15 => Ok(DamlBuiltinFunction::MulNumeric),
        16 => Ok(DamlBuiltinFunction::DivNumeric),
        17 => Ok(DamlBuiltinFunction::RoundNumeric),
        18 => Ok(DamlBuiltinFunction::CastNumeric),
        19 => Ok(DamlBuiltinFunction::ShiftNumeric),
        20 => Ok(DamlBuiltinFunction::Int64ToNumeric),
        21 => Ok(DamlBuiltinFunction::NumericToInt64),
        22 => Ok(DamlBuiltinFunction::Int64ToText),
        23 => Ok(DamlBuiltinFunction::NumericToText),
        24 => Ok(DamlBuiltinFunction::TimestampToText),
        25 => Ok(DamlBuiltinFunction::DateToText),
        26 => Ok(DamlBuiltinFunction::PartyToText),
        27 => Ok(DamlBuiltinFunction::TextToParty),
        28 => Ok(DamlBuiltinFunction::TextToInt64),
        29 => Ok(DamlBuiltinFunction::TextToNumeric),
        30 => Ok(DamlBuiltinFunction::ContractIdToText),
        31 => Ok(DamlBuiltinFunction::Sha256Text),
        32 => Ok(DamlBuiltinFunction::ExplodeText),
        33 => Ok(DamlBuiltinFunction::AppendText),
        34 => Ok(DamlBuiltinFunction::ImplodeText),
        35 => Ok(DamlBuiltinFunction::CodePointsToText),
        36 => Ok(DamlBuiltinFunction::TextPointsToCode),
        37 => Ok(DamlBuiltinFunction::DateToUnixDays),
        38 => Ok(DamlBuiltinFunction::UnixDaysToDate),
        39 => Ok(DamlBuiltinFunction::TimestampToUnixMicroseconds),
        40 => Ok(DamlBuiltinFunction::UnixMicrosecondsToTimestamp),
        41 => Ok(DamlBuiltinFunction::CoerceContractId),
        42 => Ok(DamlBuiltinFunction::Foldl),
        43 => Ok(DamlBuiltinFunction::Foldr),
        44 => Ok(DamlBuiltinFunction::EqualList),
        45 => Ok(DamlBuiltinFunction::GenmapEmpty),
        46 => Ok(DamlBuiltinFunction::GenmapInsert),
        47 => Ok(DamlBuiltinFunction::GenmapLookup),
        48 => Ok(DamlBuiltinFunction::GenmapDelete),
        49 => Ok(DamlBuiltinFunction::GenmapKeys),
        50 => Ok(DamlBuiltinFunction::GenmapValues),
        51 => Ok(DamlBuiltinFunction::GenmapSize),
        52 => Ok(DamlBuiltinFunction::TextmapEmpty),
        53 => Ok(DamlBuiltinFunction::TextmapInsert),
        54 => Ok(DamlBuiltinFunction::TextmapLookup),
        55 => Ok(DamlBuiltinFunction::TextmapDelete),
        56 => Ok(DamlBuiltinFunction::TextmapToList),
        57 => Ok(DamlBuiltinFunction::TextmapSize),
        58 => Ok(DamlBuiltinFunction::AnyExceptionMessage),
        59 => Ok(DamlBuiltinFunction::ScaleBignumeric),
        60 => Ok(DamlBuiltinFunction::PrecisionBignumeric),
        61 => Ok(DamlBuiltinFunction::AddBignumeric),
        62 => Ok(DamlBuiltinFunction::SubBignumeric),
        63 => Ok(DamlBuiltinFunction::MulBignumeric),
        64 => Ok(DamlBuiltinFunction::DivBignumeric),
        65 => Ok(DamlBuiltinFunction::ShiftRightBignumeric),
        66 => Ok(DamlBuiltinFunction::BigNumericToNumeric),
        67 => Ok(DamlBuiltinFunction::NumericToBigNumeric),
        68 => Ok(DamlBuiltinFunction::BigNumericToText),
        69 => Ok(DamlBuiltinFunction::FailWithStatus),
        70 => Ok(DamlBuiltinFunction::Keccak256Text),
        71 => Ok(DamlBuiltinFunction::Secp256k1Bool),
        72 => Ok(DamlBuiltinFunction::Secp256k1WithEcdsaBool),
        73 => Ok(DamlBuiltinFunction::Secp256k1ValidateKey),
        74 => Ok(DamlBuiltinFunction::HexToText),
        75 => Ok(DamlBuiltinFunction::TextToHex),
        76 => Ok(DamlBuiltinFunction::Sha256Hex),
        77 => Ok(DamlBuiltinFunction::TypeRepTyconName),
        _ => Err(DamlLfConvertError::UnknownBuiltinFunction(code)),
    }
}

/// Map a builtin constructor's number to the constructor.
pub fn convert_builtin_con(code: i32) -> (r: DamlLfConvertResult<DamlPrimCon>)
    ensures
        result_view(r) == spec_builtin_con_of(code),
{
    match code {
        0 => Ok(DamlPrimCon::Unit),
        1 => Ok(DamlPrimCon::False),
        2 => Ok(DamlPrimCon::True),
        _ => Err(DamlLfConvertError::UnknownPrimCon(code)),
    }
}

fn convert_rounding(code: i32) -> (r: DamlLfConvertResult<RoundingMode>)
    ensures
        match r {
            Ok(m) => spec_rounding_of(code) == Ok::<RoundingMode, ConvertErrorV>(m),
            Err(e) => spec_rounding_of(code) == Err::<RoundingMode, ConvertErrorV>(e@),
        },
{
    match code {
        0 => Ok(RoundingMode::Up),
        1 => Ok(RoundingMode::Down),
        2 => Ok(RoundingMode::Ceiling),
        3 => Ok(RoundingMode::Floor),
        4 => Ok(RoundingMode::HalfUp),
        5 => Ok(RoundingMode::HalfDown),
        6 => Ok(RoundingMode::HalfEven),
        7 => Ok(RoundingMode::Unnecessary),
        _ => Err(DamlLfConvertError::UnknownRoundingMode(code)),
    }
}

fn convert_failure(code: i32) -> (r: DamlLfConvertResult<FailureCategory>)
    ensures
        match r {
            Ok(f) => spec_failure_of(code) == Ok::<FailureCategory, ConvertErrorV>(f),
            Err(e) => spec_failure_of(code) == Err::<FailureCategory, ConvertErrorV>(e@),
        },
{
    match code {
        0 => Ok(FailureCategory::InvalidIndependentOfSystemState),
        1 => Ok(FailureCategory::InvalidGivenCurrentSystemStateOther),
        _ => {
            let mut text = String::from_str("unknown FailureCategory enum variant ");
            text.append(int_text(code as i64).as_str());
            Err(DamlLfConvertError::InternalError(text))
        },
    }
}

/// Convert a literal.
pub fn convert_builtin_lit<'a>(proto: &lf2::BuiltinLit, package: &DamlPackagePayload<'a>) -> (r: DamlLfConvertResult<DamlPrimLit>)
    ensures
        result_view(r) == spec_convert_builtin_lit(*proto, *package),
{
    match &proto.sum {
        None => Err(DamlLfConvertError::MissingRequiredField),
        Some(lf2::BuiltinLitSum::Int64(v)) => Ok(DamlPrimLit::Int64(*v)),
        Some(lf2::BuiltinLitSum::Timestamp(v)) => Ok(DamlPrimLit::Timestamp(*v)),
        Some(lf2::BuiltinLitSum::Date(v)) => Ok(DamlPrimLit::Date(*v)),
        Some(lf2::BuiltinLitSum::NumericInternedStr(i)) => Ok(DamlPrimLit::Numeric(package.resolve_string(*i)?)),
        Some(lf2::BuiltinLitSum::TextInternedStr(i)) => Ok(DamlPrimLit::Text(package.resolve_string(*i)?)),
        Some(lf2::BuiltinLitSum::RoundingMode(c)) => Ok(DamlPrimLit::RoundingMode(convert_rounding(*c)?)),
        Some(lf2::BuiltinLitSum::FailureCategory(c)) => Ok(DamlPrimLit::FailureCategory(convert_failure(*c)?)),
    }
}

fn convert_var_type<'a>(proto: &lf2::VarWithType, package: &DamlPackagePayload<'a>) -> (r: DamlLfConvertResult<DamlVarWithType>)
    ensures
        result_view(r) == spec_convert_var_type(*proto, *package),
{
    let var = package.resolve_string(proto.var_interned_str)?;
    let ty = convert_req_type(&proto.ty, package)?;
    Ok(DamlVarWithType { var, ty })
}

fn convert_var_types<'a>(protos: &Vec<lf2::VarWithType>, package: &DamlPackagePayload<'a>) -> (r: DamlLfConvertResult<Vec<DamlVarWithType>>)
    ensures
        match r {
            Ok(v) => spec_convert_var_types(protos@, *package) == Ok::<Seq<VarTypeV>, ConvertErrorV>(var_types_view(v@)),
            Err(e) => spec_convert_var_types(protos@, *package) == Err::<Seq<VarTypeV>, ConvertErrorV>(e@),
        },
{
    let ghost s = protos@;
    let mut out: Vec<DamlVarWithType> = Vec::new();
    let mut i: usize = 0;
    assert(s.subrange(0, s.len() as int) =~= s);
    assert(var_types_view(out@) =~= Seq::<VarTypeV>::empty());
    while i < protos.len()
        invariant
            0 <= i <= protos.len(),
            s == protos@,
            spec_convert_var_types(s, *package) == prepend(var_types_view(out@), spec_convert_var_types(s.subrange(i as int, s.len() as int), *package)),
        decreases protos.len() - i,
    {
        let ghost rest = s.subrange(i as int, s.len() as int);
        assert(rest[0] == s[i as int]);
        assert(rest.subrange(1, rest.len() as int) =~= s.subrange(i + 1, s.len() as int));
        match convert_var_type(&protos[i], package) {
            Err(e) => {
                return Err(e);
            },
            Ok(v) => {
                let ghost before = out@;
                out.push(v);
                proof {
                    lemma_prepend_step(var_types_view(before), v@, spec_convert_var_types(s.subrange(i + 1, s.len() as int), *package));
                    assert(out@.drop_last() =~= before);
                    assert(var_types_view(out@) =~= var_types_view(before).push(v@));
                }
            },
        }
        i += 1;
    }
    assert(s.subrange(i as int, s.len() as int) =~= Seq::<lf2::VarWithType>::empty());
    assert(var_types_view(out@) + Seq::<VarTypeV>::empty() =~= var_types_view(out@));
    Ok(out)
}

fn convert_alt_sum<'a>(proto: &Option<lf2::CaseAltSum>, package: &DamlPackagePayload<'a>) -> (r: DamlLfConvertResult<DamlCaseAltSum>)
    ensures
        result_view(r) == spec_convert_alt_sum(*proto, *package),
{
    match proto {
        None => Err(DamlLfConvertError::MissingRequiredField),
        Some(lf2::CaseAltSum::Default(_)) => {
            Ok(DamlCaseAltSum::Default)
        },
        Some(lf2::CaseAltSum::Variant { con, variant_interned_str, binder_interned_str }) => {
            let con = convert_req_tycon_id(con, package)?;
            let variant = package.resolve_string(*variant_interned_str)?;
            let binder = package.resolve_string(*binder_interned_str)?;
            Ok(DamlCaseAltSum::Variant { con, variant, binder })
        },
        Some(lf2::CaseAltSum::BuiltinCon(con)) => {
            let con = convert_builtin_con(*con)?;
            Ok(DamlCaseAltSum::PrimCon(con))
        },
        Some(lf2::CaseAltSum::Nil(_)) => {
            Ok(DamlCaseAltSum::Nil)
        },
        Some(lf2::CaseAltSum::Cons { var_head_interned_str, var_tail_interned_str }) => {
            let var_head = package.resolve_string(*var_head_interned_str)?;
            let var_tail = package.resolve_string(*var_tail_interned_str)?;
            Ok(DamlCaseAltSum::Cons { var_head, var_tail })
        },
        Some(lf2::CaseAltSum::OptionalNone(_)) => {
            Ok(DamlCaseAltSum::OptionalNone)
        },
        Some(lf2::CaseAltSum::OptionalSome { var_body_interned_str }) => {
            let var_body = package.resolve_string(*var_body_interned_str)?;
            Ok(DamlCaseAltSum::OptionalSome { var_body })
        },
        Some(lf2::CaseAltSum::Enum { con, constructor_interned_str }) => {
            let con = convert_req_tycon_id(con, package)?;
            let constructor = package.resolve_string(*constructor_interned_str)?;
            Ok(DamlCaseAltSum::Enum { con, constructor })
        },
    }
}

/// Convert an LF2 expression into an element expression. A reference to an
/// interned expression is refused with an internal error: the table of
/// interned expressions is not carried over to the element layer.
#[verifier::spinoff_prover]
#[verifier::rlimit(100)]
pub fn convert_expr<'a>(proto: &lf2::Expr, package: &DamlPackagePayload<'a>) -> (r: DamlLfConvertResult<DamlExpr>)
    ensures
        result_view(r) == spec_convert_expr(*proto, *package),
    decreases *proto, 1int,
{
    match &proto.sum {
        None => Err(DamlLfConvertError::MissingRequiredField),
        Some(lf2::ExprSum::VarInternedStr(var_interned_str)) => {
            let var = package.resolve_string(*var_interned_str)?;
            Ok(DamlExpr::Var(var))
        },
        Some(lf2::ExprSum::Val(value)) => {
            let value = convert_value_id(value, package)?;
            Ok(DamlExpr::Val(value))
        },
        Some(lf2::ExprSum::Builtin(function)) => {
            let function = convert_builtin_function(*function)?;
            Ok(DamlExpr::Builtin(function))
        },
        Some(lf2::ExprSum::BuiltinCon(con)) => {
            let con = convert_builtin_con(*con)?;
            Ok(DamlExpr::PrimCon(con))
        },
        Some(lf2::ExprSum::BuiltinLit(lit)) => {
            let lit = convert_builtin_lit(lit, package)?;
            Ok(DamlExpr::PrimLit(lit))
        },
        Some(lf2::ExprSum::Nil { ty }) => {
            let ty = convert_req_type(ty, package)?;
            Ok(DamlExpr::Nil { ty })
        },
        Some(lf2::ExprSum::OptionalNone { ty }) => {
            let ty = convert_req_type(ty, package)?;
            Ok(DamlExpr::OptionalNone { ty })
        },
        Some(lf2::ExprSum::TypeRep(ty)) => {
            let ty = convert_type(ty, package)?;
            Ok(DamlExpr::TypeRep(ty))
        },
        Some(lf2::ExprSum::RecCon { tycon, fields }) => {
            let tycon = convert_req_type_con(tycon, package)?;
            let fields = convert_field_exprs(fields, package)?;
            Ok(DamlExpr::RecCon { tycon, fields })
        },
        Some(lf2::ExprSum::RecProj { tycon, record, field_interned_str }) => {
            let tycon = convert_req_type_con(tycon, package)?;
            let record = Box::new(convert_req_expr(record, package)?);
            let field = package.resolve_string(*field_interned_str)?;
            Ok(DamlExpr::RecProj { tycon, record, field })
        },
        Some(lf2::ExprSum::RecUpd { tycon, record, update, field_interned_str }) => {
            let tycon = convert_req_type_con(tycon, package)?;
            let record = Box::new(convert_req_expr(record, package)?);
            let update = Box::new(convert_req_expr(update, package)?);
            let field = package.resolve_string(*field_interned_str)?;
            Ok(DamlExpr::RecUpd { tycon, record, update, field })
        },
        Some(lf2::ExprSum::VariantCon { tycon, variant_arg, variant_con_interned_str }) => {
            let tycon = convert_req_type_con(tycon, package)?;
            let variant_arg = Box::new(convert_req_expr(variant_arg, package)?);
            let variant_con = package.resolve_string(*variant_con_interned_str)?;
            Ok(DamlExpr::VariantCon { tycon, variant_arg, variant_con })
        },
        Some(lf2::ExprSum::EnumCon { tycon, enum_con_interned_str }) => {
            let tycon = convert_req_tycon_id(tycon, package)?;
            let enum_con = package.resolve_string(*enum_con_interned_str)?;
            Ok(DamlExpr::EnumCon { tycon, enum_con })
        },
        Some(lf2::ExprSum::StructCon { fields }) => {
            let fields = convert_field_exprs(fields, package)?;
            Ok(DamlExpr::StructCon { fields })
        },
        Some(lf2::ExprSum::StructProj { struct_expr, field_interned_str }) => {
            let struct_expr = Box::new(convert_req_expr(struct_expr, package)?);
            let field = package.resolve_string(*field_interned_str)?;
            Ok(DamlExpr::StructProj { struct_expr, field })
        },
        Some(lf2::ExprSum::StructUpd { struct_expr, update, field_interned_str }) => {
            let struct_expr = Box::new(convert_req_expr(struct_expr, package)?);
            let update = Box::new(convert_req_expr(update, package)?);
            let field = package.resolve_string(*field_interned_str)?;
            Ok(DamlExpr::StructUpd { struct_expr, update, field })
        },
        Some(lf2::ExprSum::ToAny { ty, expr }) => {
            let ty = convert_req_type(ty, package)?;
            let expr = Box::new(convert_req_expr(expr, package)?);
            Ok(DamlExpr::ToAny { ty, expr })
        },
        Some(lf2::ExprSum::FromAny { ty, expr }) => {
            let ty = convert_req_type(ty, package)?;
            let expr = Box::new(convert_req_expr(expr, package)?);
            Ok(DamlExpr::FromAny { ty, expr })
        },
        Some(lf2::ExprSum::App { fun, args }) => {
            let fun = Box::new(convert_req_expr(fun, package)?);
            let args = convert_exprs(args, package)?;
            Ok(DamlExpr::App { fun, args })
        },
        Some(lf2::ExprSum::TyApp { expr, types }) => {
            let expr = Box::new(convert_req_expr(expr, package)?);
            let types = convert_types_full(types, package)?;
            Ok(DamlExpr::TyApp { expr, types })
        },
        Some(lf2::ExprSum::Abs { params, body }) => {
            let params = convert_var_types(params, package)?;
            let body = Box::new(convert_req_expr(body, package)?);
            Ok(DamlExpr::Abs { params, body })
        },
        Some(lf2::ExprSum::TyAbs { params, body }) => {
            let params = convert_typevars(params, package)?;
            let body = Box::new(convert_req_expr(body, package)?);
            Ok(DamlExpr::TyAbs { params, body })
        },
        Some(lf2::ExprSum::Case { scrut, alts }) => {
            let scrut = Box::new(convert_req_expr(scrut, package)?);
            let alts = convert_alts(alts, package)?;
            Ok(DamlExpr::Case { scrut, alts })
        },
        Some(lf2::ExprSum::Let(block)) => {
            let block = convert_block(block, package)?;
            Ok(DamlExpr::Let(block))
        },
        Some(lf2::ExprSum::Cons { ty, front, tail }) => {
            let ty = convert_req_type(ty, package)?;
            let front = convert_exprs(front, package)?;
            let tail = Box::new(convert_req_expr(tail, package)?);
            Ok(DamlExpr::Cons { ty, front, tail })
        },
        Some(lf2::ExprSum::OptionalSome { ty, value }) => {
            let ty = convert_req_type(ty, package)?;
            let value = Box::new(convert_req_expr(value, package)?);
            Ok(DamlExpr::OptionalSome { ty, value })
        },
        Some(lf2::ExprSum::ToAnyException { ty, expr }) => {
            let ty = convert_req_type(ty, package)?;
            let expr = Box::new(convert_req_expr(expr, package)?);
            Ok(DamlExpr::ToAnyException { ty, expr })
        },
        Some(lf2::ExprSum::FromAnyException { ty, expr }) => {
            let ty = convert_req_type(ty, package)?;
            let expr = Box::new(convert_req_expr(expr, package)?);
            Ok(DamlExpr::FromAnyException { ty, expr })
        },
        Some(lf2::ExprSum::Throw { return_type, exception_type, exception_expr }) => {
            let return_type = convert_req_type(return_type, package)?;
            let exception_type = convert_req_type(exception_type, package)?;
            let exception_expr = Box::new(convert_req_expr(exception_expr, package)?);
            Ok(DamlExpr::Throw { return_type, exception_type, exception_expr })
        },
        Some(lf2::ExprSum::Update(update)) => {
            let update = Box::new(convert_update(update, package)?);
            Ok(DamlExpr::Update(update))
        },
        Some(lf2::ExprSum::InternedExpr(_)) => {
            proof {
                reveal_strlit("interned-expr references are not supported");
            }
            Err(DamlLfConvertError::InternalError(String::from_str("interned-expr references are not supported")))
        },
        Some(lf2::ExprSum::Experimental(_)) => {
            let version = package.language_version.to_string();
            Err(
                DamlLfConvertError::UnsupportedFeatureUsed(
                    version,
                    String::from_str("Experimental expression"),
                    String::from_str("2.dev"),
                ),
            )
        },
        _ => convert_interface_expr(proto, package),
    }
}

/// Convert an expression that works on interfaces, or on templates and their
/// choices.
#[verifier::spinoff_prover]
#[verifier::rlimit(100)]
fn convert_interface_expr<'a>(proto: &lf2::Expr, package: &DamlPackagePayload<'a>) -> (r: DamlLfConvertResult<DamlExpr>)
    requires
        is_interface_expr(*proto),
    ensures
        result_view(r) == spec_convert_expr(*proto, *package),
    decreases *proto, 0int,
{
    match &proto.sum {
        Some(lf2::ExprSum::ToInterface { interface_type, template_type, template_expr }) => {
            let interface_type = convert_req_tycon_id(interface_type, package)?;
            let template_type = convert_req_tycon_id(template_type, package)?;
            let template_expr = Box::new(convert_req_expr(template_expr, package)?);
            Ok(DamlExpr::ToInterface { interface_type, template_type, template_expr })
        },
        Some(lf2::ExprSum::FromInterface { interface_type, template_type, interface_expr }) => {
            let interface_type = convert_req_tycon_id(interface_type, package)?;
            let template_type = convert_req_tycon_id(template_type, package)?;
            let interface_expr = Box::new(convert_req_expr(interface_expr, package)?);
            Ok(DamlExpr::FromInterface { interface_type, template_type, interface_expr })
        },
        Some(lf2::ExprSum::CallInterface { method_interned_str, interface_type, interface_expr }) => {
            let method = package.resolve_string(*method_interned_str)?;
            let interface_type = convert_req_tycon_id(interface_type, package)?;
            let interface_expr = Box::new(convert_req_expr(interface_expr, package)?);
            Ok(DamlExpr::CallInterface { method, interface_type, interface_expr })
        },
        Some(lf2::ExprSum::ViewInterface { interface, expr }) => {
            let interface = convert_req_tycon_id(interface, package)?;
            let expr = Box::new(convert_req_expr(expr, package)?);
            Ok(DamlExpr::ViewInterface { interface, expr })
        },
        Some(lf2::ExprSum::SignatoryInterface { interface, expr }) => {
            let interface = convert_req_tycon_id(interface, package)?;
            let expr = Box::new(convert_req_expr(expr, package)?);
            Ok(DamlExpr::SignatoryInterface { interface, expr })
        },
        Some(lf2::ExprSum::ObserverInterface { interface, expr }) => {
            let interface = convert_req_tycon_id(interface, package)?;
            let expr = Box::new(convert_req_expr(expr, package)?);
            Ok(DamlExpr::ObserverInterface { interface, expr })
        },
        Some(lf2::ExprSum::UnsafeFromInterface { interface_type, template_type, contract_id_expr, interface_expr }) => {
            let interface_type = convert_req_tycon_id(interface_type, package)?;
            let template_type = convert_req_tycon_id(template_type, package)?;
            let contract_id_expr = Box::new(convert_req_expr(contract_id_expr, package)?);
            let interface_expr = Box::new(convert_req_expr(interface_expr, package)?);
            Ok(DamlExpr::UnsafeFromInterface { interface_type, template_type, contract_id_expr, interface_expr })
        },
        Some(lf2::ExprSum::ToRequiredInterface { required_interface, requiring_interface, expr }) => {
            let required_interface = convert_req_tycon_id(required_interface, package)?;
            let requiring_interface = convert_req_tycon_id(requiring_interface, package)?;
            let expr = Box::new(convert_req_expr(expr, package)?);
            Ok(DamlExpr::ToRequiredInterface { required_interface, requiring_interface, expr })
        },
        Some(lf2::ExprSum::FromRequiredInterface { required_interface, requiring_interface, expr }) => {
            let required_interface = convert_req_tycon_id(required_interface, package)?;
            let requiring_interface = convert_req_tycon_id(requiring_interface, package)?;
            let expr = Box::new(convert_req_expr(expr, package)?);
            Ok(DamlExpr::FromRequiredInterface { required_interface, requiring_interface, expr })
        },
        Some(lf2::ExprSum::UnsafeFromRequiredInterface { required_interface, requiring_interface, contract_id_expr, interface_expr }) => {
            let required_interface = convert_req_tycon_id(required_interface, package)?;
            let requiring_interface = convert_req_tycon_id(requiring_interface, package)?;
            let contract_id_expr = Box::new(convert_req_expr(contract_id_expr, package)?);
            let interface_expr = Box::new(convert_req_expr(interface_expr, package)?);
            Ok(DamlExpr::UnsafeFromRequiredInterface { required_interface, requiring_interface, contract_id_expr, interface_expr })
        },
        Some(lf2::ExprSum::InterfaceTemplateTypeRep { interface, expr }) => {
            let interface = convert_req_tycon_id(interface, package)?;
            let expr = Box::new(convert_req_expr(expr, package)?);
            Ok(DamlExpr::InterfaceTemplateTypeRep { interface, expr })
        },
        Some(lf2::ExprSum::ChoiceController { choice_interned_str, template, contract_expr, choice_arg_expr }) => {
            let choice = package.resolve_string(*choice_interned_str)?;
            let template = convert_req_tycon_id(template, package)?;
            let contract_expr = Box::new(convert_req_expr(contract_expr, package)?);
            let choice_arg_expr = Box::new(convert_req_expr(choice_arg_expr, package)?);
            Ok(DamlExpr::ChoiceController { choice, template, contract_expr, choice_arg_expr })
        },
        Some(lf2::ExprSum::ChoiceObserver { choice_interned_str, template, contract_expr, choice_arg_expr }) => {
            let choice = package.resolve_string(*choice_interned_str)?;
            let template = convert_req_tycon_id(template, package)?;
            let contract_expr = Box::new(convert_req_expr(contract_expr, package)?);
            let choice_arg_expr = Box::new(convert_req_expr(choice_arg_expr, package)?);
            Ok(DamlExpr::ChoiceObserver { choice, template, contract_expr, choice_arg_expr })
        },
        _ => Err(DamlLfConvertError::MissingRequiredField),
    }
}

pub(crate) fn convert_req_expr<'a>(o: &Option<Box<lf2::Expr>>, package: &DamlPackagePayload<'a>) -> (r: DamlLfConvertResult<DamlExpr>)
    ensures
        result_view(r) == spec_req_expr(*o, *package),
    decreases *o, 1int,
{
    match o {
        None => Err(DamlLfConvertError::MissingRequiredField),
        Some(b) => convert_expr(b, package),
    }
}

fn convert_opt_expr<'a>(o: &Option<Box<lf2::Expr>>, package: &DamlPackagePayload<'a>) -> (r: DamlLfConvertResult<
    Option<Box<DamlExpr>>,
>)
    ensures
        match r {
            Ok(v) => spec_opt_expr(*o, *package) == Ok::<Option<Box<ExprV>>, ConvertErrorV>(opt_expr_view(v)),
            Err(e) => spec_opt_expr(*o, *package) == Err::<Option<Box<ExprV>>, ConvertErrorV>(e@),
        },
    decreases *o, 1int,
{
    match o {
        None => Ok(None),
        Some(b) => {
            let e = convert_expr(b, package)?;
            Ok(Some(Box::new(e)))
        },
    }
}

fn convert_exprs<'a>(protos: &Vec<lf2::Expr>, package: &DamlPackagePayload<'a>) -> (r: DamlLfConvertResult<Vec<DamlExpr>>)
    ensures
        match r {
            Ok(v) => spec_convert_exprs(protos@, *package) == Ok::<Seq<ExprV>, ConvertErrorV>(exprs_view(v@)),
            Err(e) => spec_convert_exprs(protos@, *package) == Err::<Seq<ExprV>, ConvertErrorV>(e@),
        },
    decreases protos@, 1int,
{
    let ghost s = protos@;
    let mut out: Vec<DamlExpr> = Vec::new();
    let mut i: usize = 0;
    assert(s.subrange(0, s.len() as int) =~= s);
    assert(exprs_view(out@) =~= Seq::<ExprV>::empty());
    while i < protos.len()
        invariant
            0 <= i <= protos.len(),
            s == protos@,
            spec_convert_exprs(s, *package) == prepend(exprs_view(out@), spec_convert_exprs(s.subrange(i as int, s.len() as int), *package)),
        decreases protos.len() - i,
    {
        let ghost rest = s.subrange(i as int, s.len() as int);
        assert(rest[0] == s[i as int]);
        assert(rest.subrange(1, rest.len() as int) =~= s.subrange(i + 1, s.len() as int));
        match convert_expr(&protos[i], package) {
            Err(e) => {
                return Err(e);
            },
            Ok(v) => {
                let ghost before = out@;
                out.push(v);
                proof {
                    lemma_prepend_step(exprs_view(before), expr_view(v), spec_convert_exprs(s.subrange(i + 1, s.len() as int), *package));
                    assert(out@.drop_last() =~= before);
                    assert(exprs_view(out@) =~= exprs_view(before).push(expr_view(v)));
                }
            },
        }
        i += 1;
    }
    assert(s.subrange(i as int, s.len() as int) =~= Seq::<lf2::Expr>::empty());
    assert(exprs_view(out@) + Seq::<ExprV>::empty() =~= exprs_view(out@));
    Ok(out)
}

fn convert_field_expr<'a>(proto: &lf2::FieldWithExpr, package: &DamlPackagePayload<'a>) -> (r: DamlLfConvertResult<
    DamlFieldWithExpr,
>)
    ensures
        match r {
            Ok(f) => spec_convert_field_expr(*proto, *package) == Ok::<FieldExprV, ConvertErrorV>(field_expr_view(f)),
            Err(e) => spec_convert_field_expr(*proto, *package) == Err::<FieldExprV, ConvertErrorV>(e@),
        },
    decreases *proto, 1int,
{
    let name = package.resolve_string(proto.field_interned_str)?;
    let expr = convert_req_expr(&proto.expr, package)?;
    Ok(DamlFieldWithExpr { name, expr })
}

fn convert_field_exprs<'a>(protos: &Vec<lf2::FieldWithExpr>, package: &DamlPackagePayload<'a>) -> (r: DamlLfConvertResult<Vec<DamlFieldWithExpr>>)
    ensures
        match r {
            Ok(v) => spec_convert_field_exprs(protos@, *package) == Ok::<Seq<FieldExprV>, ConvertErrorV>(field_exprs_view(v@)),
            Err(e) => spec_convert_field_exprs(protos@, *package) == Err::<Seq<FieldExprV>, ConvertErrorV>(e@),
        },
    decreases protos@, 1int,
{
    let ghost s = protos@;
    let mut out: Vec<DamlFieldWithExpr> = Vec::new();
    let mut i: usize = 0;
    assert(s.subrange(0, s.len() as int) =~= s);
    assert(field_exprs_view(out@) =~= Seq::<FieldExprV>::empty());
    while i < protos.len()
        invariant
            0 <= i <= protos.len(),
            s == protos@,
            spec_convert_field_exprs(s, *package) == prepend(field_exprs_view(out@), spec_convert_field_exprs(s.subrange(i as int, s.len() as int), *package)),
        decreases protos.len() - i,
    {
        let ghost rest = s.subrange(i as int, s.len() as int);
        assert(rest[0] == s[i as int]);
        assert(rest.subrange(1, rest.len() as int) =~= s.subrange(i + 1, s.len() as int));
        match convert_field_expr(&protos[i], package) {
            Err(e) => {
                return Err(e);
            },
            Ok(v) => {
                let ghost before = out@;
                out.push(v);
                proof {
                    lemma_prepend_step(field_exprs_view(before), field_expr_view(v), spec_convert_field_exprs(s.subrange(i + 1, s.len() as int), *package));
                    assert(out@.drop_last() =~= before);
                    assert(field_exprs_view(out@) =~= field_exprs_view(before).push(field_expr_view(v)));
                }
            },
        }
        i += 1;
    }
    assert(s.subrange(i as int, s.len() as int) =~= Seq::<lf2::FieldWithExpr>::empty());
    assert(field_exprs_view(out@) + Seq::<FieldExprV>::empty() =~= field_exprs_view(out@));
    Ok(out)
}

fn convert_binding<'a>(proto: &lf2::Binding, package: &DamlPackagePayload<'a>) -> (r: DamlLfConvertResult<DamlBinding>)
    ensures
        match r {
            Ok(b) => spec_convert_binding(*proto, *package) == Ok::<BindingV, ConvertErrorV>(binding_view(b)),
            Err(e) => spec_convert_binding(*proto, *package) == Err::<BindingV, ConvertErrorV>(e@),
        },
    decreases *proto, 1int,
{
    let binder = match &proto.binder {
        None => return Err(DamlLfConvertError::MissingRequiredField),
        Some(vt) => convert_var_type(vt, package)?,
    };
    let bound = convert_req_expr(&proto.bound, package)?;
    Ok(DamlBinding { binder, bound })
}

fn convert_bindings<'a>(protos: &Vec<lf2::Binding>, package: &DamlPackagePayload<'a>) -> (r: DamlLfConvertResult<Vec<DamlBinding>>)
    ensures
        match r {
            Ok(v) => spec_convert_bindings(protos@, *package) == Ok::<Seq<BindingV>, ConvertErrorV>(bindings_view(v@)),
            Err(e) => spec_convert_bindings(protos@, *package) == Err::<Seq<BindingV>, ConvertErrorV>(e@),
        },
    decreases protos@, 1int,
{
    let ghost s = protos@;
    let mut out: Vec<DamlBinding> = Vec::new();
    let mut i: usize = 0;
    assert(s.subrange(0, s.len() as int) =~= s);
    assert(bindings_view(out@) =~= Seq::<BindingV>::empty());
    while i < protos.len()
        invariant
            0 <= i <= protos.len(),
            s == protos@,
            spec_convert_bindings(s, *package) == prepend(bindings_view(out@), spec_convert_bindings(s.subrange(i as int, s.len() as int), *package)),
        decreases protos.len() - i,
    {
        let ghost rest = s.subrange(i as int, s.len() as int);
        assert(rest[0] == s[i as int]);
        assert(rest.subrange(1, rest.len() as int) =~= s.subrange(i + 1, s.len() as int));
        match convert_binding(&protos[i], package) {
            Err(e) => {
                return Err(e);
            },
            Ok(v) => {
                let ghost before = out@;
                out.push(v);
                proof {
                    lemma_prepend_step(bindings_view(before), binding_view(v), spec_convert_bindings(s.subrange(i + 1, s.len() as int), *package));
                    assert(out@.drop_last() =~= before);
                    assert(bindings_view(out@) =~= bindings_view(before).push(binding_view(v)));
                }
            },
        }
        i += 1;
    }
    assert(s.subrange(i as int, s.len() as int) =~= Seq::<lf2::Binding>::empty());
    assert(bindings_view(out@) + Seq::<BindingV>::empty() =~= bindings_view(out@));
    Ok(out)
}

fn convert_block<'a>(proto: &lf2::Block, package: &DamlPackagePayload<'a>) -> (r: DamlLfConvertResult<DamlBlock>)
    ensures
        result_view(r) == spec_convert_block(*proto, *package),
    decreases *proto, 1int,
{
    let bindings = convert_bindings(&proto.bindings, package)?;
    let body = convert_req_expr(&proto.body, package)?;
    Ok(DamlBlock { bindings, body: Box::new(body) })
}

fn convert_alt<'a>(proto: &lf2::CaseAlt, package: &DamlPackagePayload<'a>) -> (r: DamlLfConvertResult<DamlCaseAlt>)
    ensures
        match r {
            Ok(a) => spec_convert_alt(*proto, *package) == Ok::<CaseAltV, ConvertErrorV>(alt_view(a)),
            Err(e) => spec_convert_alt(*proto, *package) == Err::<CaseAltV, ConvertErrorV>(e@),
        },
    decreases *proto, 1int,
{
    let body = convert_req_expr(&proto.body, package)?;
    let sum = convert_alt_sum(&proto.sum, package)?;
    Ok(DamlCaseAlt { body, sum })
}

fn convert_alts<'a>(protos: &Vec<lf2::CaseAlt>, package: &DamlPackagePayload<'a>) -> (r: DamlLfConvertResult<Vec<DamlCaseAlt>>)
    ensures
        match r {
            Ok(v) => spec_convert_alts(protos@, *package) == Ok::<Seq<CaseAltV>, ConvertErrorV>(alts_view(v@)),
            Err(e) => spec_convert_alts(protos@, *package) == Err::<Seq<CaseAltV>, ConvertErrorV>(e@),
        },
    decreases protos@, 1int,
{
    let ghost s = protos@;
    let mut out: Vec<DamlCaseAlt> = Vec::new();
    let mut i: usize = 0;
    assert(s.subrange(0, s.len() as int) =~= s);
    assert(alts_view(out@) =~= Seq::<CaseAltV>::empty());
    while i < protos.len()
        invariant
            0 <= i <= protos.len(),
            s == protos@,
            spec_convert_alts(s, *package) == prepend(alts_view(out@), spec_convert_alts(s.subrange(i as int, s.len() as int), *package)),
        decreases protos.len() - i,
    {
        let ghost rest = s.subrange(i as int, s.len() as int);
        assert(rest[0] == s[i as int]);
        assert(rest.subrange(1, rest.len() as int) =~= s.subrange(i + 1, s.len() as int));
        match convert_alt(&protos[i], package) {
            Err(e) => {
                return Err(e);
            },
            Ok(v) => {
                let ghost before = out@;
                out.push(v);
                proof {
                    lemma_prepend_step(alts_view(before), alt_view(v), spec_convert_alts(s.subrange(i + 1, s.len() as int), *package));
                    assert(out@.drop_last() =~= before);
                    assert(alts_view(out@) =~= alts_view(before).push(alt_view(v)));
                }
            },
        }
        i += 1;
    }
    assert(s.subrange(i as int, s.len() as int) =~= Seq::<lf2::CaseAlt>::empty());
    assert(alts_view(out@) + Seq::<CaseAltV>::empty() =~= alts_view(out@));
    Ok(out)
}

/// Convert an LF2 effect into an element effect, its expressions as
/// `convert_expr` converts them.
#[verifier::spinoff_prover]
#[verifier::rlimit(100)]
pub fn convert_update<'a>(proto: &lf2::Update, package: &DamlPackagePayload<'a>) -> (r: DamlLfConvertResult<
    DamlUpdate,
>)
    ensures
        result_view(r) == spec_convert_update(*proto, *package),
    decreases *proto, 1int,
{
    match &proto.sum {
        None => Err(DamlLfConvertError::MissingRequiredField),
        Some(lf2::UpdateSum::Pure { ty, expr }) => {
            let ty = convert_req_type(ty, package)?;
            let expr = Box::new(convert_req_expr(expr, package)?);
            Ok(DamlUpdate::Pure { ty, expr })
        },
        Some(lf2::UpdateSum::Block(block)) => {
            let block = convert_block(block, package)?;
            Ok(DamlUpdate::Block(block))
        },
        Some(lf2::UpdateSum::Create { template, expr }) => {
            let template = convert_req_tycon_id(template, package)?;
            let expr = Box::new(convert_req_expr(expr, package)?);
            Ok(DamlUpdate::Create { template, expr })
        },
        Some(lf2::UpdateSum::CreateInterface { interface, expr }) => {
            let interface = convert_req_tycon_id(interface, package)?;
            let expr = Box::new(convert_req_expr(expr, package)?);
            Ok(DamlUpdate::CreateInterface { interface, expr })
        },
        Some(lf2::UpdateSum::Exercise { template, cid, arg, choice_interned_str }) => {
            let template = convert_req_tycon_id(template, package)?;
            let cid = Box::new(convert_req_expr(cid, package)?);
            let arg = Box::new(convert_req_expr(arg, package)?);
            let choice = package.resolve_string(*choice_interned_str)?;
            Ok(DamlUpdate::Exercise { template, cid, arg, choice })
        },
        Some(lf2::UpdateSum::ExerciseInterface { interface, cid, arg, choice_interned_str, guard }) => {
            let interface = convert_req_tycon_id(interface, package)?;
            let cid = Box::new(convert_req_expr(cid, package)?);
            let arg = Box::new(convert_req_expr(arg, package)?);
            let choice = package.resolve_string(*choice_interned_str)?;
            let guard = convert_opt_expr(guard, package)?;
            Ok(DamlUpdate::ExerciseInterface { interface, cid, arg, choice, guard })
        },
        Some(lf2::UpdateSum::ExerciseByKey { template, choice_interned_str, key, arg }) => {
            let template = convert_req_tycon_id(template, package)?;
            let choice = package.resolve_string(*choice_interned_str)?;
            let key = Box::new(convert_req_expr(key, package)?);
            let arg = Box::new(convert_req_expr(arg, package)?);
            Ok(DamlUpdate::ExerciseByKey { template, choice, key, arg })
        },
        Some(lf2::UpdateSum::Fetch { template, cid }) => {
            let template = convert_req_tycon_id(template, package)?;
            let cid = Box::new(convert_req_expr(cid, package)?);
            Ok(DamlUpdate::Fetch { template, cid })
        },
        Some(lf2::UpdateSum::FetchInterface { interface, cid }) => {
            let interface = convert_req_tycon_id(interface, package)?;
            let cid = Box::new(convert_req_expr(cid, package)?);
            Ok(DamlUpdate::FetchInterface { interface, cid })
        },
        Some(lf2::UpdateSum::GetTime(_)) => {
            Ok(DamlUpdate::GetTime)
        },
        Some(lf2::UpdateSum::LookupByKey { template }) => {
            let template = convert_req_tycon_id(template, package)?;
            let key = Box::new(DamlExpr::OptionalNone { ty: DamlType::Unit });
            Ok(DamlUpdate::LookupByKey { template, key })
        },
        Some(lf2::UpdateSum::FetchByKey { template }) => {
            let template = convert_req_tycon_id(template, package)?;
            let key = Box::new(DamlExpr::OptionalNone { ty: DamlType::Unit });
            Ok(DamlUpdate::FetchByKey { template, key })
        },
        Some(lf2::UpdateSum::QueryNByKey { template }) => {
            let template = convert_req_tycon_id(template, package)?;
            Ok(DamlUpdate::QueryNByKey { template })
        },
        Some(lf2::UpdateSum::EmbedExpr { ty, body }) => {
            let ty = convert_req_type(ty, package)?;
            let body = Box::new(convert_req_expr(body, package)?);
            Ok(DamlUpdate::EmbedExpr { ty, body })
        },
        Some(lf2::UpdateSum::TryCatch { return_type, try_expr, var_interned_str, catch_expr }) => {
            let return_type = convert_req_type(return_type, package)?;
            let try_expr = Box::new(convert_req_expr(try_expr, package)?);
            let var = package.resolve_string(*var_interned_str)?;
            let catch_expr = Box::new(convert_req_expr(catch_expr, package)?);
            Ok(DamlUpdate::TryCatch { return_type, try_expr, var, catch_expr })
        },
        Some(lf2::UpdateSum::LedgerTimeLt(time)) => {
            let time = Box::new(convert_expr(time, package)?);
            Ok(DamlUpdate::LedgerTimeLt(time))
        },
    }
}

/// Convert a value definition: its dotted name, joined with `.`, its type
/// and its expression.
pub fn convert_def_value<'a>(proto: &lf2::DefValue, package: &DamlPackagePayload<'a>) -> (r: DamlLfConvertResult<DamlDefValue>)
    ensures
        result_view(r) == spec_convert_def_value(*proto, *package),
{
    let nt = match &proto.name_with_type {
        None => return Err(DamlLfConvertError::MissingRequiredField),
        Some(nt) => nt,
    };
    let segments = package.resolve_dotted(nt.name_interned_dname)?;
    let name = if segments.len() == 1 {
        segments[0].clone()
    } else {
        let joined = join(&segments, ".");
        assert(names_view(segments@) =~= segments@.map_values(|s: String| s@));
        joined
    };
    let ty = convert_req_type(&nt.ty, package)?;
    let expr = convert_req_expr(&proto.expr, package)?;
    Ok(DamlDefValue { name, ty, expr })
}

/// The form of a wire expression, numbered as `expr_form` numbers the
/// element forms; -1 for what has no element form.
pub open spec fn wire_expr_form(e: lf2::Expr) -> int {
    match e.sum {
        Some(lf2::ExprSum::VarInternedStr(..)) => 0,
        Some(lf2::ExprSum::Val(..)) => 1,
        Some(lf2::ExprSum::Builtin(..)) => 2,
        Some(lf2::ExprSum::BuiltinCon(..)) => 3,
        Some(lf2::ExprSum::BuiltinLit(..)) => 4,
        Some(lf2::ExprSum::Nil { .. }) => 5,
        Some(lf2::ExprSum::OptionalNone { .. }) => 6,
        Some(lf2::ExprSum::TypeRep(..)) => 7,
        Some(lf2::ExprSum::RecCon { .. }) => 8,
        Some(lf2::ExprSum::RecProj { .. }) => 9,
        Some(lf2::ExprSum::RecUpd { .. }) => 10,
        Some(lf2::ExprSum::VariantCon { .. }) => 11,
        Some(lf2::ExprSum::EnumCon { .. }) => 12,
        Some(lf2::ExprSum::StructCon { .. }) => 13,
        Some(lf2::ExprSum::StructProj { .. }) => 14,
        Some(lf2::ExprSum::StructUpd { .. }) => 15,
        Some(lf2::ExprSum::ToAny { .. }) => 16,
        Some(lf2::ExprSum::FromAny { .. }) => 17,
        Some(lf2::ExprSum::App { .. }) => 18,
        Some(lf2::ExprSum::TyApp { .. }) => 19,
        Some(lf2::ExprSum::Abs { .. }) => 20,
        Some(lf2::ExprSum::TyAbs { .. }) => 21,
        Some(lf2::ExprSum::Case { .. }) => 22,
        Some(lf2::ExprSum::Let(..)) => 23,
        Some(lf2::ExprSum::Cons { .. }) => 24,
        Some(lf2::ExprSum::OptionalSome { .. }) => 25,
        Some(lf2::ExprSum::ToAnyException { .. }) => 26,
        Some(lf2::ExprSum::FromAnyException { .. }) => 27,
        Some(lf2::ExprSum::Throw { .. }) => 28,
        Some(lf2::ExprSum::ToInterface { .. }) => 29,
        Some(lf2::ExprSum::FromInterface { .. }) => 30,
        Some(lf2::ExprSum::CallInterface { .. }) => 31,
        Some(lf2::ExprSum::ViewInterface { .. }) => 32,
        Some(lf2::ExprSum::SignatoryInterface { .. }) => 33,
        Some(lf2::ExprSum::ObserverInterface { .. }) => 34,
        Some(lf2::ExprSum::UnsafeFromInterface { .. }) => 35,
        Some(lf2::ExprSum::ToRequiredInterface { .. }) => 36,
        Some(lf2::ExprSum::FromRequiredInterface { .. }) => 37,
        Some(lf2::ExprSum::UnsafeFromRequiredInterface { .. }) => 38,
        Some(lf2::ExprSum::InterfaceTemplateTypeRep { .. }) => 39,
        Some(lf2::ExprSum::ChoiceController { .. }) => 40,
        Some(lf2::ExprSum::ChoiceObserver { .. }) => 41,
        Some(lf2::ExprSum::Update(..)) => 42,
        _ => -1,
    }
}

/// The form of an element expression.
pub open spec fn expr_form(x: ExprV) -> int {
    match x {
        ExprV::Var(..) => 0,
        ExprV::Val(..) => 1,
        ExprV::Builtin(..) => 2,
        ExprV::PrimCon(..) => 3,
        ExprV::PrimLit(..) => 4,
        ExprV::Nil { .. } => 5,
        ExprV::OptionalNone { .. } => 6,
        ExprV::TypeRep(..) => 7,
        ExprV::RecCon { .. } => 8,
        ExprV::RecProj { .. } => 9,
        ExprV::RecUpd { .. } => 10,
        ExprV::VariantCon { .. } => 11,
        ExprV::EnumCon { .. } => 12,
        ExprV::StructCon { .. } => 13,
        ExprV::StructProj { .. } => 14,
        ExprV::StructUpd { .. } => 15,
        ExprV::ToAny { .. } => 16,
        ExprV::FromAny { .. } => 17,
        ExprV::App { .. } => 18,
        ExprV::TyApp { .. } => 19,
        ExprV::Abs { .. } => 20,
        ExprV::TyAbs { .. } => 21,
        ExprV::Case { .. } => 22,
        ExprV::Let(..) => 23,
        ExprV::Cons { .. } => 24,
        ExprV::OptionalSome { .. } => 25,
        ExprV::ToAnyException { .. } => 26,
        ExprV::FromAnyException { .. } => 27,
        ExprV::Throw { .. } => 28,
        ExprV::ToInterface { .. } => 29,
        ExprV::FromInterface { .. } => 30,
        ExprV::CallInterface { .. } => 31,
        ExprV::ViewInterface { .. } => 32,
        ExprV::SignatoryInterface { .. } => 33,
        ExprV::ObserverInterface { .. } => 34,
        ExprV::UnsafeFromInterface { .. } => 35,
        ExprV::ToRequiredInterface { .. } => 36,
        ExprV::FromRequiredInterface { .. } => 37,
        ExprV::UnsafeFromRequiredInterface { .. } => 38,
        ExprV::InterfaceTemplateTypeRep { .. } => 39,
        ExprV::ChoiceController { .. } => 40,
        ExprV::ChoiceObserver { .. } => 41,
        ExprV::Update(..) => 42,
    }
}
/// The form of a wire effect, numbered as `update_form` numbers the element
/// forms.
pub open spec fn wire_update_form(u: lf2::Update) -> int {
    match u.sum {
        Some(lf2::UpdateSum::Pure { .. }) => 0,
        Some(lf2::UpdateSum::Block(..)) => 1,
        Some(lf2::UpdateSum::Create { .. }) => 2,
        Some(lf2::UpdateSum::CreateInterface { .. }) => 3,
        Some(lf2::UpdateSum::Exercise { .. }) => 4,
        Some(lf2::UpdateSum::ExerciseInterface { .. }) => 5,
        Some(lf2::UpdateSum::ExerciseByKey { .. }) => 6,
        Some(lf2::UpdateSum::Fetch { .. }) => 7,
        Some(lf2::UpdateSum::FetchInterface { .. }) => 8,
        Some(lf2::UpdateSum::GetTime(..)) => 9,
        Some(lf2::UpdateSum::LookupByKey { .. }) => 10,
        Some(lf2::UpdateSum::FetchByKey { .. }) => 11,
        Some(lf2::UpdateSum::QueryNByKey { .. }) => 12,
        Some(lf2::UpdateSum::EmbedExpr { .. }) => 13,
        Some(lf2::UpdateSum::TryCatch { .. }) => 14,
        Some(lf2::UpdateSum::LedgerTimeLt(..)) => 15,
        _ => -1,
    }
}

/// The form of an element effect.
pub open spec fn update_form(x: UpdateV) -> int {
    match x {
        UpdateV::Pure { .. } => 0,
        UpdateV::Block(..) => 1,
        UpdateV::Create { .. } => 2,
        UpdateV::CreateInterface { .. } => 3,
        UpdateV::Exercise { .. } => 4,
        UpdateV::ExerciseInterface { .. } => 5,
        UpdateV::ExerciseByKey { .. } => 6,
        UpdateV::Fetch { .. } => 7,
        UpdateV::FetchInterface { .. } => 8,
        UpdateV::GetTime => 9,
        UpdateV::LookupByKey { .. } => 10,
        UpdateV::FetchByKey { .. } => 11,
        UpdateV::QueryNByKey { .. } => 12,
        UpdateV::EmbedExpr { .. } => 13,
        UpdateV::TryCatch { .. } => 14,
        UpdateV::LedgerTimeLt(..) => 15,
    }
}
/// The form of a wire case pattern, numbered as `alt_form` numbers the
/// element forms.
pub open spec fn wire_alt_form(s: Option<lf2::CaseAltSum>) -> int {
    match s {
        Some(lf2::CaseAltSum::Default(..)) => 0,
        Some(lf2::CaseAltSum::Variant { .. }) => 1,
        Some(lf2::CaseAltSum::BuiltinCon(..)) => 2,
        Some(lf2::CaseAltSum::Nil(..)) => 3,
        Some(lf2::CaseAltSum::Cons { .. }) => 4,
        Some(lf2::CaseAltSum::OptionalNone(..)) => 5,
        Some(lf2::CaseAltSum::OptionalSome { .. }) => 6,
        Some(lf2::CaseAltSum::Enum { .. }) => 7,
        _ => -1,
    }
}

/// The form of an element case pattern.
pub open spec fn alt_form(x: CaseAltSumV) -> int {
    match x {
        CaseAltSumV::Default => 0,
        CaseAltSumV::Variant { .. } => 1,
        CaseAltSumV::PrimCon(..) => 2,
        CaseAltSumV::Nil => 3,
        CaseAltSumV::Cons { .. } => 4,
        CaseAltSumV::OptionalNone => 5,
        CaseAltSumV::OptionalSome { .. } => 6,
        CaseAltSumV::Enum { .. } => 7,
    }
}

/// The form of a wire literal, numbered as `lit_form` numbers the element
/// forms.
pub open spec fn wire_lit_form(l: lf2::BuiltinLit) -> int {
    match l.sum {
        Some(lf2::BuiltinLitSum::Int64(..)) => 0,
        Some(lf2::BuiltinLitSum::Timestamp(..)) => 1,
        Some(lf2::BuiltinLitSum::Date(..)) => 2,
        Some(lf2::BuiltinLitSum::NumericInternedStr(..)) => 3,
        Some(lf2::BuiltinLitSum::TextInternedStr(..)) => 4,
        Some(lf2::BuiltinLitSum::RoundingMode(..)) => 5,
        Some(lf2::BuiltinLitSum::FailureCategory(..)) => 6,
        None => -1,
    }
}

/// The form of an element literal.
pub open spec fn lit_form(l: PrimLitV) -> int {
    match l {
        PrimLitV::Int64(..) => 0,
        PrimLitV::Timestamp(..) => 1,
        PrimLitV::Date(..) => 2,
        PrimLitV::Numeric(..) => 3,
        PrimLitV::Text(..) => 4,
        PrimLitV::RoundingMode(..) => 5,
        PrimLitV::FailureCategory(..) => 6,
    }
}

/// A literal converts to an element literal of the same form.
pub proof fn law_literal_keeps_form<'a>(l: lf2::BuiltinLit, p: DamlPackagePayload<'a>)
    ensures
        spec_convert_builtin_lit(l, p) matches Ok(x) ==> lit_form(x) == wire_lit_form(l) && wire_lit_form(l) >= 0,
{
}

/// An expression converts to an element expression of the same form: a
/// variable to a variable, an application to an application, a literal to
/// a literal, and so on for every form. An expression with nothing in it, a
/// reference to an interned expression and a 2.dev experimental expression
/// are refused.
#[verifier::spinoff_prover]
#[verifier::rlimit(100)]
pub proof fn law_expr_keeps_form<'a>(e: lf2::Expr, p: DamlPackagePayload<'a>)
    ensures
        spec_convert_expr(e, p) matches Ok(x) ==> expr_form(x) == wire_expr_form(e) && wire_expr_form(e) >= 0,
        e.sum is None ==> spec_convert_expr(e, p) is Err,
        (e.sum matches Some(lf2::ExprSum::InternedExpr(_))) ==> spec_convert_expr(e, p) is Err,
        (e.sum matches Some(lf2::ExprSum::Experimental(_))) ==> spec_convert_expr(e, p) is Err,{
    match e.sum {
        Some(lf2::ExprSum::VarInternedStr(..)) => {},
        Some(lf2::ExprSum::Val(..)) => {},
        Some(lf2::ExprSum::Builtin(..)) => {},
        Some(lf2::ExprSum::BuiltinCon(..)) => {},
        Some(lf2::ExprSum::BuiltinLit(..)) => {},
        Some(lf2::ExprSum::Nil { .. }) => {},
        Some(lf2::ExprSum::OptionalNone { .. }) => {},
        Some(lf2::ExprSum::TypeRep(..)) => {},
        Some(lf2::ExprSum::RecCon { .. }) => {},
        Some(lf2::ExprSum::RecProj { .. }) => {},
        Some(lf2::ExprSum::RecUpd { .. }) => {},
        Some(lf2::ExprSum::VariantCon { .. }) => {},
        Some(lf2::ExprSum::EnumCon { .. }) => {},
        Some(lf2::ExprSum::StructCon { .. }) => {},
        Some(lf2::ExprSum::StructProj { .. }) => {},
        Some(lf2::ExprSum::StructUpd { .. }) => {},
        Some(lf2::ExprSum::ToAny { .. }) => {},
        Some(lf2::ExprSum::FromAny { .. }) => {},
        Some(lf2::ExprSum::App { .. }) => {},
        Some(lf2::ExprSum::TyApp { .. }) => {},
        Some(lf2::ExprSum::Abs { .. }) => {},
        Some(lf2::ExprSum::TyAbs { .. }) => {},
        Some(lf2::ExprSum::Case { .. }) => {},
        Some(lf2::ExprSum::Let(..)) => {},
        Some(lf2::ExprSum::Cons { .. }) => {},
        Some(lf2::ExprSum::OptionalSome { .. }) => {},
        Some(lf2::ExprSum::ToAnyException { .. }) => {},
        Some(lf2::ExprSum::FromAnyException { .. }) => {},
        Some(lf2::ExprSum::Throw { .. }) => {},
        Some(lf2::ExprSum::ToInterface { .. }) => {},
        Some(lf2::ExprSum::FromInterface { .. }) => {},
        Some(lf2::ExprSum::CallInterface { .. }) => {},
        Some(lf2::ExprSum::ViewInterface { .. }) => {},
        Some(lf2::ExprSum::SignatoryInterface { .. }) => {},
        Some(lf2::ExprSum::ObserverInterface { .. }) => {},
        Some(lf2::ExprSum::UnsafeFromInterface { .. }) => {},
        Some(lf2::ExprSum::ToRequiredInterface { .. }) => {},
        Some(lf2::ExprSum::FromRequiredInterface { .. }) => {},
        Some(lf2::ExprSum::UnsafeFromRequiredInterface { .. }) => {},
        Some(lf2::ExprSum::InterfaceTemplateTypeRep { .. }) => {},
        Some(lf2::ExprSum::ChoiceController { .. }) => {},
        Some(lf2::ExprSum::ChoiceObserver { .. }) => {},
        Some(lf2::ExprSum::Update(..)) => {},
        _ => {},
    }
}

/// An effect converts to an element effect of the same form; an effect with
/// nothing in it is refused.
#[verifier::spinoff_prover]
#[verifier::rlimit(100)]
pub proof fn law_update_keeps_form<'a>(u: lf2::Update, p: DamlPackagePayload<'a>)
    ensures
        spec_convert_update(u, p) matches Ok(x) ==> update_form(x) == wire_update_form(u) && wire_update_form(u) >= 0,
        u.sum is None ==> spec_convert_update(u, p) is Err,
{
}

/// A case pattern converts to an element pattern of the same form; a
/// pattern with nothing in it is refused.
pub proof fn law_alt_keeps_form<'a>(s: Option<lf2::CaseAltSum>, p: DamlPackagePayload<'a>)
    ensures
        spec_convert_alt_sum(s, p) matches Ok(x) ==> alt_form(x) == wire_alt_form(s) && wire_alt_form(s) >= 0,
        s is None ==> spec_convert_alt_sum(s, p) is Err,
{
}

/// The place of a builtin function in the declaration of
/// `DamlBuiltinFunction`.
pub open spec fn builtin_function_form(b: DamlBuiltinFunction) -> int {
    match b {
        DamlBuiltinFunction::Trace => 0,
        DamlBuiltinFunction::Error => 1,
        DamlBuiltinFunction::Equal => 2,
        DamlBuiltinFunction::LessEq => 3,
        DamlBuiltinFunction::Less => 4,
        DamlBuiltinFunction::GreaterEq => 5,
        DamlBuiltinFunction::Greater => 6,
        DamlBuiltinFunction::AddInt64 => 7,
        DamlBuiltinFunction::SubInt64 => 8,
        DamlBuiltinFunction::MulInt64 => 9,
        DamlBuiltinFunction::DivInt64 => 10,
        DamlBuiltinFunction::ModInt64 => 11,
        DamlBuiltinFunction::ExpInt64 => 12,
        DamlBuiltinFunction::AddNumeric => 13,
        DamlBuiltinFunction::SubNumeric => 14,
        DamlBuiltinFunction::MulNumeric => 15,
        DamlBuiltinFunction::DivNumeric => 16,
        DamlBuiltinFunction::RoundNumeric => 17,
        DamlBuiltinFunction::CastNumeric => 18,
        DamlBuiltinFunction::ShiftNumeric => 19,
        DamlBuiltinFunction::Int64ToNumeric => 20,
        DamlBuiltinFunction::NumericToInt64 => 21,
        DamlBuiltinFunction::Int64ToText => 22,
        DamlBuiltinFunction::NumericToText => 23,
        DamlBuiltinFunction::TimestampToText => 24,
        DamlBuiltinFunction::DateToText => 25,
        DamlBuiltinFunction::PartyToText => 26,
        DamlBuiltinFunction::TextToParty => 27,
        DamlBuiltinFunction::TextToInt64 => 28,
        DamlBuiltinFunction::TextToNumeric => 29,
        DamlBuiltinFunction::ContractIdToText => 30,
        DamlBuiltinFunction::Sha256Text => 31,
        DamlBuiltinFunction::ExplodeText => 32,
        DamlBuiltinFunction::AppendText => 33,
        DamlBuiltinFunction::ImplodeText => 34,
        DamlBuiltinFunction::CodePointsToText => 35,
        DamlBuiltinFunction::TextPointsToCode => 36,
        DamlBuiltinFunction::DateToUnixDays => 37,
        DamlBuiltinFunction::UnixDaysToDate => 38,
        DamlBuiltinFunction::TimestampToUnixMicroseconds => 39,
        DamlBuiltinFunction::UnixMicrosecondsToTimestamp => 40,
        DamlBuiltinFunction::CoerceContractId => 41,
        DamlBuiltinFunction::Foldl => 42,
        DamlBuiltinFunction::Foldr => 43,
        DamlBuiltinFunction::EqualList => 44,
        DamlBuiltinFunction::GenmapEmpty => 45,
        DamlBuiltinFunction::GenmapInsert => 46,
        DamlBuiltinFunction::GenmapLookup => 47,
        DamlBuiltinFunction::GenmapDelete => 48,
        DamlBuiltinFunction::GenmapKeys => 49,
        DamlBuiltinFunction::GenmapValues => 50,
        DamlBuiltinFunction::GenmapSize => 51,
        DamlBuiltinFunction::TextmapEmpty => 52,
        DamlBuiltinFunction::TextmapInsert => 53,
        DamlBuiltinFunction::TextmapLookup => 54,
        DamlBuiltinFunction::TextmapDelete => 55,
        DamlBuiltinFunction::TextmapToList => 56,
        DamlBuiltinFunction::TextmapSize => 57,
        DamlBuiltinFunction::AnyExceptionMessage => 58,
        DamlBuiltinFunction::ScaleBignumeric => 59,
        DamlBuiltinFunction::PrecisionBignumeric => 60,
        DamlBuiltinFunction::AddBignumeric => 61,
        DamlBuiltinFunction::SubBignumeric => 62,
        DamlBuiltinFunction::MulBignumeric => 63,
        DamlBuiltinFunction::DivBignumeric => 64,
        DamlBuiltinFunction::ShiftRightBignumeric => 65,
        DamlBuiltinFunction::BigNumericToNumeric => 66,
        DamlBuiltinFunction::NumericToBigNumeric => 67,
        DamlBuiltinFunction::BigNumericToText => 68,
        DamlBuiltinFunction::FailWithStatus => 69,
        DamlBuiltinFunction::Keccak256Text => 70,
        DamlBuiltinFunction::Secp256k1Bool => 71,
        DamlBuiltinFunction::Secp256k1WithEcdsaBool => 72,
        DamlBuiltinFunction::Secp256k1ValidateKey => 73,
        DamlBuiltinFunction::HexToText => 74,
        DamlBuiltinFunction::TextToHex => 75,
        DamlBuiltinFunction::Sha256Hex => 76,
        DamlBuiltinFunction::TypeRepTyconName => 77,
    }
}

/// The builtin functions are numbered in the order `DamlBuiltinFunction`
/// declares them: each number below the count of them gives the function
/// at that place, so no two numbers give the same function, and every other
/// number is refused with the number in the error.
pub proof fn law_builtin_function_numbering(code: i32)
    ensures
        spec_builtin_of(code) matches Ok(b) ==> builtin_function_form(b) == code,
        0 <= code < 78 <==> spec_builtin_of(code) is Ok,
        !(0 <= code < 78) ==> spec_builtin_of(code) == Err::<DamlBuiltinFunction, ConvertErrorV>(
            ConvertErrorV::UnknownBuiltinFunction(code),
        ),
{
}

} // verus!
