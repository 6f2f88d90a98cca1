//! Converting LF2 types, type-constructor names and fields.

use vstd::prelude::*;

use crate::convert::interned::{
    names_result_view, spec_resolve_dotted, spec_resolve_string, PackageInternedResolver,
};
use crate::convert::package_payload::{spec_table_lookup, DamlPackagePayload};
use crate::convert::typevar_payload::{
    convert_typevar_with_kind, cyclic_error, spec_convert_typevar, spec_cyclic_text,
};
use crate::element::types::{
    fields_view, lemma_fields_view_push, lemma_types_view_push, names_view, type_view, typevars_view,
    types_view, DamlAbsoluteTyCon, DamlField, DamlForall, DamlStruct, DamlSyn, DamlTyCon, DamlTyConName,
    DamlType, DamlTypeSynName, DamlTypeVarWithKind, DamlVar, FieldV, TyConNameV, TypeV, TypeVarV,
};
use crate::error::{result_view, ConvertErrorV, DamlLfConvertError, DamlLfConvertResult};
use crate::lf2;
use crate::payload::str_equal;

verus! {

pub open spec fn interned_type_table() -> Seq<char> {
    seq!['i', 'n', 't', 'e', 'r', 'n', 'e', 'd', '-', 't', 'y', 'p', 'e']
}

/// The package id a package reference names.
pub open spec fn spec_resolve_package_ref<'a>(r: lf2::SelfOrImportedPackageId, p: DamlPackagePayload<'a>) -> Result<
    Seq<char>,
    ConvertErrorV,
> {
    match r.sum {
        None => Err(ConvertErrorV::MissingRequiredField),
        Some(lf2::PackageRef::SelfPackageId(_)) => Ok(p.package_id@),
        Some(lf2::PackageRef::ImportedPackageIdInternedStr(idx)) => spec_resolve_string(
            p.package.interned_strings@,
            idx as int,
        ),
        Some(lf2::PackageRef::PackageImportId(_)) => Err(ConvertErrorV::MissingRequiredField),
    }
}

/// The package id and module path a module reference names.
pub open spec fn spec_resolve_module_id<'a>(m: lf2::ModuleId, p: DamlPackagePayload<'a>) -> Result<
    (Seq<char>, Seq<Seq<char>>),
    ConvertErrorV,
> {
    match m.package_id {
        None => Err(ConvertErrorV::MissingRequiredField),
        Some(r) => match spec_resolve_package_ref(r, p) {
            Err(e) => Err(e),
            Ok(id) => match spec_resolve_dotted(
                p.package.interned_strings@,
                p.spec_dotted(),
                m.module_name_interned_dname as int,
            ) {
                Err(e) => Err(e),
                Ok(path) => Ok((id, path)),
            },
        },
    }
}

/// The name of the package with id `package_id`: this package's own name, a
/// name from the archive's table, or empty for a package outside the
/// archive.
pub open spec fn spec_package_name<'a>(p: DamlPackagePayload<'a>, package_id: Seq<char>) -> Seq<char> {
    if package_id == p.package_id@ {
        p.name@
    } else {
        match spec_table_lookup(p.pkg_names@, package_id) {
            Some(name) => name,
            None => Seq::empty(),
        }
    }
}

/// The absolute name of a type constructor or synonym in module `module`
/// with dotted name `name_index`. The last segment of the dotted name is the
/// data name; the segments before it extend the module path.
pub open spec fn spec_convert_type_name<'a>(
    module: Option<lf2::ModuleId>,
    name_index: i32,
    p: DamlPackagePayload<'a>,
) -> Result<TyConNameV, ConvertErrorV> {
    match module {
        None => Err(ConvertErrorV::MissingRequiredField),
        Some(m) => match spec_resolve_module_id(m, p) {
            Err(e) => Err(e),
            Ok((package_id, path)) => match spec_resolve_dotted(
                p.package.interned_strings@,
                p.spec_dotted(),
                name_index as int,
            ) {
                Err(e) => Err(e),
                Ok(segments) => if segments.len() == 0 {
                    Err(ConvertErrorV::MissingRequiredField)
                } else {
                    Ok(
                        TyConNameV::Absolute {
                            data_name: segments.last(),
                            package_id,
                            package_name: spec_package_name(p, package_id),
                            module_segments: path + segments.drop_last(),
                        },
                    )
                },
            },
        },
    }
}

pub open spec fn spec_convert_tycon_id<'a>(proto: lf2::TypeConId, p: DamlPackagePayload<'a>) -> Result<
    TyConNameV,
    ConvertErrorV,
> {
    spec_convert_type_name(proto.module, proto.name_interned_dname, p)
}

pub open spec fn spec_convert_tysyn_id<'a>(proto: lf2::TypeSynId, p: DamlPackagePayload<'a>) -> Result<
    TyConNameV,
    ConvertErrorV,
> {
    spec_convert_type_name(proto.module, proto.name_interned_dname, p)
}

/// The element type of a builtin type applied to `args`.
pub open spec fn spec_builtin_type_v(kind: lf2::BuiltinType, args: Seq<TypeV>) -> TypeV {
    match kind {
        lf2::BuiltinType::Unit => TypeV::Unit,
        lf2::BuiltinType::Bool => TypeV::Bool,
        lf2::BuiltinType::Int64 => TypeV::Int64,
        lf2::BuiltinType::Date => TypeV::Date,
        lf2::BuiltinType::Timestamp => TypeV::Timestamp,
        lf2::BuiltinType::Numeric => TypeV::Numeric(args),
        lf2::BuiltinType::Party => TypeV::Party,
        lf2::BuiltinType::Text => TypeV::Text,
        lf2::BuiltinType::ContractId => TypeV::ContractId(
            if args.len() > 0 {
                Some(Box::new(args[0]))
            } else {
                None
            },
        ),
        lf2::BuiltinType::Optional => TypeV::Optional(args),
        lf2::BuiltinType::List => TypeV::List(args),
        lf2::BuiltinType::Genmap => TypeV::GenMap(args),
        lf2::BuiltinType::Textmap => TypeV::TextMap(args),
        lf2::BuiltinType::Any => TypeV::Any,
        lf2::BuiltinType::AnyException => TypeV::AnyException,
        lf2::BuiltinType::TypeRep => TypeV::TypeRep,
        lf2::BuiltinType::Arrow => TypeV::Arrow,
        lf2::BuiltinType::Update => TypeV::Update,
        lf2::BuiltinType::Bignumeric => TypeV::Bignumeric,
        lf2::BuiltinType::FailureCategory => TypeV::FailureCategory,
        lf2::BuiltinType::RoundingMode => TypeV::RoundingMode,
    }
}

/// The place of a builtin type in the wire enumeration.
pub open spec fn builtin_form(kind: lf2::BuiltinType) -> int {
    match kind {
        lf2::BuiltinType::Unit => 0,
        lf2::BuiltinType::Bool => 1,
        lf2::BuiltinType::Int64 => 2,
        lf2::BuiltinType::Date => 3,
        lf2::BuiltinType::Timestamp => 4,
        lf2::BuiltinType::Numeric => 5,
        lf2::BuiltinType::Party => 6,
        lf2::BuiltinType::Text => 7,
        lf2::BuiltinType::ContractId => 8,
        lf2::BuiltinType::Optional => 9,
        lf2::BuiltinType::List => 10,
        lf2::BuiltinType::Genmap => 11,
        lf2::BuiltinType::Textmap => 12,
        lf2::BuiltinType::Any => 13,
        lf2::BuiltinType::AnyException => 14,
        lf2::BuiltinType::TypeRep => 15,
        lf2::BuiltinType::Arrow => 16,
        lf2::BuiltinType::Update => 17,
        lf2::BuiltinType::Bignumeric => 18,
        lf2::BuiltinType::FailureCategory => 19,
        lf2::BuiltinType::RoundingMode => 20,
    }
}

/// The place of a builtin element type in the same enumeration; -1 for a
/// type that is not a builtin.
pub open spec fn builtin_type_form(t: TypeV) -> int {
    match t {
        TypeV::Unit => 0,
        TypeV::Bool => 1,
        TypeV::Int64 => 2,
        TypeV::Date => 3,
        TypeV::Timestamp => 4,
        TypeV::Numeric(..) => 5,
        TypeV::Party => 6,
        TypeV::Text => 7,
        TypeV::ContractId(..) => 8,
        TypeV::Optional(..) => 9,
        TypeV::List(..) => 10,
        TypeV::GenMap(..) => 11,
        TypeV::TextMap(..) => 12,
        TypeV::Any => 13,
        TypeV::AnyException => 14,
        TypeV::TypeRep => 15,
        TypeV::Arrow => 16,
        TypeV::Update => 17,
        TypeV::Bignumeric => 18,
        TypeV::FailureCategory => 19,
        TypeV::RoundingMode => 20,
        _ => -1,
    }
}

/// A builtin type converts to the builtin element type of the same name, and
/// a builtin that takes arguments keeps them, in order (a contract id its
/// first).
pub proof fn law_builtin_type_keeps_form(kind: lf2::BuiltinType, args: Seq<TypeV>)
    ensures
        builtin_type_form(spec_builtin_type_v(kind, args)) == builtin_form(kind),
        kind == lf2::BuiltinType::Numeric ==> spec_builtin_type_v(kind, args) == TypeV::Numeric(args),
        kind == lf2::BuiltinType::Optional ==> spec_builtin_type_v(kind, args) == TypeV::Optional(args),
        kind == lf2::BuiltinType::List ==> spec_builtin_type_v(kind, args) == TypeV::List(args),
        kind == lf2::BuiltinType::Genmap ==> spec_builtin_type_v(kind, args) == TypeV::GenMap(args),
        kind == lf2::BuiltinType::Textmap ==> spec_builtin_type_v(kind, args) == TypeV::TextMap(args),
        kind == lf2::BuiltinType::ContractId && args.len() > 0 ==> spec_builtin_type_v(kind, args)
            == TypeV::ContractId(Some(Box::new(args[0]))),
{
}

/// The builtin types are numbered in the order of the wire enumeration:
/// each number below the count of them gives the type at that place, so no
/// two numbers give the same type, and every other number gives none.
pub proof fn law_builtin_type_numbering(code: i32)
    ensures
        lf2::spec_builtin_type(code) matches Some(k) ==> builtin_form(k) == code,
        0 <= code < 21 <==> lf2::spec_builtin_type(code) is Some,
{
}

/// The element kinded type variables of LF2 ones, or the first failure.
pub open spec fn spec_convert_typevars<'a>(vs: Seq<lf2::TypeVarWithKind>, p: DamlPackagePayload<'a>) -> Result<
    Seq<TypeVarV>,
    ConvertErrorV,
>
    decreases vs.len(),
{
    if vs.len() == 0 {
        Ok(Seq::empty())
    } else {
        match spec_convert_typevars(vs.drop_last(), p) {
            Err(e) => Err(e),
            Ok(out) => match spec_convert_typevar(
                vs.last(),
                p.package.interned_strings@,
                p.package.interned_kinds@,
            ) {
                Err(e) => Err(e),
                Ok(v) => Ok(out.push(v)),
            },
        }
    }
}

/// The element type of an LF2 type. Interned types are looked up in the
/// package's type table; `fuel` bounds how many lookups may be chained.
pub open spec fn spec_convert_type<'a>(t: lf2::Type, p: DamlPackagePayload<'a>, fuel: nat) -> Result<
    TypeV,
    ConvertErrorV,
>
    decreases fuel, t, 2int,
{
    match t.sum {
        None => Err(ConvertErrorV::MissingRequiredField),
        Some(lf2::TypeSum::Var(v)) => match spec_resolve_string(p.package.interned_strings@, v.var_interned_str as int) {
            Err(e) => Err(e),
            Ok(var) => match spec_convert_types(v.args@, p, fuel) {
                Err(e) => Err(e),
                Ok(args) => Ok(TypeV::Var(var, args)),
            },
        },
        Some(lf2::TypeSum::Con(c)) => match c.tycon {
            None => Err(ConvertErrorV::MissingRequiredField),
            Some(id) => match spec_convert_tycon_id(id, p) {
                Err(e) => Err(e),
                Ok(name) => match spec_convert_types(c.args@, p, fuel) {
                    Err(e) => Err(e),
                    Ok(args) => Ok(TypeV::TyCon(name, args)),
                },
            },
        },
        Some(lf2::TypeSum::Syn(s)) => match s.tysyn {
            None => Err(ConvertErrorV::MissingRequiredField),
            Some(id) => match spec_convert_tysyn_id(id, p) {
                Err(e) => Err(e),
                Ok(name) => match spec_convert_types(s.args@, p, fuel) {
                    Err(e) => Err(e),
                    Ok(args) => Ok(TypeV::Syn(name, args)),
                },
            },
        },
        Some(lf2::TypeSum::Builtin(b)) => match lf2::spec_builtin_type(b.builtin) {
            None => Err(ConvertErrorV::MissingRequiredField),
            Some(kind) => match spec_convert_types(b.args@, p, fuel) {
                Err(e) => Err(e),
                Ok(args) => Ok(spec_builtin_type_v(kind, args)),
            },
        },
        Some(lf2::TypeSum::Forall(f)) => match spec_convert_typevars(f.vars@, p) {
            Err(e) => Err(e),
            Ok(vars) => match f.body {
                None => Err(ConvertErrorV::MissingRequiredField),
                Some(body) => match spec_convert_type(*body, p, fuel) {
                    Err(e) => Err(e),
                    Ok(b) => Ok(TypeV::Forall(vars, Box::new(b))),
                },
            },
        },
        Some(lf2::TypeSum::Struct(s)) => match spec_convert_fields(s.fields@, p, fuel) {
            Err(e) => Err(e),
            Ok(fields) => Ok(TypeV::Struct(fields)),
        },
        Some(lf2::TypeSum::Nat(n)) => if n < 0 || n > 37 {
            Err(ConvertErrorV::MissingRequiredField)
        } else {
            Ok(TypeV::Nat(n as u8))
        },
        Some(lf2::TypeSum::InternedType(idx)) => if idx < 0 || idx >= p.package.interned_types@.len() {
            Err(ConvertErrorV::MissingRequiredField)
        } else if fuel == 0 {
            Err(ConvertErrorV::InternalError(spec_cyclic_text(interned_type_table())))
        } else {
            spec_convert_type(p.package.interned_types@[idx as int], p, (fuel - 1) as nat)
        },
        Some(lf2::TypeSum::Tapp(_)) => Err(ConvertErrorV::MissingRequiredField),
    }
}

/// The element types of LF2 types, or the first failure.
pub open spec fn spec_convert_types<'a>(ts: Seq<lf2::Type>, p: DamlPackagePayload<'a>, fuel: nat) -> Result<
    Seq<TypeV>,
    ConvertErrorV,
>
    decreases fuel, ts, 1int,
{
    if ts.len() == 0 {
        Ok(Seq::empty())
    } else {
        match spec_convert_types(ts.drop_last(), p, fuel) {
            Err(e) => Err(e),
            Ok(out) => match spec_convert_type(ts.last(), p, fuel) {
                Err(e) => Err(e),
                Ok(t) => Ok(out.push(t)),
            },
        }
    }
}

/// The element field of an LF2 field.
pub open spec fn spec_convert_field<'a>(f: lf2::FieldWithType, p: DamlPackagePayload<'a>, fuel: nat) -> Result<
    FieldV,
    ConvertErrorV,
>
    decreases fuel, f, 1int,
{
    match spec_resolve_string(p.package.interned_strings@, f.field_interned_str as int) {
        Err(e) => Err(e),
        Ok(name) => match f.ty {
            None => Err(ConvertErrorV::MissingRequiredField),
            Some(t) => match spec_convert_type(t, p, fuel) {
                Err(e) => Err(e),
                Ok(ty) => Ok(FieldV { name, ty }),
            },
        },
    }
}

/// The element fields of LF2 fields, or the first failure.
pub open spec fn spec_convert_fields<'a>(fs: Seq<lf2::FieldWithType>, p: DamlPackagePayload<'a>, fuel: nat) -> Result<
    Seq<FieldV>,
    ConvertErrorV,
>
    decreases fuel, fs, 1int,
{
    if fs.len() == 0 {
        Ok(Seq::empty())
    } else {
        match spec_convert_fields(fs.drop_last(), p, fuel) {
            Err(e) => Err(e),
            Ok(out) => match spec_convert_field(fs.last(), p, fuel) {
                Err(e) => Err(e),
                Ok(f) => Ok(out.push(f)),
            },
        }
    }
}

/// The full fuel of a package: one lookup per entry of its type table.
pub open spec fn type_fuel<'a>(p: DamlPackagePayload<'a>) -> nat {
    p.package.interned_types@.len()
}

/// The model of a list-of-types result.
pub open spec fn types_result_view(r: DamlLfConvertResult<Vec<DamlType>>) -> Result<Seq<TypeV>, ConvertErrorV> {
    match r {
        Ok(ts) => Ok(types_view(ts@)),
        Err(e) => Err(e@),
    }
}

/// The model of a list-of-fields result.
pub open spec fn fields_result_view(r: DamlLfConvertResult<Vec<DamlField>>) -> Result<Seq<FieldV>, ConvertErrorV> {
    match r {
        Ok(fs) => Ok(fields_view(fs@)),
        Err(e) => Err(e@),
    }
}

/// The model of a list-of-type-variables result.
pub open spec fn typevars_result_view(r: DamlLfConvertResult<Vec<DamlTypeVarWithKind>>) -> Result<
    Seq<TypeVarV>,
    ConvertErrorV,
> {
    match r {
        Ok(vs) => Ok(typevars_view(vs@)),
        Err(e) => Err(e@),
    }
}

/// The model of a type-constructor-name result.
pub open spec fn name_result_view(r: DamlLfConvertResult<DamlTyConName>) -> Result<TyConNameV, ConvertErrorV> {
    match r {
        Ok(n) => Ok(n@),
        Err(e) => Err(e@),
    }
}

/// Convert an LF2 type into an element type, resolving interned types and
/// kinds through the package's tables.
pub fn convert_type<'a>(proto: &lf2::Type, package: &DamlPackagePayload<'a>) -> (r: DamlLfConvertResult<DamlType>)
    ensures
        result_view(r) == spec_convert_type(*proto, *package, type_fuel(*package)),
{
    convert_type_with_fuel(proto, package, package.package.interned_types.len())
}

pub(crate) fn convert_type_with_fuel<'a>(proto: &lf2::Type, package: &DamlPackagePayload<'a>, fuel: usize) -> (r:
    DamlLfConvertResult<DamlType>)
    ensures
        result_view(r) == spec_convert_type(*proto, *package, fuel as nat),
    decreases fuel, *proto, 2int,
{
    match &proto.sum {
        None => Err(DamlLfConvertError::MissingRequiredField),
        Some(lf2::TypeSum::Var(v)) => {
            let var = package.resolve_string(v.var_interned_str)?;
            let args = convert_types_with_fuel(&v.args, package, fuel)?;
            Ok(DamlType::Var(DamlVar { var, type_arguments: args }))
        },
        Some(lf2::TypeSum::Con(c)) => {
            let tycon = match &c.tycon {
                None => return Err(DamlLfConvertError::MissingRequiredField),
                Some(id) => convert_tycon_id(id, package)?,
            };
            let args = convert_types_with_fuel(&c.args, package, fuel)?;
            Ok(DamlType::TyCon(DamlTyCon { tycon: Box::new(tycon), type_arguments: args }))
        },
        Some(lf2::TypeSum::Syn(s)) => {
            let tysyn = match &s.tysyn {
                None => return Err(DamlLfConvertError::MissingRequiredField),
                Some(id) => convert_tysyn_id(id, package)?,
            };
            let args = convert_types_with_fuel(&s.args, package, fuel)?;
            Ok(DamlType::Syn(DamlSyn { tysyn: Box::new(tysyn), args }))
        },
        Some(lf2::TypeSum::Builtin(b)) => convert_builtin(b, package, fuel),
        Some(lf2::TypeSum::Forall(f)) => {
            let vars = convert_typevars(&f.vars, package)?;
            let body = match &f.body {
                None => return Err(DamlLfConvertError::MissingRequiredField),
                Some(body) => convert_type_with_fuel(body, package, fuel)?,
            };
            Ok(DamlType::Forall(DamlForall { vars, body: Box::new(body) }))
        },
        Some(lf2::TypeSum::Struct(s)) => {
            let fields = convert_fields_with_fuel(&s.fields, package, fuel)?;
            Ok(DamlType::Struct(DamlStruct { fields }))
        },
        Some(lf2::TypeSum::Nat(n)) => {
            if *n < 0 || *n > 37 {
                return Err(DamlLfConvertError::MissingRequiredField);
            }
            Ok(DamlType::Nat(*n as u8))
        },
        Some(lf2::TypeSum::InternedType(idx)) => {
            let types = package.interned_types_raw();
            if *idx < 0 || *idx as usize >= types.len() {
                return Err(DamlLfConvertError::MissingRequiredField);
            }
            if fuel == 0 {
                proof {
                    reveal_strlit("interned-type");
                    assert("interned-type"@ =~= interned_type_table());
                }
                return Err(cyclic_error("interned-type"));
            }
            convert_type_with_fuel(&types[*idx as usize], package, fuel - 1)
        },
        Some(lf2::TypeSum::Tapp(_)) => Err(DamlLfConvertError::MissingRequiredField),
    }
}

fn convert_builtin<'a>(builtin: &lf2::TypeBuiltin, package: &DamlPackagePayload<'a>, fuel: usize) -> (r:
    DamlLfConvertResult<DamlType>)
    ensures
        result_view(r) == (match lf2::spec_builtin_type(builtin.builtin) {
            None => Err(ConvertErrorV::MissingRequiredField),
            Some(kind) => match spec_convert_types(builtin.args@, *package, fuel as nat) {
                Err(e) => Err(e),
                Ok(args) => Ok(spec_builtin_type_v(kind, args)),
            },
        }),
    decreases fuel, builtin.args@, 2int,
{
    let kind = match lf2::BuiltinType::from_i32(builtin.builtin) {
        None => return Err(DamlLfConvertError::MissingRequiredField),
        Some(kind) => kind,
    };
    let mut args = convert_types_with_fuel(&builtin.args, package, fuel)?;
    Ok(match kind {
        lf2::BuiltinType::Unit => DamlType::Unit,
        lf2::BuiltinType::Bool => DamlType::Bool,
        lf2::BuiltinType::Int64 => DamlType::Int64,
        lf2::BuiltinType::Date => DamlType::Date,
        lf2::BuiltinType::Timestamp => DamlType::Timestamp,
        lf2::BuiltinType::Numeric => DamlType::Numeric(args),
        lf2::BuiltinType::Party => DamlType::Party,
        lf2::BuiltinType::Text => DamlType::Text,
        lf2::BuiltinType::ContractId => {
            if args.len() > 0 {
                let ghost all = args@;
                let first = args.remove(0);
                assert(type_view(first) == types_view(all)[0]) by {
                    lemma_types_view_index(all, 0);
                }
                DamlType::ContractId(Some(Box::new(first)))
            } else {
                DamlType::ContractId(None)
            }
        },
        lf2::BuiltinType::Optional => DamlType::Optional(args),
        lf2::BuiltinType::List => DamlType::List(args),
        lf2::BuiltinType::Genmap => DamlType::GenMap(args),
        lf2::BuiltinType::Textmap => DamlType::TextMap(args),
        lf2::BuiltinType::Any => DamlType::Any,
        lf2::BuiltinType::AnyException => DamlType::AnyException,
        lf2::BuiltinType::TypeRep => DamlType::TypeRep,
        lf2::BuiltinType::Arrow => DamlType::Arrow,
        lf2::BuiltinType::Update => DamlType::Update,
        lf2::BuiltinType::Bignumeric => DamlType::Bignumeric,
        lf2::BuiltinType::FailureCategory => DamlType::FailureCategory,
        lf2::BuiltinType::RoundingMode => DamlType::RoundingMode,
    })
}

/// Each entry of a list's model is the model of the entry.
pub proof fn lemma_types_view_index(ts: Seq<DamlType>, i: int)
    requires
        0 <= i < ts.len(),
    ensures
        types_view(ts).len() == ts.len(),
        types_view(ts)[i] == type_view(ts[i]),
    decreases ts.len(),
{
    if i < ts.len() - 1 {
        lemma_types_view_index(ts.drop_last(), i);
    } else {
        lemma_types_view_len(ts.drop_last());
    }
}

pub proof fn lemma_types_view_len(ts: Seq<DamlType>)
    ensures
        types_view(ts).len() == ts.len(),
    decreases ts.len(),
{
    if ts.len() > 0 {
        lemma_types_view_len(ts.drop_last());
    }
}

pub(crate) fn convert_types_with_fuel<'a>(protos: &Vec<lf2::Type>, package: &DamlPackagePayload<'a>, fuel: usize) -> (r:
    DamlLfConvertResult<Vec<DamlType>>)
    ensures
        types_result_view(r) == spec_convert_types(protos@, *package, fuel as nat),
    decreases fuel, protos@, 1int,
{
    let mut out: Vec<DamlType> = Vec::new();
    let mut i: usize = 0;
    assert(protos@.take(0) =~= Seq::<lf2::Type>::empty());
    while i < protos.len()
        invariant
            0 <= i <= protos.len(),
            spec_convert_types(protos@.take(i as int), *package, fuel as nat) == Ok::<Seq<TypeV>, ConvertErrorV>(
                types_view(out@),
            ),
        decreases protos.len() - i,
    {
        assert(protos@.take(i + 1).drop_last() =~= protos@.take(i as int));
        assert(protos@.take(i + 1).last() == protos@[i as int]);
        match convert_type_with_fuel(&protos[i], package, fuel) {
            Ok(t) => {
                let ghost before = out@;
                out.push(t);
                proof {
                    lemma_types_view_push(before, t);
                }
            },
            Err(e) => {
                proof {
                    lemma_types_err_prefix(protos@, *package, fuel as nat, i as int + 1);
                }
                return Err(e);
            },
        }
        i += 1;
    }
    assert(protos@.take(protos.len() as int) =~= protos@);
    Ok(out)
}

proof fn lemma_types_err_prefix<'a>(ts: Seq<lf2::Type>, p: DamlPackagePayload<'a>, fuel: nat, i: int)
    requires
        0 <= i <= ts.len(),
        spec_convert_types(ts.take(i), p, fuel) is Err,
    ensures
        spec_convert_types(ts, p, fuel) == spec_convert_types(ts.take(i), p, fuel),
    decreases ts.len() - i,
{
    if i == ts.len() {
        assert(ts.take(i) =~= ts);
    } else {
        assert(ts.take(i + 1).drop_last() =~= ts.take(i));
        lemma_types_err_prefix(ts, p, fuel, i + 1);
    }
}

pub(crate) fn convert_field_with_fuel<'a>(proto: &lf2::FieldWithType, package: &DamlPackagePayload<'a>, fuel: usize) -> (r:
    DamlLfConvertResult<DamlField>)
    ensures
        result_view(r) == spec_convert_field(*proto, *package, fuel as nat),
    decreases fuel, *proto, 1int,
{
    let name = package.resolve_string(proto.field_interned_str)?;
    let ty = match &proto.ty {
        None => return Err(DamlLfConvertError::MissingRequiredField),
        Some(t) => convert_type_with_fuel(t, package, fuel)?,
    };
    Ok(DamlField { name, ty })
}

pub(crate) fn convert_fields_with_fuel<'a>(protos: &Vec<lf2::FieldWithType>, package: &DamlPackagePayload<'a>, fuel: usize) -> (r:
    DamlLfConvertResult<Vec<DamlField>>)
    ensures
        fields_result_view(r) == spec_convert_fields(protos@, *package, fuel as nat),
    decreases fuel, protos@, 1int,
{
    let mut out: Vec<DamlField> = Vec::new();
    let mut i: usize = 0;
    assert(protos@.take(0) =~= Seq::<lf2::FieldWithType>::empty());
    while i < protos.len()
        invariant
            0 <= i <= protos.len(),
            spec_convert_fields(protos@.take(i as int), *package, fuel as nat) == Ok::<Seq<FieldV>, ConvertErrorV>(
                fields_view(out@),
            ),
        decreases protos.len() - i,
    {
        assert(protos@.take(i + 1).drop_last() =~= protos@.take(i as int));
        assert(protos@.take(i + 1).last() == protos@[i as int]);
        match convert_field_with_fuel(&protos[i], package, fuel) {
            Ok(f) => {
                let ghost before = out@;
                out.push(f);
                proof {
                    lemma_fields_view_push(before, f);
                }
            },
            Err(e) => {
                proof {
                    lemma_fields_err_prefix(protos@, *package, fuel as nat, i as int + 1);
                }
                return Err(e);
            },
        }
        i += 1;
    }
    assert(protos@.take(protos.len() as int) =~= protos@);
    Ok(out)
}

proof fn lemma_fields_err_prefix<'a>(fs: Seq<lf2::FieldWithType>, p: DamlPackagePayload<'a>, fuel: nat, i: int)
    requires
        0 <= i <= fs.len(),
        spec_convert_fields(fs.take(i), p, fuel) is Err,
    ensures
        spec_convert_fields(fs, p, fuel) == spec_convert_fields(fs.take(i), p, fuel),
    decreases fs.len() - i,
{
    if i == fs.len() {
        assert(fs.take(i) =~= fs);
    } else {
        assert(fs.take(i + 1).drop_last() =~= fs.take(i));
        lemma_fields_err_prefix(fs, p, fuel, i + 1);
    }
}

pub(crate) fn convert_typevars<'a>(protos: &Vec<lf2::TypeVarWithKind>, package: &DamlPackagePayload<'a>) -> (r:
    DamlLfConvertResult<Vec<DamlTypeVarWithKind>>)
    ensures
        typevars_result_view(r) == spec_convert_typevars(protos@, *package),
{
    let kinds = package.interned_kinds_raw();
    let mut out: Vec<DamlTypeVarWithKind> = Vec::new();
    let mut i: usize = 0;
    assert(protos@.take(0) =~= Seq::<lf2::TypeVarWithKind>::empty());
    assert(typevars_view(out@) =~= Seq::<TypeVarV>::empty());
    while i < protos.len()
        invariant
            0 <= i <= protos.len(),
            kinds@ == package.package.interned_kinds@,
            spec_convert_typevars(protos@.take(i as int), *package) == Ok::<Seq<TypeVarV>, ConvertErrorV>(
                typevars_view(out@),
            ),
        decreases protos.len() - i,
    {
        assert(protos@.take(i + 1).drop_last() =~= protos@.take(i as int));
        assert(protos@.take(i + 1).last() == protos@[i as int]);
        match convert_typevar_with_kind(&protos[i], package, kinds) {
            Ok(v) => {
                let ghost before = out@;
                out.push(v);
                assert(typevars_view(out@) =~= typevars_view(before).push(v@));
            },
            Err(e) => {
                proof {
                    lemma_typevars_err_prefix(protos@, *package, i as int + 1);
                }
                return Err(e);
            },
        }
        i += 1;
    }
    assert(protos@.take(protos.len() as int) =~= protos@);
    Ok(out)
}

proof fn lemma_typevars_err_prefix<'a>(vs: Seq<lf2::TypeVarWithKind>, p: DamlPackagePayload<'a>, i: int)
    requires
        0 <= i <= vs.len(),
        spec_convert_typevars(vs.take(i), p) is Err,
    ensures
        spec_convert_typevars(vs, p) == spec_convert_typevars(vs.take(i), p),
    decreases vs.len() - i,
{
    if i == vs.len() {
        assert(vs.take(i) =~= vs);
    } else {
        assert(vs.take(i + 1).drop_last() =~= vs.take(i));
        lemma_typevars_err_prefix(vs, p, i + 1);
    }
}

/// Convert the type parameters of a definition.
pub fn convert_type_params<'a>(protos: &Vec<lf2::TypeVarWithKind>, package: &DamlPackagePayload<'a>) -> (r:
    DamlLfConvertResult<Vec<DamlTypeVarWithKind>>)
    ensures
        typevars_result_view(r) == spec_convert_typevars(protos@, *package),
{
    convert_typevars(protos, package)
}

/// Convert an LF2 type constructor applied to arguments.
pub fn convert_type_con<'a>(proto: &lf2::TypeCon, package: &DamlPackagePayload<'a>) -> (r: DamlLfConvertResult<DamlTyCon>)
    ensures
        match r {
            Ok(c) => match proto.tycon {
                None => false,
                Some(id) => spec_convert_tycon_id(id, *package) == Ok::<TyConNameV, ConvertErrorV>((*c.tycon)@)
                    && spec_convert_types(proto.args@, *package, type_fuel(*package)) == Ok::<
                    Seq<TypeV>,
                    ConvertErrorV,
                >(types_view(c.type_arguments@)),
            },
            Err(e) => match proto.tycon {
                None => e@ == ConvertErrorV::MissingRequiredField,
                Some(id) => spec_convert_tycon_id(id, *package) == Err::<TyConNameV, ConvertErrorV>(e@) || (
                spec_convert_tycon_id(id, *package) is Ok && spec_convert_types(
                    proto.args@,
                    *package,
                    type_fuel(*package),
                ) == Err::<Seq<TypeV>, ConvertErrorV>(e@)),
            },
        },
{
    let tycon = match &proto.tycon {
        None => return Err(DamlLfConvertError::MissingRequiredField),
        Some(id) => convert_tycon_id(id, package)?,
    };
    let args = convert_types_with_fuel(&proto.args, package, package.package.interned_types.len())?;
    Ok(DamlTyCon { tycon: Box::new(tycon), type_arguments: args })
}

/// Resolve a package reference to a package id.
fn resolve_package_ref<'a>(proto: &lf2::SelfOrImportedPackageId, package: &DamlPackagePayload<'a>) -> (r:
    DamlLfConvertResult<String>)
    ensures
        result_view(r) == spec_resolve_package_ref(*proto, *package),
{
    match &proto.sum {
        None => Err(DamlLfConvertError::MissingRequiredField),
        Some(lf2::PackageRef::SelfPackageId(_)) => Ok(package.package_id.clone()),
        Some(lf2::PackageRef::ImportedPackageIdInternedStr(idx)) => package.resolve_string(*idx),
        Some(lf2::PackageRef::PackageImportId(_)) => Err(DamlLfConvertError::MissingRequiredField),
    }
}

/// Resolve a module reference to its package id and module path.
fn resolve_module_id<'a>(proto: &lf2::ModuleId, package: &DamlPackagePayload<'a>) -> (r: DamlLfConvertResult<
    (String, Vec<String>),
>)
    ensures
        match r {
            Ok((id, path)) => spec_resolve_module_id(*proto, *package) == Ok::<
                (Seq<char>, Seq<Seq<char>>),
                ConvertErrorV,
            >((id@, names_view(path@))),
            Err(e) => spec_resolve_module_id(*proto, *package) == Err::<(Seq<char>, Seq<Seq<char>>), ConvertErrorV>(
                e@,
            ),
        },
{
    let package_id = match &proto.package_id {
        None => return Err(DamlLfConvertError::MissingRequiredField),
        Some(r) => resolve_package_ref(r, package)?,
    };
    let path = package.resolve_dotted(proto.module_name_interned_dname)?;
    Ok((package_id, path))
}

/// The name of the package with id `package_id`: this package's own name for
/// a self-reference, the archive's recorded name for another package, or
/// empty for a package outside the archive.
pub(crate) fn resolve_package_name<'a>(package: &DamlPackagePayload<'a>, package_id: &str) -> (name: String)
    ensures
        name@ == spec_package_name(*package, package_id@),
{
    if package.package_id.as_str().unicode_len() == package_id.unicode_len() && str_equal(
        package.package_id.as_str(),
        package_id,
    ) {
        package.name.clone()
    } else {
        match package.cross_pkg_name(package_id) {
            Some(name) => name.clone(),
            None => String::new(),
        }
    }
}

/// The absolute name of a type constructor or synonym.
pub(crate) fn convert_type_name<'a>(module: &Option<lf2::ModuleId>, name_index: i32, package: &DamlPackagePayload<'a>) -> (r:
    DamlLfConvertResult<DamlTyConName>)
    ensures
        name_result_view(r) == spec_convert_type_name(*module, name_index, *package),
{
    let (package_id, path) = match module {
        None => return Err(DamlLfConvertError::MissingRequiredField),
        Some(m) => resolve_module_id(m, package)?,
    };
    let segments = package.resolve_dotted(name_index)?;
    if segments.len() == 0 {
        return Err(DamlLfConvertError::MissingRequiredField);
    }
    let last = segments.len() - 1;
    let data_name = segments[last].clone();
    let mut full_path = path;
    let ghost base = full_path@;
    let mut i: usize = 0;
    while i < last
        invariant
            0 <= i <= last,
            last == segments@.len() - 1,
            names_view(full_path@) == names_view(base) + names_view(segments@).take(i as int),
        decreases last - i,
    {
        let ghost before = full_path@;
        full_path.push(segments[i].clone());
        assert(names_view(full_path@) =~= names_view(before).push(segments@[i as int]@));
        assert(names_view(segments@).take(i + 1) =~= names_view(segments@).take(i as int).push(
            segments@[i as int]@,
        ));
        i += 1;
    }
    assert(names_view(segments@).take(last as int) =~= names_view(segments@).drop_last());
    let package_name = resolve_package_name(package, package_id.as_str());
    Ok(DamlTyConName::Absolute(DamlAbsoluteTyCon::new(data_name, package_id, package_name, full_path)))
}

/// Convert an LF2 type constructor id into an absolute type-constructor
/// name. The last segment of its dotted name is the data name; earlier
/// segments extend the module path.
pub fn convert_tycon_id<'a>(proto: &lf2::TypeConId, package: &DamlPackagePayload<'a>) -> (r: DamlLfConvertResult<
    DamlTyConName,
>)
    ensures
        name_result_view(r) == spec_convert_tycon_id(*proto, *package),
{
    convert_type_name(&proto.module, proto.name_interned_dname, package)
}

/// Convert an LF2 type synonym id into a type-synonym name.
pub fn convert_tysyn_id<'a>(proto: &lf2::TypeSynId, package: &DamlPackagePayload<'a>) -> (r: DamlLfConvertResult<
    DamlTypeSynName,
>)
    ensures
        name_result_view(r) == spec_convert_tysyn_id(*proto, *package),
{
    convert_type_name(&proto.module, proto.name_interned_dname, package)
}

} // verus!
