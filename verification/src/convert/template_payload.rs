//! Converting LF2 choices, contract keys and implemented interfaces.

use vstd::prelude::*;

use crate::convert::interned::{spec_resolve_string, PackageInternedResolver};
use crate::convert::package_payload::DamlPackagePayload;
use crate::convert::type_payload::{
    convert_tycon_id, convert_type, name_result_view, spec_convert_tycon_id, spec_convert_type, type_fuel,
};
use crate::element::data::{ChoiceV, DamlChoice, DamlDefKey};
use crate::element::types::{copy_names, fields_view, lemma_fields_view_push, names_view, DamlField, DamlTyConName, FieldV, TyConNameV, TypeV};
use crate::error::{result_view, ConvertErrorV, DamlLfConvertError, DamlLfConvertResult};
use crate::lf2;
use crate::results::{
    lemma_map_convert_elementwise, lemma_map_convert_err_prefix, lemma_map_convert_full, lemma_map_convert_step,
    map_convert,
};
use crate::version::spec_version_text;

verus! {

/// The element choice of an LF2 choice defined in module `module_segments`.
/// The argument binder becomes the choice's single field; an LF 2.dev
/// `authorizers` clause is refused.
pub open spec fn spec_convert_choice<'a>(
    proto: lf2::TemplateChoice,
    p: DamlPackagePayload<'a>,
    module_segments: Seq<Seq<char>>,
) -> Result<ChoiceV, ConvertErrorV> {
    if proto.authorizers is Some {
        Err(
            ConvertErrorV::UnsupportedFeatureUsed(
                spec_version_text(p.language_version),
                "TemplateChoice.authorizers (LF2.dev-only)"@,
                "2.dev"@,
            ),
        )
    } else {
        let strings = p.package.interned_strings@;
        match spec_resolve_string(strings, proto.name_interned_str as int) {
            Err(e) => Err(e),
            Ok(name) => match spec_resolve_string(strings, proto.self_binder_interned_str as int) {
                Err(e) => Err(e),
                Ok(self_binder) => match proto.arg_binder {
                    None => Err(ConvertErrorV::MissingRequiredField),
                    Some(arg) => match spec_resolve_string(strings, arg.var_interned_str as int) {
                        Err(e) => Err(e),
                        Ok(arg_name) => match arg.ty {
                            None => Err(ConvertErrorV::MissingRequiredField),
                            Some(arg_ty) => match spec_convert_type(arg_ty, p, type_fuel(p)) {
                                Err(e) => Err(e),
                                Ok(arg_ty) => match proto.ret_type {
                                    None => Err(ConvertErrorV::MissingRequiredField),
                                    Some(ret) => match spec_convert_type(ret, p, type_fuel(p)) {
                                        Err(e) => Err(e),
                                        Ok(return_type) => Ok(
                                            ChoiceV {
                                                name,
                                                package_id: p.package_id@,
                                                module_segments,
                                                fields: seq![FieldV { name: arg_name, ty: arg_ty }],
                                                return_type,
                                                consuming: proto.consuming,
                                                self_binder,
                                            },
                                        ),
                                    },
                                },
                            },
                        },
                    },
                },
            },
        }
    }
}

/// A choice converts exactly when it has no authorizers (an LF 2.dev
/// feature), its name, self binder and argument name lie in the string
/// table, and its argument and return types are there and convert. It then
/// keeps its name, its consuming flag, its self binder, its argument as its
/// one field and its return type, and takes the package id and module path
/// it is converted in.
pub proof fn law_choice_keeps_its_parts<'a>(
    proto: lf2::TemplateChoice,
    p: DamlPackagePayload<'a>,
    module_segments: Seq<Seq<char>>,
)
    ensures
        ({
            let strings = p.package.interned_strings@;
            let ok = {
                &&& proto.authorizers is None
                &&& 0 <= proto.name_interned_str < strings.len()
                &&& 0 <= proto.self_binder_interned_str < strings.len()
                &&& proto.arg_binder matches Some(arg) && 0 <= arg.var_interned_str < strings.len() && (
                arg.ty matches Some(t) && spec_convert_type(t, p, type_fuel(p)) is Ok)
                &&& proto.ret_type matches Some(r) && spec_convert_type(r, p, type_fuel(p)) is Ok
            };
            &&& ok <==> spec_convert_choice(proto, p, module_segments) is Ok
            &&& spec_convert_choice(proto, p, module_segments) matches Ok(c) ==> {
                &&& c.consuming == proto.consuming
                &&& c.name == strings[proto.name_interned_str as int]@
                &&& c.self_binder == strings[proto.self_binder_interned_str as int]@
                &&& c.package_id == p.package_id@
                &&& c.module_segments == module_segments
                &&& c.fields.len() == 1
                &&& c.fields[0].name == strings[proto.arg_binder->Some_0.var_interned_str as int]@
                &&& spec_convert_type(proto.arg_binder->Some_0.ty->Some_0, p, type_fuel(p)) == Ok::<
                    TypeV,
                    ConvertErrorV,
                >(c.fields[0].ty)
                &&& spec_convert_type(proto.ret_type->Some_0, p, type_fuel(p)) == Ok::<TypeV, ConvertErrorV>(
                    c.return_type,
                )
            }
        }),
{
}

/// Convert an LF2 choice; the package id is the package's own, and
/// `module_segments` is the module the choice's template or interface lives
/// in.
pub fn convert_choice<'a>(
    proto: &lf2::TemplateChoice,
    package: &DamlPackagePayload<'a>,
    module_segments: &[String],
) -> (r: DamlLfConvertResult<DamlChoice>)
    ensures
        result_view(r) == spec_convert_choice(*proto, *package, names_view(module_segments@)),
{
    if proto.authorizers.is_some() {
        let version = package.language_version.to_string();
        return Err(
            DamlLfConvertError::UnsupportedFeatureUsed(
                version,
                String::from_str("TemplateChoice.authorizers (LF2.dev-only)"),
                String::from_str("2.dev"),
            ),
        );
    }
    let name = package.resolve_string(proto.name_interned_str)?;
    let self_binder = package.resolve_string(proto.self_binder_interned_str)?;
    let arg_binder = match &proto.arg_binder {
        None => return Err(DamlLfConvertError::MissingRequiredField),
        Some(a) => a,
    };
    let arg_name = package.resolve_string(arg_binder.var_interned_str)?;
    let arg_ty = match &arg_binder.ty {
        None => return Err(DamlLfConvertError::MissingRequiredField),
        Some(t) => convert_type(t, package)?,
    };
    let return_type = match &proto.ret_type {
        None => return Err(DamlLfConvertError::MissingRequiredField),
        Some(t) => convert_type(t, package)?,
    };
    let mut fields: Vec<DamlField> = Vec::new();
    let arg_field = DamlField { name: arg_name, ty: arg_ty };
    proof {
        lemma_fields_view_push(Seq::empty(), arg_field);
        assert(fields_view(Seq::<DamlField>::empty()) =~= Seq::<FieldV>::empty());
    }
    fields.push(arg_field);
    assert(fields@ =~= Seq::<DamlField>::empty().push(arg_field));
    let choice = DamlChoice {
        name,
        package_id: package.package_id.clone(),
        module_segments: copy_names(module_segments),
        fields,
        return_type,
        consuming: proto.consuming,
        self_binder,
    };
    Ok(choice)
}

/// The element contract key of an LF2 one: its type.
pub open spec fn spec_convert_def_key<'a>(proto: lf2::DefKey, p: DamlPackagePayload<'a>) -> Result<TypeV, ConvertErrorV> {
    match proto.ty {
        None => Err(ConvertErrorV::MissingRequiredField),
        Some(t) => spec_convert_type(t, p, type_fuel(p)),
    }
}

/// Convert an LF2 contract key. Only its type carries through.
pub fn convert_def_key<'a>(proto: &lf2::DefKey, package: &DamlPackagePayload<'a>) -> (r: DamlLfConvertResult<DamlDefKey>)
    ensures
        match r {
            Ok(k) => spec_convert_def_key(*proto, *package) == Ok::<TypeV, ConvertErrorV>(k.ty@),
            Err(e) => spec_convert_def_key(*proto, *package) == Err::<TypeV, ConvertErrorV>(e@),
        },
{
    let ty = match &proto.ty {
        None => return Err(DamlLfConvertError::MissingRequiredField),
        Some(t) => convert_type(t, package)?,
    };
    Ok(DamlDefKey { ty })
}

/// The interface one `implements` entry names.
pub open spec fn spec_convert_implement<'a>(i: lf2::Implements, p: DamlPackagePayload<'a>) -> Result<
    TyConNameV,
    ConvertErrorV,
> {
    match i.interface {
        None => Err(ConvertErrorV::MissingRequiredField),
        Some(id) => spec_convert_tycon_id(id, p),
    }
}

/// The implemented interfaces convert entry by entry: on success one
/// type-constructor name per entry, in order, each the name of that entry's
/// interface; otherwise the error of the first entry that fails.
#[verifier::spinoff_prover]
pub proof fn law_implements_elementwise<'a>(implements: Seq<lf2::Implements>, package: DamlPackagePayload<'a>)
    ensures
        map_convert(implements, |i: lf2::Implements| spec_convert_implement(i, package)) matches Ok(names) ==> {
            &&& names.len() == implements.len()
            &&& forall|j: int|
                0 <= j < implements.len() ==> spec_convert_implement(implements[j], package) == Ok::<
                    TyConNameV,
                    ConvertErrorV,
                >(#[trigger] names[j])
        },
        map_convert(implements, |i: lf2::Implements| spec_convert_implement(i, package)) matches Err(e) ==> exists|k: int|
            0 <= k < implements.len() && spec_convert_implement(#[trigger] implements[k], package) == Err::<
                TyConNameV,
                ConvertErrorV,
            >(e) && forall|j: int| 0 <= j < k ==> (#[trigger] spec_convert_implement(implements[j], package)) is Ok,
{
    let f = |i: lf2::Implements| spec_convert_implement(i, package);
    lemma_map_convert_elementwise(implements, f);
    match map_convert(implements, f) {
        Ok(names) => {
            assert forall|j: int| 0 <= j < implements.len() implies spec_convert_implement(implements[j], package)
                == Ok::<TyConNameV, ConvertErrorV>(#[trigger] names[j]) by {
                assert(f(implements[j]) == Ok::<TyConNameV, ConvertErrorV>(names[j]));
            }
        },
        Err(e) => {
            let k = choose|k: int|
                0 <= k < implements.len() && f(#[trigger] implements[k]) == Err::<TyConNameV, ConvertErrorV>(e)
                    && forall|j: int| 0 <= j < k ==> (#[trigger] f(implements[j])) is Ok;
            assert(spec_convert_implement(implements[k], package) == Err::<TyConNameV, ConvertErrorV>(e));
            assert forall|j: int| 0 <= j < k implies (#[trigger] spec_convert_implement(implements[j], package)) is Ok by {
                assert(f(implements[j]) is Ok);
            }
        },
    }
}

/// The interfaces a template implements, by type-constructor name: one
/// name per entry, in order, each that of the entry's interface; otherwise
/// the error of the first entry that fails.
pub fn convert_implements<'a>(implements: &[lf2::Implements], package: &DamlPackagePayload<'a>) -> (r:
    DamlLfConvertResult<Vec<DamlTyConName>>)
    ensures
        match r {
            Ok(ns) => map_convert(implements@, |i: lf2::Implements| spec_convert_implement(i, *package)) == Ok::<
                Seq<TyConNameV>,
                ConvertErrorV,
            >(ns@.map_values(|n: DamlTyConName| n@)),
            Err(e) => map_convert(implements@, |i: lf2::Implements| spec_convert_implement(i, *package)) == Err::<
                Seq<TyConNameV>,
                ConvertErrorV,
            >(e@),
        },
        match r {
            Ok(ns) => ns@.len() == implements@.len() && forall|j: int|
                0 <= j < implements@.len() ==> spec_convert_implement(implements@[j], *package) == Ok::<
                    TyConNameV,
                    ConvertErrorV,
                >(#[trigger] ns@[j]@),
            Err(e) => exists|k: int|
                0 <= k < implements@.len() && spec_convert_implement(#[trigger] implements@[k], *package) == Err::<
                    TyConNameV,
                    ConvertErrorV,
                >(e@) && forall|j: int|
                    0 <= j < k ==> (#[trigger] spec_convert_implement(implements@[j], *package)) is Ok,
        },
{
    let r = convert_implements_in_order(implements, package);
    proof {
        law_implements_elementwise(implements@, *package);
        if r is Ok {
            let ns = r->Ok_0;
            let names = ns@.map_values(|n: DamlTyConName| n@);
            assert forall|j: int| 0 <= j < implements@.len() implies spec_convert_implement(implements@[j], *package)
                == Ok::<TyConNameV, ConvertErrorV>(#[trigger] ns@[j]@) by {
                assert(names[j] == ns@[j]@);
            }
        }
    }
    r
}

fn convert_implements_in_order<'a>(implements: &[lf2::Implements], package: &DamlPackagePayload<'a>) -> (r:
    DamlLfConvertResult<Vec<DamlTyConName>>)
    ensures
        match r {
            Ok(ns) => map_convert(implements@, |i: lf2::Implements| spec_convert_implement(i, *package)) == Ok::<
                Seq<TyConNameV>,
                ConvertErrorV,
            >(ns@.map_values(|n: DamlTyConName| n@)),
            Err(e) => map_convert(implements@, |i: lf2::Implements| spec_convert_implement(i, *package)) == Err::<
                Seq<TyConNameV>,
                ConvertErrorV,
            >(e@),
        },
{
    let ghost f = |i: lf2::Implements| spec_convert_implement(i, *package);
    let mut out: Vec<DamlTyConName> = Vec::new();
    let mut k: usize = 0;
    proof {
        lemma_map_convert_full(implements@, f);
    }
    assert(out@.map_values(|n: DamlTyConName| n@) =~= Seq::<TyConNameV>::empty());
    while k < implements.len()
        invariant
            0 <= k <= implements.len(),
            f == (|i: lf2::Implements| spec_convert_implement(i, *package)),
            map_convert(implements@.take(k as int), f) == Ok::<Seq<TyConNameV>, ConvertErrorV>(
                out@.map_values(|n: DamlTyConName| n@),
            ),
        decreases implements.len() - k,
    {
        proof {
            lemma_map_convert_step(implements@, f, k as int);
        }
        let converted = match &implements[k].interface {
            None => Err(DamlLfConvertError::MissingRequiredField),
            Some(id) => convert_tycon_id(id, package),
        };
        match converted {
            Ok(n) => {
                let ghost before = out@;
                out.push(n);
                assert(out@.map_values(|n: DamlTyConName| n@) =~= before.map_values(|n: DamlTyConName| n@).push(
                    n@,
                ));
            },
            Err(e) => {
                proof {
                    lemma_map_convert_err_prefix(implements@, f, k as int + 1);
                }
                return Err(e);
            },
        }
        k += 1;
    }
    Ok(out)
}

} // verus!
