//! Converting LF2 interface definitions.

use vstd::prelude::*;

use crate::convert::interned::{spec_resolve_dotted, spec_resolve_string, PackageInternedResolver};
use crate::convert::package_payload::DamlPackagePayload;
use crate::convert::template_payload::{convert_choice, spec_convert_choice};
use crate::convert::type_payload::{
    convert_tycon_id, convert_type, spec_convert_tycon_id, spec_convert_type, type_fuel,
};
use crate::element::data::{choices_view, ChoiceV, DamlChoice};
use crate::element::interface::{interface_model, methods_view, DamlInterface, DamlInterfaceMethod, InterfaceV, MethodV};
use crate::element::types::{copy_names, extend_names, names_view, DamlTyConName, TyConNameV};
use crate::error::{result_view, ConvertErrorV, DamlLfConvertError, DamlLfConvertResult};
use crate::lf2;
use crate::results::{lemma_map_convert_err_prefix, lemma_map_convert_full, lemma_map_convert_step, map_convert};

verus! {

/// The element method of an LF2 interface method.
pub open spec fn spec_convert_method<'a>(proto: lf2::InterfaceMethod, p: DamlPackagePayload<'a>) -> Result<
    MethodV,
    ConvertErrorV,
> {
    match spec_resolve_string(p.package.interned_strings@, proto.method_interned_name as int) {
        Err(e) => Err(e),
        Ok(name) => match proto.ty {
            None => Err(ConvertErrorV::MissingRequiredField),
            Some(t) => match spec_convert_type(t, p, type_fuel(p)) {
                Err(e) => Err(e),
                Ok(ty) => Ok(MethodV { name, ty }),
            },
        },
    }
}

/// The element interface of an LF2 one defined in module `module_segments`.
/// The last segment of its dotted name is its name, earlier segments extend
/// the module path, and its choices live at that extended path.
pub open spec fn spec_convert_interface<'a>(
    proto: lf2::DefInterface,
    p: DamlPackagePayload<'a>,
    module_segments: Seq<Seq<char>>,
) -> Result<InterfaceV, ConvertErrorV> {
    match spec_resolve_dotted(p.package.interned_strings@, p.spec_dotted(), proto.tycon_interned_dname as int) {
        Err(e) => Err(e),
        Ok(segments) => if segments.len() == 0 {
            Err(ConvertErrorV::MissingRequiredField)
        } else {
            let full = module_segments + segments.drop_last();
            match spec_resolve_string(p.package.interned_strings@, proto.param_interned_str as int) {
                Err(e) => Err(e),
                Ok(param) => match map_convert(proto.methods@, |m: lf2::InterfaceMethod| spec_convert_method(m, p)) {
                    Err(e) => Err(e),
                    Ok(methods) => match map_convert(
                        proto.choices@,
                        |c: lf2::TemplateChoice| spec_convert_choice(c, p, full),
                    ) {
                        Err(e) => Err(e),
                        Ok(choices) => match proto.view {
                            None => Err(ConvertErrorV::MissingRequiredField),
                            Some(v) => match spec_convert_type(v, p, type_fuel(p)) {
                                Err(e) => Err(e),
                                Ok(view) => match map_convert(
                                    proto.required@,
                                    |r: lf2::TypeConId| spec_convert_tycon_id(r, p),
                                ) {
                                    Err(e) => Err(e),
                                    Ok(required_interfaces) => Ok(
                                        InterfaceV {
                                            name: segments.last(),
                                            package_id: p.package_id@,
                                            module_segments: full,
                                            param,
                                            methods,
                                            choices,
                                            view,
                                            required_interfaces,
                                        },
                                    ),
                                },
                            },
                        },
                    },
                },
            }
        },
    }
}

fn convert_method<'a>(proto: &lf2::InterfaceMethod, package: &DamlPackagePayload<'a>) -> (r: DamlLfConvertResult<
    DamlInterfaceMethod,
>)
    ensures
        result_view(r) == spec_convert_method(*proto, *package),
{
    let name = package.resolve_string(proto.method_interned_name)?;
    let ty = match &proto.ty {
        None => return Err(DamlLfConvertError::MissingRequiredField),
        Some(t) => convert_type(t, package)?,
    };
    Ok(DamlInterfaceMethod::new(name, ty))
}

fn convert_methods<'a>(protos: &Vec<lf2::InterfaceMethod>, package: &DamlPackagePayload<'a>) -> (r: DamlLfConvertResult<
    Vec<DamlInterfaceMethod>,
>)
    ensures
        match r {
            Ok(ms) => map_convert(protos@, |m: lf2::InterfaceMethod| spec_convert_method(m, *package)) == Ok::<
                Seq<MethodV>,
                ConvertErrorV,
            >(methods_view(ms@)),
            Err(e) => map_convert(protos@, |m: lf2::InterfaceMethod| spec_convert_method(m, *package)) == Err::<
                Seq<MethodV>,
                ConvertErrorV,
            >(e@),
        },
{
    let ghost f = |m: lf2::InterfaceMethod| spec_convert_method(m, *package);
    let mut out: Vec<DamlInterfaceMethod> = Vec::new();
    let mut k: usize = 0;
    proof {
        lemma_map_convert_full(protos@, f);
    }
    assert(methods_view(out@) =~= Seq::<MethodV>::empty());
    while k < protos.len()
        invariant
            0 <= k <= protos.len(),
            f == (|m: lf2::InterfaceMethod| spec_convert_method(m, *package)),
            map_convert(protos@.take(k as int), f) == Ok::<Seq<MethodV>, ConvertErrorV>(methods_view(out@)),
        decreases protos.len() - k,
    {
        proof {
            lemma_map_convert_step(protos@, f, k as int);
        }
        match convert_method(&protos[k], package) {
            Ok(m) => {
                let ghost before = out@;
                out.push(m);
                assert(methods_view(out@) =~= methods_view(before).push(m@));
            },
            Err(e) => {
                proof {
                    lemma_map_convert_err_prefix(protos@, f, k as int + 1);
                }
                return Err(e);
            },
        }
        k += 1;
    }
    Ok(out)
}

pub(crate) fn convert_choices<'a>(
    protos: &Vec<lf2::TemplateChoice>,
    package: &DamlPackagePayload<'a>,
    module_segments: &Vec<String>,
) -> (r: DamlLfConvertResult<Vec<DamlChoice>>)
    ensures
        match r {
            Ok(cs) => map_convert(
                protos@,
                |c: lf2::TemplateChoice| spec_convert_choice(c, *package, names_view(module_segments@)),
            ) == Ok::<Seq<ChoiceV>, ConvertErrorV>(choices_view(cs@)),
            Err(e) => map_convert(
                protos@,
                |c: lf2::TemplateChoice| spec_convert_choice(c, *package, names_view(module_segments@)),
            ) == Err::<Seq<ChoiceV>, ConvertErrorV>(e@),
        },
{
    let ghost f = |c: lf2::TemplateChoice| spec_convert_choice(c, *package, names_view(module_segments@));
    let mut out: Vec<DamlChoice> = Vec::new();
    let mut k: usize = 0;
    proof {
        lemma_map_convert_full(protos@, f);
    }
    assert(choices_view(out@) =~= Seq::<ChoiceV>::empty());
    while k < protos.len()
        invariant
            0 <= k <= protos.len(),
            f == (|c: lf2::TemplateChoice| spec_convert_choice(c, *package, names_view(module_segments@))),
            map_convert(protos@.take(k as int), f) == Ok::<Seq<ChoiceV>, ConvertErrorV>(choices_view(out@)),
        decreases protos.len() - k,
    {
        proof {
            lemma_map_convert_step(protos@, f, k as int);
        }
        match convert_choice(&protos[k], package, module_segments.as_slice()) {
            Ok(c) => {
                let ghost before = out@;
                out.push(c);
                assert(choices_view(out@) =~= choices_view(before).push(c@));
            },
            Err(e) => {
                proof {
                    lemma_map_convert_err_prefix(protos@, f, k as int + 1);
                }
                return Err(e);
            },
        }
        k += 1;
    }
    Ok(out)
}

pub(crate) fn convert_tycon_ids<'a>(protos: &Vec<lf2::TypeConId>, package: &DamlPackagePayload<'a>) -> (r:
    DamlLfConvertResult<Vec<DamlTyConName>>)
    ensures
        match r {
            Ok(ns) => map_convert(protos@, |t: lf2::TypeConId| spec_convert_tycon_id(t, *package)) == Ok::<
                Seq<TyConNameV>,
                ConvertErrorV,
            >(ns@.map_values(|n: DamlTyConName| n@)),
            Err(e) => map_convert(protos@, |t: lf2::TypeConId| spec_convert_tycon_id(t, *package)) == Err::<
                Seq<TyConNameV>,
                ConvertErrorV,
            >(e@),
        },
{
    let ghost f = |t: lf2::TypeConId| spec_convert_tycon_id(t, *package);
    let mut out: Vec<DamlTyConName> = Vec::new();
    let mut k: usize = 0;
    proof {
        lemma_map_convert_full(protos@, f);
    }
    assert(out@.map_values(|n: DamlTyConName| n@) =~= Seq::<TyConNameV>::empty());
    while k < protos.len()
        invariant
            0 <= k <= protos.len(),
            f == (|t: lf2::TypeConId| spec_convert_tycon_id(t, *package)),
            map_convert(protos@.take(k as int), f) == Ok::<Seq<TyConNameV>, ConvertErrorV>(
                out@.map_values(|n: DamlTyConName| n@),
            ),
        decreases protos.len() - k,
    {
        proof {
            lemma_map_convert_step(protos@, f, k as int);
        }
        match convert_tycon_id(&protos[k], package) {
            Ok(n) => {
                let ghost before = out@;
                out.push(n);
                assert(out@.map_values(|n: DamlTyConName| n@) =~= before.map_values(|n: DamlTyConName| n@).push(
                    n@,
                ));
            },
            Err(e) => {
                proof {
                    lemma_map_convert_err_prefix(protos@, f, k as int + 1);
                }
                return Err(e);
            },
        }
        k += 1;
    }
    Ok(out)
}

/// Convert an LF2 interface definition: its name and location, parameter,
/// methods, choices, view type and the interfaces it requires.
pub fn convert_interface<'a>(
    proto: &lf2::DefInterface,
    package: &DamlPackagePayload<'a>,
    module_segments: &[String],
) -> (r: DamlLfConvertResult<DamlInterface>)
    ensures
        match r {
            Ok(i) => spec_convert_interface(*proto, *package, names_view(module_segments@)) == Ok::<
                InterfaceV,
                ConvertErrorV,
            >(interface_model(i)),
            Err(e) => spec_convert_interface(*proto, *package, names_view(module_segments@)) == Err::<
                InterfaceV,
                ConvertErrorV,
            >(e@),
        },
{
    let segments = package.resolve_dotted(proto.tycon_interned_dname)?;
    if segments.len() == 0 {
        return Err(DamlLfConvertError::MissingRequiredField);
    }
    let last = segments.len() - 1;
    let name = segments[last].clone();
    let full_path = extend_names(copy_names(module_segments), &segments, last);
    assert(segments@.take(last as int) =~= segments@.drop_last());
    assert(names_view(segments@).drop_last() =~= names_view(segments@.drop_last()));
    let param = package.resolve_string(proto.param_interned_str)?;
    let methods = convert_methods(&proto.methods, package)?;
    let choices = convert_choices(&proto.choices, package, &full_path)?;
    let view = match &proto.view {
        None => return Err(DamlLfConvertError::MissingRequiredField),
        Some(v) => convert_type(v, package)?,
    };
    let required = convert_tycon_ids(&proto.required, package)?;
    Ok(DamlInterface::new(name, package.package_id.clone(), full_path, param, methods, choices, view, required))
}

} // verus!
