//! Converting an LF2 package into the element tree.

pub mod archive_payload;
pub mod interned;
pub mod data_payload;
pub mod module_payload;
pub mod package_payload;
pub mod typevar_payload;
pub mod type_payload;
pub mod template_payload;
pub mod field_payload;
pub mod exception_payload;
pub mod interface_payload;
pub mod util;
pub mod expr_payload;

use vstd::prelude::*;

use crate::convert::exception_payload::{convert_exception, spec_convert_exception};
use crate::convert::interface_payload::{convert_choices, convert_interface, spec_convert_interface};
use crate::convert::interned::{spec_resolve_dotted, spec_resolve_string, spec_resolve_strings, PackageInternedResolver};
use crate::convert::module_payload::{DamlModulePayload, ModuleFlags};
use crate::convert::package_payload::{payload_of_archive, payload_of_dalf, spec_package_metadata, DamlPackagePayload};
use crate::convert::template_payload::{
    convert_def_key, convert_implements, spec_convert_choice, spec_convert_def_key, spec_convert_implement,
};
use crate::convert::type_payload::{
    convert_fields_with_fuel, convert_type, convert_type_params, spec_convert_fields, spec_convert_type,
    spec_convert_typevars, type_fuel,
};
use crate::element::data::{
    DamlData, DamlEnum, DamlRecord, DamlTemplate, DataV, EnumV, RecordV, TemplateV,
};
use crate::element::data::{data_seq_view, synonyms_view, DamlDefTypeSyn, DamlFeatureFlags, TypeSynV};
use crate::convert::expr_payload::{convert_def_value, spec_convert_def_value};
use crate::element::expr::{DamlDefValue, DefValueV};
use crate::element::module::{
    modules_view, spec_place, spec_root, values_view, DamlModule, ModuleV, PlaceAction, PlaceActionV,
};
use crate::element::interface::{exceptions_view, interface_model, interfaces_model, DamlException, DamlInterface, ExceptionV, InterfaceV};
use crate::element::types::{copy_names, extend_names, fields_view, names_view, DamlField, FieldV, TypeV};
use crate::error::{result_view, ConvertErrorV, DamlLfConvertError, DamlLfConvertResult, DamlLfError, DamlLfErrorV, DamlLfResult};
use crate::element::package::{package_id_key, packages_view, spec_find_package, ArchiveV, DamlArchive, DamlPackage, PackageV};
use crate::element::keyed::{
    key_position, lemma_key_position_absent, lemma_key_position_bounds, lemma_key_position_found,
    lemma_upsert_all_finds, upsert, upsert_all,
};
use crate::archive::{DamlLfArchive, DamlLfHashFunction, DarFile};
use crate::convert::archive_payload::{
    archive_key, dar_archives, loaded_archives, metadata_check, payload_of_dar, DamlArchivePayload,
};
use crate::payload::{lf2_package, DamlLfArchivePayload};
use crate::results::{first_error, lemma_map_convert_elementwise, lemma_map_convert_single};
use crate::text::str_eq;
use crate::lf2;
use crate::version::{spec_version_text, LanguageVersion};
use crate::results::{lemma_map_convert_err_prefix, lemma_map_convert_full, lemma_map_convert_step, map_convert};

verus! {

/// The key of a template, if it has one, as its type.
pub open spec fn spec_template_key<'a>(key: Option<lf2::DefKey>, p: DamlPackagePayload<'a>) -> Result<
    Option<TypeV>,
    ConvertErrorV,
> {
    match key {
        None => Ok(None),
        Some(k) => match spec_convert_def_key(k, p) {
            Err(e) => Err(e),
            Ok(ty) => Ok(Some(ty)),
        },
    }
}

/// The template wrapping the record `name` of module `segments` with
/// fields `fields`: its parameter, choices, key and implemented interfaces,
/// or the first failure among them in that order.
pub open spec fn spec_build_template<'a>(
    t: lf2::DefTemplate,
    name: Seq<char>,
    segments: Seq<Seq<char>>,
    fields: Seq<FieldV>,
    p: DamlPackagePayload<'a>,
    serializable: bool,
) -> Result<TemplateV, ConvertErrorV> {
    match spec_resolve_string(p.package.interned_strings@, t.param_interned_str as int) {
        Err(e) => Err(e),
        Ok(param) => match map_convert(t.choices@, |c: lf2::TemplateChoice| spec_convert_choice(c, p, segments)) {
            Err(e) => Err(e),
            Ok(choices) => match spec_template_key(t.key, p) {
                Err(e) => Err(e),
                Ok(key) => match map_convert(t.implements@, |i: lf2::Implements| spec_convert_implement(i, p)) {
                    Err(e) => Err(e),
                    Ok(implements) => Ok(
                        TemplateV {
                            name,
                            package_id: p.package_id@,
                            module_segments: segments,
                            fields,
                            choices,
                            param,
                            implements,
                            key,
                            serializable,
                        },
                    ),
                },
            },
        },
    }
}

/// The template of a module that wraps the data type with dotted-name index
/// `index`: the last one listed with it.
pub open spec fn spec_template_for(templates: Seq<lf2::DefTemplate>, index: i32) -> Option<lf2::DefTemplate>
    decreases templates.len(),
{
    if templates.len() == 0 {
        None
    } else if templates.last().tycon_interned_dname == index {
        Some(templates.last())
    } else {
        spec_template_for(templates.drop_last(), index)
    }
}

/// The element data type of an LF2 one named `name` in module `segments`:
/// a record wrapped by a template becomes that template; the marker LF2
/// emits for an interface becomes nothing.
pub open spec fn spec_build_data_type<'a>(
    def: lf2::DefDataType,
    name: Seq<char>,
    p: DamlPackagePayload<'a>,
    segments: Seq<Seq<char>>,
    templates: Seq<lf2::DefTemplate>,
) -> Result<Option<DataV>, ConvertErrorV> {
    match spec_convert_typevars(def.params@, p) {
        Err(e) => Err(e),
        Ok(type_params) => match def.data_cons {
            None => Err(ConvertErrorV::MissingRequiredField),
            Some(lf2::DataCons::Record(fs)) => match spec_convert_fields(fs.fields@, p, type_fuel(p)) {
                Err(e) => Err(e),
                Ok(fields) => match spec_template_for(templates, def.name_interned_dname) {
                    Some(t) => match spec_build_template(t, name, segments, fields, p, def.serializable) {
                        Err(e) => Err(e),
                        Ok(tv) => Ok(Some(DataV::Template(tv))),
                    },
                    None => Ok(
                        Some(
                            DataV::Record(
                                RecordV {
                                    name,
                                    package_id: p.package_id@,
                                    module_segments: segments,
                                    fields,
                                    type_params,
                                    serializable: def.serializable,
                                },
                            ),
                        ),
                    ),
                },
            },
            Some(lf2::DataCons::Variant(fs)) => match spec_convert_fields(fs.fields@, p, type_fuel(p)) {
                Err(e) => Err(e),
                Ok(fields) => Ok(
                    Some(
                        DataV::Variant(
                            RecordV {
                                name,
                                package_id: p.package_id@,
                                module_segments: segments,
                                fields,
                                type_params,
                                serializable: def.serializable,
                            },
                        ),
                    ),
                ),
            },
            Some(lf2::DataCons::Enum(ec)) => match spec_resolve_strings(
                p.package.interned_strings@,
                ec.constructors_interned_str@,
            ) {
                Err(e) => Err(e),
                Ok(constructors) => Ok(
                    Some(
                        DataV::Enum(
                            EnumV {
                                name,
                                package_id: p.package_id@,
                                module_segments: segments,
                                constructors,
                                type_params,
                                serializable: def.serializable,
                            },
                        ),
                    ),
                ),
            },
            Some(lf2::DataCons::Interface(_)) => Ok(None),
        },
    }
}

/// A data definition converts to a data type of its own kind: a record to a
/// record, or to a template where a template of the module is declared on
/// it; a variant to a variant; an enum to an enum; an interface marker to no
/// data type. The data type keeps the definition's name, serializable flag,
/// package id and module path.
pub proof fn law_data_keeps_kind<'a>(
    def: lf2::DefDataType,
    name: Seq<char>,
    p: DamlPackagePayload<'a>,
    segments: Seq<Seq<char>>,
    templates: Seq<lf2::DefTemplate>,
)
    ensures
        spec_build_data_type(def, name, p, segments, templates) matches Ok(r) ==> (r is None <==> (
        def.data_cons matches Some(lf2::DataCons::Interface(_)))),
        spec_build_data_type(def, name, p, segments, templates) matches Ok(Some(d)) ==> {
            &&& (def.data_cons matches Some(lf2::DataCons::Record(_))) && spec_template_for(
                templates,
                def.name_interned_dname,
            ) is Some ==> d is Template
            &&& (def.data_cons matches Some(lf2::DataCons::Record(_))) && spec_template_for(
                templates,
                def.name_interned_dname,
            ) is None ==> (d matches DataV::Record(rv) && rv.name == name && rv.package_id == p.package_id@
                && rv.module_segments == segments && rv.serializable == def.serializable)
            &&& (def.data_cons matches Some(lf2::DataCons::Variant(_))) ==> (d matches DataV::Variant(v) && v.name
                == name && v.package_id == p.package_id@ && v.module_segments == segments && v.serializable
                == def.serializable)
            &&& (def.data_cons matches Some(lf2::DataCons::Enum(_))) ==> (d matches DataV::Enum(e) && e.name == name
                && e.package_id == p.package_id@ && e.module_segments == segments && e.serializable
                == def.serializable)
        },
{
}

/// The model of a result holding perhaps a data type.
pub open spec fn opt_data_result_view(r: DamlLfConvertResult<Option<DamlData>>) -> Result<
    Option<DataV>,
    ConvertErrorV,
> {
    match r {
        Ok(Some(d)) => Ok(Some(d@)),
        Ok(None) => Ok(None),
        Err(e) => Err(e@),
    }
}

/// Combine the fields of a record with the template that wraps it: its
/// parameter, choices, key and implemented interfaces.
fn build_template<'a>(
    template: &lf2::DefTemplate,
    name: String,
    module_segments: Vec<String>,
    fields: Vec<DamlField>,
    package: &DamlPackagePayload<'a>,
    serializable: bool,
) -> (r: DamlLfConvertResult<DamlTemplate>)
    ensures
        match r {
            Ok(t) => spec_build_template(
                *template,
                name@,
                names_view(module_segments@),
                fields_view(fields@),
                *package,
                serializable,
            ) == Ok::<TemplateV, ConvertErrorV>(t@),
            Err(e) => spec_build_template(
                *template,
                name@,
                names_view(module_segments@),
                fields_view(fields@),
                *package,
                serializable,
            ) == Err::<TemplateV, ConvertErrorV>(e@),
        },
{
    let param = package.resolve_string(template.param_interned_str)?;
    let choices = convert_choices(&template.choices, package, &module_segments)?;
    let key = match &template.key {
        Some(k) => Some(convert_def_key(k, package)?),
        None => None,
    };
    let implements = convert_implements(template.implements.as_slice(), package)?;
    let tpl = DamlTemplate {
        name,
        package_id: package.package_id.clone(),
        module_segments,
        fields,
        choices,
        param,
        implements,
        key,
        serializable,
    };
    Ok(tpl)
}

/// The template of `templates` that wraps the data type with dotted-name
/// index `index`.
fn template_for<'b>(templates: &'b [lf2::DefTemplate], index: i32) -> (t: Option<&'b lf2::DefTemplate>)
    ensures
        match t {
            Some(t) => spec_template_for(templates@, index) == Some(*t),
            None => spec_template_for(templates@, index) is None,
        },
{
    let mut i: usize = templates.len();
    assert(templates@.take(i as int) =~= templates@);
    while i > 0
        invariant
            0 <= i <= templates@.len(),
            spec_template_for(templates@, index) == spec_template_for(templates@.take(i as int), index),
        decreases i,
    {
        i -= 1;
        assert(templates@.take(i + 1).drop_last() =~= templates@.take(i as int));
        assert(templates@.take(i + 1).last() == templates@[i as int]);
        if templates[i].tycon_interned_dname == index {
            return Some(&templates[i]);
        }
    }
    None
}

/// Convert an LF2 data type named `name` of module `module_segments`.
fn build_data_type<'a>(
    def: &lf2::DefDataType,
    name: String,
    package: &DamlPackagePayload<'a>,
    module_segments: Vec<String>,
    templates: &[lf2::DefTemplate],
) -> (r: DamlLfConvertResult<Option<DamlData>>)
    ensures
        opt_data_result_view(r) == spec_build_data_type(
            *def,
            name@,
            *package,
            names_view(module_segments@),
            templates@,
        ),
{
    let type_params = convert_type_params(&def.params, package)?;
    match &def.data_cons {
        None => Err(DamlLfConvertError::MissingRequiredField),
        Some(lf2::DataCons::Record(fs)) => {
            let fields = convert_fields_with_fuel(&fs.fields, package, package.package.interned_types.len())?;
            match template_for(templates, def.name_interned_dname) {
                Some(t) => {
                    let tpl = build_template(t, name, module_segments, fields, package, def.serializable)?;
                    Ok(Some(DamlData::Template(Box::new(tpl))))
                },
                None => Ok(
                    Some(
                        DamlData::Record(
                            DamlRecord {
                                name,
                                package_id: package.package_id.clone(),
                                module_segments,
                                fields,
                                type_params,
                                serializable: def.serializable,
                            },
                        ),
                    ),
                ),
            }
        },
        Some(lf2::DataCons::Variant(fs)) => {
            let fields = convert_fields_with_fuel(&fs.fields, package, package.package.interned_types.len())?;
            Ok(
                Some(
                    DamlData::Variant(
                        DamlRecord {
                            name,
                            package_id: package.package_id.clone(),
                            module_segments,
                            fields,
                            type_params,
                            serializable: def.serializable,
                        },
                    ),
                ),
            )
        },
        Some(lf2::DataCons::Enum(ec)) => {
            let constructors = package.resolve_strings(ec.constructors_interned_str.as_slice())?;
            Ok(
                Some(
                    DamlData::Enum(
                        DamlEnum {
                            name,
                            package_id: package.package_id.clone(),
                            module_segments,
                            constructors,
                            type_params,
                            serializable: def.serializable,
                        },
                    ),
                ),
            )
        },
        Some(lf2::DataCons::Interface(_)) => Ok(None),
    }
}

/// One data type of a module: the dotted-name prefix before its name, which
/// extends the module path it lives at, and the data type itself.
pub open spec fn spec_build_one_data<'a>(
    def: lf2::DefDataType,
    p: DamlPackagePayload<'a>,
    segments: Seq<Seq<char>>,
    templates: Seq<lf2::DefTemplate>,
) -> Result<Option<(Seq<Seq<char>>, DataV)>, ConvertErrorV> {
    match spec_resolve_dotted(p.spec_strings(), p.spec_dotted(), def.name_interned_dname as int) {
        Err(e) => Err(e),
        Ok(path) => if path.len() == 0 {
            Err(ConvertErrorV::MissingRequiredField)
        } else {
            match spec_build_data_type(def, path.last(), p, segments + path.drop_last(), templates) {
                Err(e) => Err(e),
                Ok(None) => Ok(None),
                Ok(Some(d)) => Ok(Some((path.drop_last(), d))),
            }
        },
    }
}

/// The data types of a module: those named by a single segment, and those
/// whose dotted name has a prefix, with that prefix.
pub open spec fn spec_build_data_types<'a>(
    defs: Seq<lf2::DefDataType>,
    p: DamlPackagePayload<'a>,
    segments: Seq<Seq<char>>,
    templates: Seq<lf2::DefTemplate>,
) -> Result<(Seq<DataV>, Seq<(Seq<Seq<char>>, DataV)>), ConvertErrorV>
    decreases defs.len(),
{
    if defs.len() == 0 {
        Ok((Seq::empty(), Seq::empty()))
    } else {
        match spec_build_data_types(defs.drop_last(), p, segments, templates) {
            Err(e) => Err(e),
            Ok((direct, nested)) => match spec_build_one_data(defs.last(), p, segments, templates) {
                Err(e) => Err(e),
                Ok(None) => Ok((direct, nested)),
                Ok(Some((prefix, d))) => if prefix.len() == 0 {
                    Ok((direct.push(d), nested))
                } else {
                    Ok((direct, nested.push((prefix, d))))
                },
            },
        }
    }
}

pub open spec fn nested_view(nested: Seq<(Vec<String>, DamlData)>) -> Seq<(Seq<Seq<char>>, DataV)> {
    nested.map_values(|e: (Vec<String>, DamlData)| (names_view(e.0@), e.1@))
}

/// Convert the data types of a module, in order; those whose dotted name has
/// a prefix are set apart with it.
fn build_data_types<'a>(
    module: &DamlModulePayload<'a>,
    package: &DamlPackagePayload<'a>,
    segments: &Vec<String>,
) -> (r: DamlLfConvertResult<(Vec<DamlData>, Vec<(Vec<String>, DamlData)>)>)
    ensures
        match r {
            Ok((direct, nested)) => spec_build_data_types(
                module.module.data_types@,
                *package,
                names_view(segments@),
                module.module.templates@,
            ) == Ok::<(Seq<DataV>, Seq<(Seq<Seq<char>>, DataV)>), ConvertErrorV>(
                (data_seq_view(direct@), nested_view(nested@)),
            ),
            Err(e) => spec_build_data_types(
                module.module.data_types@,
                *package,
                names_view(segments@),
                module.module.templates@,
            ) == Err::<(Seq<DataV>, Seq<(Seq<Seq<char>>, DataV)>), ConvertErrorV>(e@),
        },
{
    let defs = &module.module.data_types;
    let templates = module.templates();
    let ghost seg_view = names_view(segments@);
    let mut direct: Vec<DamlData> = Vec::new();
    let mut nested: Vec<(Vec<String>, DamlData)> = Vec::new();
    let mut i: usize = 0;
    assert(defs@.take(0) =~= Seq::<lf2::DefDataType>::empty());
    assert(data_seq_view(direct@) =~= Seq::<DataV>::empty());
    assert(nested_view(nested@) =~= Seq::<(Seq<Seq<char>>, DataV)>::empty());
    while i < defs.len()
        invariant
            0 <= i <= defs.len(),
            *defs == module.module.data_types,
            templates@ == module.module.templates@,
            seg_view == names_view(segments@),
            spec_build_data_types(defs@.take(i as int), *package, seg_view, templates@) == Ok::<
                (Seq<DataV>, Seq<(Seq<Seq<char>>, DataV)>),
                ConvertErrorV,
            >((data_seq_view(direct@), nested_view(nested@))),
        decreases defs.len() - i,
    {
        let def = &defs[i];
        assert(defs@.take(i + 1).drop_last() =~= defs@.take(i as int));
        assert(defs@.take(i + 1).last() == *def);
        let path = match package.resolve_dotted(def.name_interned_dname) {
            Ok(path) => path,
            Err(e) => {
                proof {
                    lemma_data_types_err_prefix(defs@, *package, seg_view, templates@, i + 1);
                }
                return Err(e);
            },
        };
        if path.len() == 0 {
            proof {
                lemma_data_types_err_prefix(defs@, *package, seg_view, templates@, i + 1);
            }
            return Err(DamlLfConvertError::MissingRequiredField);
        }
        let last = path.len() - 1;
        let name = path[last].clone();
        let full = extend_names(copy_names(segments.as_slice()), &path, last);
        proof {
            assert(path@.take(last as int) =~= path@.drop_last());
            assert(names_view(path@).drop_last() =~= names_view(path@.drop_last()));
        }
        let built = match build_data_type(def, name, package, full, templates) {
            Ok(b) => b,
            Err(e) => {
                proof {
                    lemma_data_types_err_prefix(defs@, *package, seg_view, templates@, i + 1);
                }
                return Err(e);
            },
        };
        match built {
            Some(d) => {
                if last == 0 {
                    let ghost before = direct@;
                    direct.push(d);
                    assert(data_seq_view(direct@) =~= data_seq_view(before).push(d@));
                } else {
                    let empty: Vec<String> = Vec::new();
                    let ghost empty_view = empty@;
                    let prefix = extend_names(empty, &path, last);
                    proof {
                        assert(names_view(empty_view) =~= Seq::<Seq<char>>::empty());
                        assert(names_view(prefix@) =~= names_view(path@).drop_last());
                    }
                    let ghost before = nested@;
                    nested.push((prefix, d));
                    assert(nested_view(nested@) =~= nested_view(before).push((names_view(prefix@), d@)));
                }
            },
            None => {},
        }
        i += 1;
    }
    assert(defs@.take(i as int) =~= defs@);
    Ok((direct, nested))
}

/// Once a prefix of the data types fails to convert, all of them fail the
/// same way.
proof fn lemma_data_types_err_prefix<'a>(
    defs: Seq<lf2::DefDataType>,
    p: DamlPackagePayload<'a>,
    segments: Seq<Seq<char>>,
    templates: Seq<lf2::DefTemplate>,
    i: int,
)
    requires
        0 <= i <= defs.len(),
        spec_build_data_types(defs.take(i), p, segments, templates) is Err,
    ensures
        spec_build_data_types(defs, p, segments, templates) == spec_build_data_types(defs.take(i), p, segments, templates),
    decreases defs.len() - i,
{
    if i == defs.len() {
        assert(defs.take(i) =~= defs);
    } else {
        assert(defs.take(i + 1).drop_last() =~= defs.take(i));
        lemma_data_types_err_prefix(defs, p, segments, templates, i + 1);
    }
}

/// A type synonym of module `segments`: its parameters, the type it stands
/// for, and its full name, the module path followed by its dotted name.
pub open spec fn spec_build_synonym<'a>(
    syn: lf2::DefTypeSyn,
    p: DamlPackagePayload<'a>,
    segments: Seq<Seq<char>>,
) -> Result<TypeSynV, ConvertErrorV> {
    match spec_resolve_dotted(p.spec_strings(), p.spec_dotted(), syn.name_interned_dname as int) {
        Err(e) => Err(e),
        Ok(name) => match spec_convert_typevars(syn.params@, p) {
            Err(e) => Err(e),
            Ok(params) => match syn.ty {
                None => Err(ConvertErrorV::MissingRequiredField),
                Some(t) => match spec_convert_type(t, p, type_fuel(p)) {
                    Err(e) => Err(e),
                    Ok(ty) => Ok(TypeSynV { params, ty, name: segments + name }),
                },
            },
        },
    }
}

/// Convert a type synonym of module `segments`.
fn build_synonym<'a>(syn: &lf2::DefTypeSyn, package: &DamlPackagePayload<'a>, segments: &Vec<String>) -> (r:
    DamlLfConvertResult<DamlDefTypeSyn>)
    ensures
        result_view(r) == spec_build_synonym(*syn, *package, names_view(segments@)),
{
    let name_segments = package.resolve_dotted(syn.name_interned_dname)?;
    let params = convert_type_params(&syn.params, package)?;
    let ty = match &syn.ty {
        None => return Err(DamlLfConvertError::MissingRequiredField),
        Some(t) => convert_type(t, package)?,
    };
    let count = name_segments.len();
    let name = extend_names(copy_names(segments.as_slice()), &name_segments, count);
    assert(name_segments@.take(count as int) =~= name_segments@);
    Ok(DamlDefTypeSyn { params, ty, name })
}

/// Convert the type synonyms of a module, in order.
fn build_synonyms<'a>(module: &DamlModulePayload<'a>, package: &DamlPackagePayload<'a>, segments: &Vec<String>) -> (r:
    DamlLfConvertResult<Vec<DamlDefTypeSyn>>)
    ensures
        match r {
            Ok(ss) => map_convert(
                module.module.synonyms@,
                |s: lf2::DefTypeSyn| spec_build_synonym(s, *package, names_view(segments@)),
            ) == Ok::<Seq<TypeSynV>, ConvertErrorV>(synonyms_view(ss@)),
            Err(e) => map_convert(
                module.module.synonyms@,
                |s: lf2::DefTypeSyn| spec_build_synonym(s, *package, names_view(segments@)),
            ) == Err::<Seq<TypeSynV>, ConvertErrorV>(e@),
        },
{
    let protos = module.synonyms();
    let ghost f = |s: lf2::DefTypeSyn| spec_build_synonym(s, *package, names_view(segments@));
    let mut out: Vec<DamlDefTypeSyn> = Vec::new();
    let mut k: usize = 0;
    proof {
        lemma_map_convert_full(protos@, f);
    }
    assert(synonyms_view(out@) =~= Seq::<TypeSynV>::empty());
    while k < protos.len()
        invariant
            0 <= k <= protos.len(),
            protos@ == module.module.synonyms@,
            f == (|s: lf2::DefTypeSyn| spec_build_synonym(s, *package, names_view(segments@))),
            map_convert(protos@.take(k as int), f) == Ok::<Seq<TypeSynV>, ConvertErrorV>(synonyms_view(out@)),
        decreases protos.len() - k,
    {
        proof {
            lemma_map_convert_step(protos@, f, k as int);
        }
        match build_synonym(&protos[k], package, segments) {
            Ok(syn) => {
                let ghost before = out@;
                out.push(syn);
                assert(synonyms_view(out@) =~= synonyms_view(before).push(syn@));
            },
            Err(e) => {
                proof {
                    lemma_map_convert_err_prefix(protos@, f, k as int + 1);
                }
                return Err(e);
            },
        }
        k += 1;
    }
    Ok(out)
}

/// Convert the interfaces of a module, in order.
fn build_interfaces<'a>(module: &DamlModulePayload<'a>, package: &DamlPackagePayload<'a>, segments: &Vec<String>) -> (r:
    DamlLfConvertResult<Vec<DamlInterface>>)
    ensures
        match r {
            Ok(is) => map_convert(
                module.module.interfaces@,
                |i: lf2::DefInterface| spec_convert_interface(i, *package, names_view(segments@)),
            ) == Ok::<Seq<InterfaceV>, ConvertErrorV>(interfaces_model(is@)),
            Err(e) => map_convert(
                module.module.interfaces@,
                |i: lf2::DefInterface| spec_convert_interface(i, *package, names_view(segments@)),
            ) == Err::<Seq<InterfaceV>, ConvertErrorV>(e@),
        },
{
    let protos = module.interfaces();
    let ghost f = |i: lf2::DefInterface| spec_convert_interface(i, *package, names_view(segments@));
    let mut out: Vec<DamlInterface> = Vec::new();
    let mut k: usize = 0;
    proof {
        lemma_map_convert_full(protos@, f);
    }
    assert(interfaces_model(out@) =~= Seq::<InterfaceV>::empty());
    while k < protos.len()
        invariant
            0 <= k <= protos.len(),
            protos@ == module.module.interfaces@,
            f == (|i: lf2::DefInterface| spec_convert_interface(i, *package, names_view(segments@))),
            map_convert(protos@.take(k as int), f) == Ok::<Seq<InterfaceV>, ConvertErrorV>(interfaces_model(out@)),
        decreases protos.len() - k,
    {
        proof {
            lemma_map_convert_step(protos@, f, k as int);
        }
        match convert_interface(&protos[k], package, segments.as_slice()) {
            Ok(it) => {
                let ghost before = out@;
                out.push(it);
                assert(interfaces_model(out@) =~= interfaces_model(before).push(interface_model(it)));
            },
            Err(e) => {
                proof {
                    lemma_map_convert_err_prefix(protos@, f, k as int + 1);
                }
                return Err(e);
            },
        }
        k += 1;
    }
    Ok(out)
}

/// Convert the exceptions of a module, in order.
fn build_exceptions<'a>(module: &DamlModulePayload<'a>, package: &DamlPackagePayload<'a>, segments: &Vec<String>) -> (r:
    DamlLfConvertResult<Vec<DamlException>>)
    ensures
        match r {
            Ok(es) => map_convert(
                module.module.exceptions@,
                |x: lf2::DefException| spec_convert_exception(x, *package, names_view(segments@)),
            ) == Ok::<Seq<ExceptionV>, ConvertErrorV>(exceptions_view(es@)),
            Err(e) => map_convert(
                module.module.exceptions@,
                |x: lf2::DefException| spec_convert_exception(x, *package, names_view(segments@)),
            ) == Err::<Seq<ExceptionV>, ConvertErrorV>(e@),
        },
{
    let protos = module.exceptions();
    let ghost f = |x: lf2::DefException| spec_convert_exception(x, *package, names_view(segments@));
    let mut out: Vec<DamlException> = Vec::new();
    let mut k: usize = 0;
    proof {
        lemma_map_convert_full(protos@, f);
    }
    assert(exceptions_view(out@) =~= Seq::<ExceptionV>::empty());
    while k < protos.len()
        invariant
            0 <= k <= protos.len(),
            protos@ == module.module.exceptions@,
            f == (|x: lf2::DefException| spec_convert_exception(x, *package, names_view(segments@))),
            map_convert(protos@.take(k as int), f) == Ok::<Seq<ExceptionV>, ConvertErrorV>(exceptions_view(out@)),
        decreases protos.len() - k,
    {
        proof {
            lemma_map_convert_step(protos@, f, k as int);
        }
        match convert_exception(&protos[k], package, segments.as_slice()) {
            Ok(x) => {
                let ghost before = out@;
                out.push(x);
                assert(exceptions_view(out@) =~= exceptions_view(before).push(x@));
            },
            Err(e) => {
                proof {
                    lemma_map_convert_err_prefix(protos@, f, k as int + 1);
                }
                return Err(e);
            },
        }
        k += 1;
    }
    Ok(out)
}

pub open spec fn party_literal_text() -> Seq<char> {
    "party-literal syntax (LF1-only; use the Party type instead)"@
}

pub open spec fn divulgence_text() -> Seq<char> {
    "contract-id divulgence in create arguments (LF1-only)"@
}

pub open spec fn disclosure_text() -> Seq<char> {
    "non-consuming choice disclosure to observers (LF1-only)"@
}

/// LF2 mandates the safer setting of each of the three transitional LF1
/// feature flags: a module that opts back into an LF1 semantics is refused,
/// the first such flag named.
pub open spec fn spec_flags_error(flags: ModuleFlags, version: LanguageVersion) -> Option<ConvertErrorV> {
    if !flags.forbid_party_literals {
        Some(ConvertErrorV::UnsupportedFeatureUsed(spec_version_text(version), party_literal_text(), "LF1"@))
    } else if !flags.dont_divulge_contract_ids_in_create_arguments {
        Some(ConvertErrorV::UnsupportedFeatureUsed(spec_version_text(version), divulgence_text(), "LF1"@))
    } else if !flags.dont_disclose_non_consuming_choices_to_observers {
        Some(ConvertErrorV::UnsupportedFeatureUsed(spec_version_text(version), disclosure_text(), "LF1"@))
    } else {
        None
    }
}

pub open spec fn spec_feature_flags(flags: ModuleFlags) -> DamlFeatureFlags {
    DamlFeatureFlags {
        forbid_party_literals: flags.forbid_party_literals,
        dont_divulge_contract_ids_in_create_arguments: flags.dont_divulge_contract_ids_in_create_arguments,
        dont_disclose_non_consuming_choices_to_observers: flags.dont_disclose_non_consuming_choices_to_observers,
    }
}

/// `m` with each nested data type inserted at the module path `base`
/// extended by its prefix, in order.
pub open spec fn spec_place_nested(m: ModuleV, base: Seq<Seq<char>>, nested: Seq<(Seq<Seq<char>>, DataV)>) -> ModuleV
    decreases nested.len(),
{
    if nested.len() == 0 {
        m
    } else {
        spec_place(
            spec_place_nested(m, base, nested.drop_last()),
            base + nested.last().0,
            PlaceActionV::InsertData(nested.last().1),
        )
    }
}

/// Convert the value definitions of an LF2 module, in order.
fn build_values<'a>(module: &DamlModulePayload<'a>, package: &DamlPackagePayload<'a>) -> (r: DamlLfConvertResult<
    Vec<DamlDefValue>,
>)
    ensures
        match r {
            Ok(vs) => map_convert(module.module.values@, |v: lf2::DefValue| spec_convert_def_value(v, *package))
                == Ok::<Seq<DefValueV>, ConvertErrorV>(values_view(vs@)),
            Err(e) => map_convert(module.module.values@, |v: lf2::DefValue| spec_convert_def_value(v, *package))
                == Err::<Seq<DefValueV>, ConvertErrorV>(e@),
        },
{
    let protos = module.values();
    let ghost f = |v: lf2::DefValue| spec_convert_def_value(v, *package);
    let mut out: Vec<DamlDefValue> = Vec::new();
    let mut k: usize = 0;
    proof {
        lemma_map_convert_full(protos@, f);
    }
    assert(values_view(out@) =~= Seq::<DefValueV>::empty());
    while k < protos.len()
        invariant
            0 <= k <= protos.len(),
            protos@ == module.module.values@,
            f == (|v: lf2::DefValue| spec_convert_def_value(v, *package)),
            map_convert(protos@.take(k as int), f) == Ok::<Seq<DefValueV>, ConvertErrorV>(values_view(out@)),
        decreases protos.len() - k,
    {
        proof {
            lemma_map_convert_step(protos@, f, k as int);
        }
        match convert_def_value(&protos[k], package) {
            Ok(v) => {
                let ghost before = out@;
                out.push(v);
                assert(values_view(out@) =~= values_view(before).push(v@));
            },
            Err(e) => {
                proof {
                    lemma_map_convert_err_prefix(protos@, f, k as int + 1);
                }
                return Err(e);
            },
        }
        k += 1;
    }
    Ok(out)
}

/// The module tree `root` with the LF2 module `m` converted and placed at
/// `path`: its flags checked, its definitions converted, merged in at the
/// module at `path`, and its data types with a dotted-name prefix inserted
/// below it at that prefix.
pub open spec fn spec_insert_module<'a>(
    root: ModuleV,
    path: Seq<Seq<char>>,
    m: DamlModulePayload<'a>,
    p: DamlPackagePayload<'a>,
) -> Result<ModuleV, ConvertErrorV> {
    match spec_flags_error(m.flags, p.language_version) {
        Some(e) => Err(e),
        None => match spec_build_data_types(m.module.data_types@, p, path, m.module.templates@) {
            Err(e) => Err(e),
            Ok((direct, nested)) => match map_convert(
                m.module.synonyms@,
                |s: lf2::DefTypeSyn| spec_build_synonym(s, p, path),
            ) {
                Err(e) => Err(e),
                Ok(synonyms) => match map_convert(
                    m.module.interfaces@,
                    |i: lf2::DefInterface| spec_convert_interface(i, p, path),
                ) {
                    Err(e) => Err(e),
                    Ok(interfaces) => match map_convert(
                        m.module.exceptions@,
                        |x: lf2::DefException| spec_convert_exception(x, p, path),
                    ) {
                        Err(e) => Err(e),
                        Ok(exceptions) => match map_convert(
                            m.module.values@,
                            |v: lf2::DefValue| spec_convert_def_value(v, p),
                        ) {
                            Err(e) => Err(e),
                            Ok(values) => Ok(
                                spec_place_nested(
                                    spec_place(
                                        root,
                                        path,
                                        PlaceActionV::Merge(
                                            ModuleV {
                                                name: Seq::empty(),
                                                path,
                                                flags: spec_feature_flags(m.flags),
                                                synonyms,
                                                children: Seq::empty(),
                                                data: direct,
                                                interfaces,
                                                exceptions,
                                                values,
                                            },
                                        ),
                                    ),
                                    path,
                                    nested,
                                ),
                            ),
                        },
                    },
                },
            },
        },
    }
}

/// Convert an LF2 module and place it in the tree below `root` at `path`.
fn insert_module<'a>(
    root: &mut DamlModule,
    path: &Vec<String>,
    module: &DamlModulePayload<'a>,
    package: &DamlPackagePayload<'a>,
) -> (r: DamlLfConvertResult<()>)
    ensures
        match r {
            Ok(_) => spec_insert_module(old(root)@, names_view(path@), *module, *package) == Ok::<
                ModuleV,
                ConvertErrorV,
            >(final(root)@),
            Err(e) => spec_insert_module(old(root)@, names_view(path@), *module, *package) == Err::<
                ModuleV,
                ConvertErrorV,
            >(e@) && *final(root) == *old(root),
        },
{
    if !module.flags.forbid_party_literals {
        return Err(
            DamlLfConvertError::UnsupportedFeatureUsed(
                package.language_version.to_string(),
                String::from_str("party-literal syntax (LF1-only; use the Party type instead)"),
                String::from_str("LF1"),
            ),
        );
    }
    if !module.flags.dont_divulge_contract_ids_in_create_arguments {
        return Err(
            DamlLfConvertError::UnsupportedFeatureUsed(
                package.language_version.to_string(),
                String::from_str("contract-id divulgence in create arguments (LF1-only)"),
                String::from_str("LF1"),
            ),
        );
    }
    if !module.flags.dont_disclose_non_consuming_choices_to_observers {
        return Err(
            DamlLfConvertError::UnsupportedFeatureUsed(
                package.language_version.to_string(),
                String::from_str("non-consuming choice disclosure to observers (LF1-only)"),
                String::from_str("LF1"),
            ),
        );
    }
    let (direct, nested) = build_data_types(module, package, path)?;
    let synonyms = build_synonyms(module, package, path)?;
    let interfaces = build_interfaces(module, package, path)?;
    let exceptions = build_exceptions(module, package, path)?;
    let values = build_values(module, package)?;
    let flags = DamlFeatureFlags {
        forbid_party_literals: module.flags.forbid_party_literals,
        dont_divulge_contract_ids_in_create_arguments: module.flags.dont_divulge_contract_ids_in_create_arguments,
        dont_disclose_non_consuming_choices_to_observers: module.flags.dont_disclose_non_consuming_choices_to_observers,
    };
    let ghost pv = names_view(path@);
    let ghost leaf_view = ModuleV {
        name: Seq::empty(),
        path: pv,
        flags: spec_feature_flags(module.flags),
        synonyms: synonyms_view(synonyms@),
        children: Seq::empty(),
        data: data_seq_view(direct@),
        interfaces: interfaces_model(interfaces@),
        exceptions: exceptions_view(exceptions@),
        values: values_view(values@),
    };
    let leaf = DamlModule::new_leaf(
        copy_names(path.as_slice()),
        flags,
        synonyms,
        direct,
        interfaces,
        exceptions,
        values,
    );
    assert(leaf@ =~= leaf_view) by {
        assert(modules_view(leaf.child_modules@) =~= Seq::<ModuleV>::empty());
        assert(leaf.name@ =~= Seq::<char>::empty());
    }
    assert(pv.skip(0) =~= pv);
    root.place(path, 0, PlaceAction::Merge(leaf));
    let ghost placed = root@;
    let ghost all = nested@;
    let ghost all_v = nested_view(all);
    let nested_count = nested.len();
    let mut items = nested;
    let mut k: usize = 0;
    let ghost total = all.len();
    assert(total == nested_count);
    assert(all_v.take(0) =~= Seq::<(Seq<Seq<char>>, DataV)>::empty());
    while items.len() > 0
        invariant
            k + items@.len() == total,
            total == all.len(),
            total <= usize::MAX,
            all_v == nested_view(all),
            pv == names_view(path@),
            items@ == all.skip(k as int),
            root@ == spec_place_nested(placed, pv, all_v.take(k as int)),
        decreases items@.len(),
    {
        let (prefix, data) = items.remove(0);
        proof {
            assert(all[k as int] == (prefix, data));
            assert(all_v.take(k + 1).drop_last() =~= all_v.take(k as int));
            assert(all_v.take(k + 1).last() == (names_view(prefix@), data@));
        }
        let count = prefix.len();
        let full = extend_names(copy_names(path.as_slice()), &prefix, count);
        assert(prefix@.take(count as int) =~= prefix@);
        assert(names_view(full@).skip(0) =~= names_view(full@));
        root.place(&full, 0, PlaceAction::InsertData(data));
        k += 1;
        assert(items@ =~= all.skip(k as int));
    }
    assert(all_v.take(k as int) =~= all_v);
    Ok(())
}

/// The module tree of the modules `ms` of a package, each converted and
/// placed in turn at its dotted name, starting from an empty root.
pub open spec fn spec_tree_from<'a>(p: DamlPackagePayload<'a>, ms: Seq<DamlModulePayload<'a>>) -> Result<
    ModuleV,
    ConvertErrorV,
>
    decreases ms.len(),
{
    if ms.len() == 0 {
        Ok(spec_root())
    } else {
        match spec_tree_from(p, ms.drop_last()) {
            Err(e) => Err(e),
            Ok(root) => match spec_resolve_dotted(p.spec_strings(), p.spec_dotted(), ms.last().name_index as int) {
                Err(e) => Err(e),
                Ok(path) => spec_insert_module(root, path, ms.last(), p),
            },
        }
    }
}

/// The package of a payload: its metadata and its module tree.
pub open spec fn spec_build_package<'a>(p: DamlPackagePayload<'a>) -> Result<PackageV, ConvertErrorV> {
    match spec_tree_from(p, p.modules@) {
        Err(e) => Err(e),
        Ok(root) => Ok(
            PackageV {
                name: p.name@,
                package_id: p.package_id@,
                version: match p.version {
                    Some(v) => Some(v@),
                    None => None,
                },
                language_version: p.language_version,
                root,
            },
        ),
    }
}

/// The archive of a payload: each package built, keyed by package id.
pub open spec fn spec_build_archive<'a>(ap: DamlArchivePayload<'a>) -> Result<ArchiveV, ConvertErrorV> {
    match map_convert(ap.packages@, |p: DamlPackagePayload<'a>| spec_build_package(p)) {
        Err(e) => Err(e),
        Ok(packages) => Ok(
            ArchiveV {
                name: ap.archive_name@,
                main_package_id: ap.main_package_id@,
                packages: upsert_all(Seq::empty(), packages, package_id_key()),
            },
        ),
    }
}

/// Once a prefix of the modules fails to convert, all of them fail the same
/// way.
proof fn lemma_tree_err_prefix<'a>(p: DamlPackagePayload<'a>, ms: Seq<DamlModulePayload<'a>>, i: int)
    requires
        0 <= i <= ms.len(),
        spec_tree_from(p, ms.take(i)) is Err,
    ensures
        spec_tree_from(p, ms) == spec_tree_from(p, ms.take(i)),
    decreases ms.len() - i,
{
    if i == ms.len() {
        assert(ms.take(i) =~= ms);
    } else {
        assert(ms.take(i + 1).drop_last() =~= ms.take(i));
        lemma_tree_err_prefix(p, ms, i + 1);
    }
}

/// Build the module tree of a package: each module converted and placed at
/// its dotted name, in order.
fn build_module_tree<'a>(payload: &DamlPackagePayload<'a>) -> (r: DamlLfConvertResult<DamlModule>)
    ensures
        match r {
            Ok(m) => spec_tree_from(*payload, payload.modules@) == Ok::<ModuleV, ConvertErrorV>(m@),
            Err(e) => spec_tree_from(*payload, payload.modules@) == Err::<ModuleV, ConvertErrorV>(e@),
        },
{
    let mut root = DamlModule::new_root();
    let ghost ms = payload.modules@;
    let mut i: usize = 0;
    assert(ms.take(0) =~= Seq::<DamlModulePayload<'a>>::empty());
    while i < payload.modules.len()
        invariant
            0 <= i <= payload.modules.len(),
            ms == payload.modules@,
            spec_tree_from(*payload, ms.take(i as int)) == Ok::<ModuleV, ConvertErrorV>(root@),
        decreases payload.modules.len() - i,
    {
        let module = &payload.modules[i];
        assert(ms.take(i + 1).drop_last() =~= ms.take(i as int));
        assert(ms.take(i + 1).last() == *module);
        let path = match module.path(payload) {
            Ok(path) => path,
            Err(e) => {
                proof {
                    lemma_tree_err_prefix(*payload, ms, i + 1);
                }
                return Err(e);
            },
        };
        match insert_module(&mut root, &path, module, payload) {
            Ok(_) => {},
            Err(e) => {
                proof {
                    lemma_tree_err_prefix(*payload, ms, i + 1);
                }
                return Err(e);
            },
        }
        i += 1;
    }
    assert(ms.take(i as int) =~= ms);
    Ok(root)
}

/// Build the package of a payload.
fn build_package<'a>(payload: &DamlPackagePayload<'a>) -> (r: DamlLfConvertResult<DamlPackage>)
    ensures
        match r {
            Ok(pkg) => spec_build_package(*payload) == Ok::<PackageV, ConvertErrorV>(pkg@),
            Err(e) => spec_build_package(*payload) == Err::<PackageV, ConvertErrorV>(e@),
        },
{
    let root = build_module_tree(payload)?;
    let version = match &payload.version {
        Some(v) => Some(v.clone()),
        None => None,
    };
    Ok(DamlPackage::new(payload.name.clone(), payload.package_id.clone(), version, payload.language_version, root))
}

/// Insert a package, replacing the one with its package id.
fn insert_package(packages: &mut Vec<DamlPackage>, package: DamlPackage)
    ensures
        packages_view(final(packages)@) == upsert(packages_view(old(packages)@), package@, package_id_key()),
{
    let ghost ps = packages_view(packages@);
    let mut i: usize = 0;
    while i < packages.len()
        invariant
            0 <= i <= packages.len(),
            *packages == *old(packages),
            ps == packages_view(packages@),
            ps.len() == packages@.len(),
            forall|j: int| 0 <= j < i ==> (package_id_key())(#[trigger] ps[j]) != package@.package_id,
        decreases packages.len() - i,
    {
        if str_eq(packages[i].package_id.as_str(), package.package_id.as_str()) {
            proof {
                lemma_key_position_found(ps, package@.package_id, package_id_key(), i as int);
            }
            packages.set(i, package);
            assert(packages_view(packages@) =~= ps.update(i as int, package@));
            return;
        }
        i += 1;
    }
    proof {
        lemma_key_position_absent(ps, package@.package_id, package_id_key());
    }
    packages.push(package);
    assert(packages_view(packages@) =~= ps.push(package@));
}

/// Build the archive of a payload: each of its packages, keyed by package
/// id.
#[verifier::spinoff_prover]
fn build_archive<'a>(payload: &DamlArchivePayload<'a>) -> (r: DamlLfResult<DamlArchive>)
    ensures
        match r {
            Ok(a) => spec_build_archive(*payload) == Ok::<ArchiveV, ConvertErrorV>(a@),
            Err(e) => match spec_build_archive(*payload) {
                Err(ce) => e@ == DamlLfErrorV::ConvertError(ce),
                Ok(_) => false,
            },
        },
{
    let ghost f = |p: DamlPackagePayload<'a>| spec_build_package(p);
    let ghost ps = payload.packages@;
    let ghost mut built: Seq<PackageV> = Seq::empty();
    let mut packages: Vec<DamlPackage> = Vec::new();
    let mut i: usize = 0;
    proof {
        lemma_map_convert_full(ps, f);
    }
    assert(packages_view(packages@) =~= Seq::<PackageV>::empty());
    while i < payload.packages.len()
        invariant
            0 <= i <= payload.packages.len(),
            ps == payload.packages@,
            f == (|p: DamlPackagePayload<'a>| spec_build_package(p)),
            map_convert(ps.take(i as int), f) == Ok::<Seq<PackageV>, ConvertErrorV>(built),
            packages_view(packages@) == upsert_all(Seq::empty(), built, package_id_key()),
        decreases payload.packages.len() - i,
    {
        proof {
            lemma_map_convert_step(ps, f, i as int);
        }
        match build_package(&payload.packages[i]) {
            Ok(pkg) => {
                let ghost pv = pkg@;
                insert_package(&mut packages, pkg);
                proof {
                    assert(built.push(pv).drop_last() =~= built);
                    built = built.push(pv);
                }
            },
            Err(e) => {
                proof {
                    lemma_map_convert_err_prefix(ps, f, i as int + 1);
                }
                return Err(DamlLfError::ConvertError(e));
            },
        }
        i += 1;
    }
    proof {
        lemma_map_convert_full(ps, f);
    }
    Ok(DamlArchive::new(payload.archive_name.clone(), payload.main_package_id.clone(), packages))
}

/// The archive a DAR converts to: every archive's metadata decodes, and the
/// archive built from the DAR's payload is `a`.
pub open spec fn archive_of_dar(dar: DarFile, a: ArchiveV) -> bool {
    &&& first_error(dar_archives(dar), metadata_check()) is None
    &&& exists|ap: DamlArchivePayload<'static>|
        payload_of_dar(ap, dar) && spec_build_archive(ap) == Ok::<ArchiveV, ConvertErrorV>(a)
}

/// The archive a DAR converts to has the hash of the DAR's main archive as
/// its main package id, and holds a package of that id: its main package is
/// there.
pub proof fn law_dar_main_package(dar: DarFile, a: ArchiveV)
    requires
        archive_of_dar(dar, a),
    ensures
        a.main_package_id == dar.main.hash@,
        spec_find_package(a, a.main_package_id) is Some,
{
    let ap = choose|ap: DamlArchivePayload<'static>|
        payload_of_dar(ap, dar) && spec_build_archive(ap) == Ok::<ArchiveV, ConvertErrorV>(a);
    let archives = dar_archives(dar);
    let loaded = loaded_archives(dar);
    let k = dar.main.hash@;
    assert(archives[0] == dar.main);
    lemma_upsert_all_finds(Seq::<DamlLfArchive>::empty(), archives, archive_key(), 0);
    lemma_key_position_bounds(loaded, k, archive_key());
    let pos = key_position(loaded, k, archive_key());
    assert(loaded[pos].hash@ == k);
    assert(payload_of_archive(ap.packages@[pos], loaded[pos]));
    let f = |p: DamlPackagePayload<'static>| spec_build_package(p);
    lemma_map_convert_elementwise(ap.packages@, f);
    let packages = map_convert(ap.packages@, f)->Ok_0;
    assert(f(ap.packages@[pos]) == Ok::<PackageV, ConvertErrorV>(packages[pos]));
    assert(packages[pos].package_id == k);
    lemma_upsert_all_finds(Seq::<PackageV>::empty(), packages, package_id_key(), pos);
}

/// The failure converting a DAR: the first archive whose metadata does not
/// decode, or else the failure building the archive of its payload.
pub open spec fn dar_error(dar: DarFile, e: ConvertErrorV) -> bool {
    match first_error(dar_archives(dar), metadata_check()) {
        Some(m) => e == m,
        None => exists|ap: DamlArchivePayload<'static>|
            payload_of_dar(ap, dar) && spec_build_archive(ap) == Err::<ArchiveV, ConvertErrorV>(e),
    }
}

/// The package an archive converts to on its own.
pub open spec fn package_of_dalf(dalf: DamlLfArchive, pv: PackageV) -> bool {
    exists|p: DamlPackagePayload<'static>|
        payload_of_dalf(p, dalf) && spec_build_package(p) == Ok::<PackageV, ConvertErrorV>(pv)
}

/// The failure converting an archive on its own: its metadata, or else
/// building its package.
pub open spec fn dalf_error(dalf: DamlLfArchive, e: ConvertErrorV) -> bool {
    match spec_package_metadata(lf2_package(dalf.payload)) {
        Err(m) => e == m,
        Ok(_) => exists|p: DamlPackagePayload<'static>|
            payload_of_dalf(p, dalf) && spec_build_package(p) == Err::<PackageV, ConvertErrorV>(e),
    }
}

/// The outcome of converting an archive on its own and applying `f` to its
/// package.
pub open spec fn dalf_outcome<R, F: FnOnce(&DamlPackage) -> R>(dalf: DamlLfArchive, f: F, r: DamlLfResult<R>) -> bool {
    match r {
        Ok(v) => exists|p: DamlPackage| package_of_dalf(dalf, p@) && call_ensures(f, (&p,), v),
        Err(e) => match e@ {
            DamlLfErrorV::ConvertError(ce) => dalf_error(dalf, ce),
            _ => false,
        },
    }
}

/// Convert a DAR into an owned archive of all its packages.
pub fn to_owned_archive(dar: &DarFile) -> (r: DamlLfResult<DamlArchive>)
    ensures
        match r {
            Ok(a) => archive_of_dar(*dar, a@),
            Err(e) => match e@ {
                DamlLfErrorV::ConvertError(ce) => dar_error(*dar, ce),
                _ => false,
            },
        },
{
    let payload = match DamlArchivePayload::try_from(dar) {
        Ok(p) => p,
        Err(e) => return Err(DamlLfError::ConvertError(e)),
    };
    let r = build_archive(&payload);
    proof {
        if r is Ok {
            assert(payload_of_dar(payload, *dar) && spec_build_archive(payload) == Ok::<ArchiveV, ConvertErrorV>(
                r->Ok_0@,
            ));
        } else {
            let ce = spec_build_archive(payload)->Err_0;
            assert(payload_of_dar(payload, *dar) && spec_build_archive(payload) == Err::<ArchiveV, ConvertErrorV>(ce));
        }
    }
    r
}

/// Convert a DAR into its archive and apply `f` to it.
pub fn apply_dar<R, F: FnOnce(&DamlArchive) -> R>(dar: &DarFile, f: F) -> (r: DamlLfResult<R>)
    requires
        forall|a: &DamlArchive| call_requires(f, (a,)),
    ensures
        match r {
            Ok(v) => exists|a: DamlArchive| archive_of_dar(*dar, a@) && call_ensures(f, (&a,), v),
            Err(e) => match e@ {
                DamlLfErrorV::ConvertError(ce) => dar_error(*dar, ce),
                _ => false,
            },
        },
{
    let archive = match to_owned_archive(dar) {
        Ok(a) => a,
        Err(e) => return Err(e),
    };
    let v = f(&archive);
    Ok(v)
}

/// Convert one archive on its own into its package and apply `f` to it.
pub fn apply_dalf<R, F: FnOnce(&DamlPackage) -> R>(dalf: &DamlLfArchive, f: F) -> (r: DamlLfResult<R>)
    requires
        forall|p: &DamlPackage| call_requires(f, (p,)),
    ensures
        dalf_outcome(*dalf, f, r),
{
    let package_payload = match DamlPackagePayload::try_from(dalf) {
        Ok(p) => p,
        Err(e) => return Err(DamlLfError::ConvertError(e)),
    };
    let ghost pp = package_payload;
    let payload = DamlArchivePayload::from_single_package(package_payload);
    proof {
        lemma_map_convert_single(pp, |p: DamlPackagePayload| spec_build_package(p));
    }
    let archive = match build_archive(&payload) {
        Ok(a) => a,
        Err(e) => {
            proof {
                let ce = spec_build_package(pp)->Err_0;
                assert(payload_of_dalf(pp, *dalf) && spec_build_package(pp) == Err::<PackageV, ConvertErrorV>(ce));
            }
            return Err(e);
        },
    };
    proof {
        let pv = spec_build_package(pp)->Ok_0;
        assert(Seq::<PackageV>::empty().push(pv) =~= seq![pv]);
        assert(upsert_all(Seq::<PackageV>::empty(), seq![pv], package_id_key()) =~= seq![pv]) by {
            assert(seq![pv].drop_last() =~= Seq::<PackageV>::empty());
            assert(upsert_all(Seq::<PackageV>::empty(), Seq::<PackageV>::empty(), package_id_key()) =~= Seq::<
                PackageV,
            >::empty());
            lemma_key_position_bounds(Seq::<PackageV>::empty(), pv.package_id, package_id_key());
            assert(Seq::<PackageV>::empty().push(pv) =~= seq![pv]);
        }
        assert(packages_view(archive.packages@).len() == 1);
    }
    let package = &archive.packages[0];
    proof {
        assert(packages_view(archive.packages@)[0] == package@);
        assert(payload_of_dalf(pp, *dalf) && spec_build_package(pp) == Ok::<PackageV, ConvertErrorV>(package@));
    }
    let v = f(package);
    Ok(v)
}

/// The outcome of converting a payload as an archive named `unnamed` with an
/// empty hash and applying `f` to its package.
pub open spec fn payload_outcome<R, F: FnOnce(&DamlPackage) -> R>(
    payload: DamlLfArchivePayload,
    f: F,
    r: DamlLfResult<R>,
) -> bool {
    exists|dalf: DamlLfArchive|
        dalf.payload == payload && dalf.name@ == "unnamed"@ && dalf.hash@ == Seq::<char>::empty() && dalf_outcome(
            dalf,
            f,
            r,
        )
}

/// Two archives with one payload and one hash have the same outcomes.
proof fn lemma_outcome_of_payload_and_hash<R, F: FnOnce(&DamlPackage) -> R>(
    a: DamlLfArchive,
    b: DamlLfArchive,
    f: F,
    r: DamlLfResult<R>,
)
    requires
        a.payload == b.payload,
        a.hash@ == b.hash@,
    ensures
        dalf_outcome(a, f, r) == dalf_outcome(b, f, r),
{
    assert forall|p: DamlPackagePayload<'static>| payload_of_dalf(p, a) == payload_of_dalf(p, b) by {}
    assert forall|pv: PackageV| package_of_dalf(a, pv) == package_of_dalf(b, pv) by {}
    assert forall|e: ConvertErrorV| dalf_error(a, e) == dalf_error(b, e) by {}
}

/// Applying `f` to a payload has exactly the outcomes of applying it to an
/// archive that wraps the payload under the name `unnamed` with an empty
/// hash.
pub proof fn law_apply_payload_as_unnamed_archive<R, F: FnOnce(&DamlPackage) -> R>(
    payload: DamlLfArchivePayload,
    f: F,
    r: DamlLfResult<R>,
    wrapping: DamlLfArchive,
)
    requires
        wrapping.payload == payload,
        wrapping.name@ == "unnamed"@,
        wrapping.hash@ == Seq::<char>::empty(),
    ensures
        payload_outcome(payload, f, r) <==> dalf_outcome(wrapping, f, r),
{
    if payload_outcome(payload, f, r) {
        let d = choose|dalf: DamlLfArchive|
            dalf.payload == payload && dalf.name@ == "unnamed"@ && dalf.hash@ == Seq::<char>::empty() && dalf_outcome(
                dalf,
                f,
                r,
            );
        lemma_outcome_of_payload_and_hash(d, wrapping, f, r);
    }
}

/// Convert a payload on its own, as an unnamed archive with an empty hash,
/// into its package and apply `f` to it.
pub fn apply_payload<R, F: FnOnce(&DamlPackage) -> R>(payload: DamlLfArchivePayload, f: F) -> (r: DamlLfResult<R>)
    requires
        forall|p: &DamlPackage| call_requires(f, (p,)),
    ensures
        payload_outcome(payload, f, r),
{
    let dalf = DamlLfArchive::new(String::from_str("unnamed"), payload, DamlLfHashFunction::Sha256, String::new());
    let r = apply_dalf(&dalf, f);
    assert(dalf.payload == payload && dalf.name@ == "unnamed"@ && dalf.hash@ == Seq::<char>::empty() && dalf_outcome(dalf, f, r));
    r
}

impl DarFile {
    /// Convert this DAR into its archive and apply `f` to it.
    pub fn apply<R, F: FnOnce(&DamlArchive) -> R>(&self, f: F) -> (r: DamlLfResult<R>)
        requires
            forall|a: &DamlArchive| call_requires(f, (a,)),
        ensures
            match r {
                Ok(v) => exists|a: DamlArchive| archive_of_dar(*self, a@) && call_ensures(f, (&a,), v),
                Err(e) => match e@ {
                    DamlLfErrorV::ConvertError(ce) => dar_error(*self, ce),
                    _ => false,
                },
            },
    {
        apply_dar(self, f)
    }

    /// Convert this DAR into an owned archive.
    pub fn to_owned_archive(&self) -> (r: DamlLfResult<DamlArchive>)
        ensures
            match r {
                Ok(a) => archive_of_dar(*self, a@),
                Err(e) => match e@ {
                    DamlLfErrorV::ConvertError(ce) => dar_error(*self, ce),
                    _ => false,
                },
            },
    {
        to_owned_archive(self)
    }
}

impl DamlLfArchive {
    /// Convert this archive on its own into its package and apply `f` to it.
    pub fn apply<R, F: FnOnce(&DamlPackage) -> R>(&self, f: F) -> (r: DamlLfResult<R>)
        requires
            forall|p: &DamlPackage| call_requires(f, (p,)),
        ensures
            dalf_outcome(*self, f, r),
    {
        apply_dalf(self, f)
    }
}

impl DamlLfArchivePayload {
    /// Convert this payload on its own into its package and apply `f` to it.
    pub fn apply<R, F: FnOnce(&DamlPackage) -> R>(self, f: F) -> (r: DamlLfResult<R>)
        requires
            forall|p: &DamlPackage| call_requires(f, (p,)),
        ensures
            exists|dalf: DamlLfArchive|
                dalf.payload == self && dalf.name@ == "unnamed"@ && dalf.hash@ == Seq::<char>::empty()
                    && dalf_outcome(dalf, f, r),
    {
        apply_payload(self, f)
    }
}

} // verus!
