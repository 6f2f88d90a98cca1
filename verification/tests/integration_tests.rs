use std::collections::HashSet;

use daml::archive::{
    DamlLfArchive, DamlLfHashFunction, DarEncryptionType, DarFile, DarManifest, DarManifestFormat, DarManifestVersion,
};
use daml::element::data::{DamlData, DamlEnum, DamlTemplate};
use daml::element::interface::DamlInterface;
use daml::element::visitor::DamlElementVisitor;
use daml::element::expr::{DamlExpr, DamlPrimCon, DamlValueName};
use daml::element::module::DamlModule;
use daml::element::package::DamlArchive;
use daml::convert::typevar_payload::convert_kind;
use daml::element::types::{DamlField, DamlKind, DamlTyConName, DamlType};
use daml::error::DamlLfResult;
use daml::convert::util::Required;
use daml::lf2;
use daml::payload::{DamlLfArchivePayload, DamlLfPackage};
use daml::version::LanguageVersion;

const MAIN_ID: &str = "5f1c0e2a9b7d4c3e8a6f0b1d2c3e4f5a6b7c8d9e0f1a2b3c4d5e6f7a8b9c0d1e";
const PRIM_ID: &str = "0a1b2c3d4e5f60718293a4b5c6d7e8f90a1b2c3d4e5f60718293a4b5c6d7e8f9";
const STDLIB_ID: &str = "9f8e7d6c5b4a39281706f5e4d3c2b1a09f8e7d6c5b4a39281706f5e4d3c2b1a0";

/// Interning tables of an LF2 package under construction.
#[derive(Default)]
struct Tables {
    strings: Vec<String>,
    dotted: Vec<lf2::InternedDottedName>,
}

impl Tables {
    fn s(&mut self, text: &str) -> i32 {
        if let Some(i) = self.strings.iter().position(|x| x == text) {
            return i as i32;
        }
        self.strings.push(text.to_owned());
        (self.strings.len() - 1) as i32
    }

    fn d(&mut self, segments: &[&str]) -> i32 {
        let ids: Vec<i32> = segments.iter().map(|x| self.s(x)).collect();
        if let Some(i) = self.dotted.iter().position(|x| x.segments_interned_str == ids) {
            return i as i32;
        }
        self.dotted.push(lf2::InternedDottedName { segments_interned_str: ids });
        (self.dotted.len() - 1) as i32
    }

    fn builtin(&mut self, code: i32) -> lf2::Type {
        lf2::Type { sum: Some(lf2::TypeSum::Builtin(lf2::TypeBuiltin { builtin: code, args: Vec::new() })) }
    }

    fn con(&mut self, package: Option<&str>, module: &[&str], name: &str) -> lf2::Type {
        let package_ref = match package {
            None => lf2::PackageRef::SelfPackageId(lf2::Unit {}),
            Some(id) => lf2::PackageRef::ImportedPackageIdInternedStr(self.s(id)),
        };
        let module_name = self.d(module);
        let data_name = self.d(&[name]);
        lf2::Type {
            sum: Some(lf2::TypeSum::Con(lf2::TypeCon {
                tycon: Some(lf2::TypeConId {
                    module: Some(lf2::ModuleId {
                        package_id: Some(lf2::SelfOrImportedPackageId { sum: Some(package_ref) }),
                        module_name_interned_dname: module_name,
                    }),
                    name_interned_dname: data_name,
                }),
                args: Vec::new(),
            })),
        }
    }

    fn field(&mut self, name: &str, ty: lf2::Type) -> lf2::FieldWithType {
        lf2::FieldWithType { field_interned_str: self.s(name), ty: Some(ty) }
    }

    fn record(&mut self, name: &str, fields: Vec<lf2::FieldWithType>) -> lf2::DefDataType {
        lf2::DefDataType {
            name_interned_dname: self.d(&[name]),
            params: Vec::new(),
            serializable: true,
            data_cons: Some(lf2::DataCons::Record(lf2::Fields { fields })),
        }
    }

    fn package(self, modules: Vec<lf2::Module>, name: &str, version: &str) -> lf2::Package {
        let mut tables = self;
        let name_index = tables.s(name);
        let version_index = tables.s(version);
        lf2::Package {
            modules,
            interned_strings: tables.strings,
            interned_dotted_names: tables.dotted,
            metadata: Some(lf2::PackageMetadata { name_interned_str: name_index, version_interned_str: version_index }),
            interned_types: Vec::new(),
            interned_kinds: Vec::new(),
            interned_exprs: Vec::new(),
        }
    }
}

const PARTY: i32 = 6;
const TEXT: i32 = 7;
const CONTRACT_ID: i32 = 8;

fn lf2_flags() -> Option<lf2::FeatureFlags> {
    Some(lf2::FeatureFlags {
        forbid_party_literals: true,
        dont_divulge_contract_ids_in_create_arguments: true,
        dont_disclose_non_consuming_choices_to_observers: true,
    })
}

fn module(t: &mut Tables, name: &[&str], data_types: Vec<lf2::DefDataType>) -> lf2::Module {
    lf2::Module {
        name_interned_dname: t.d(name),
        flags: lf2_flags(),
        synonyms: Vec::new(),
        data_types,
        templates: Vec::new(),
        exceptions: Vec::new(),
        interfaces: Vec::new(),
        values: Vec::new(),
    }
}

fn archive(name: &str, hash: &str, package: lf2::Package) -> DamlLfArchive {
    DamlLfArchive::new(
        name.to_owned(),
        DamlLfArchivePayload::new(LanguageVersion::V2_1(), DamlLfPackage::V2(package)),
        DamlLfHashFunction::Sha256,
        hash.to_owned(),
    )
}

/// The `TestingTypes` package: `Fuji.Types` declares the enum `Color` and
/// the record `Painted`; `Fuji.Asset` declares the template `Asset`, with a
/// `Transfer` choice, and the interface `Holding` it implements.
fn main_package() -> lf2::Package {
    let mut t = Tables::default();
    let color = lf2::DefDataType {
        name_interned_dname: t.d(&["Color"]),
        params: Vec::new(),
        serializable: true,
        data_cons: Some(lf2::DataCons::Enum(lf2::EnumConstructors {
            constructors_interned_str: vec![t.s("Red"), t.s("Green"), t.s("Blue")],
        })),
    };
    let color_ty = t.con(None, &["Fuji", "Types"], "Color");
    let color_field = t.field("color", color_ty);
    let painted = t.record("Painted", vec![color_field]);
    let types_module = module(&mut t, &["Fuji", "Types"], vec![color, painted]);

    let party = t.builtin(PARTY);
    let issuer = t.field("issuer", party);
    let party = t.builtin(PARTY);
    let owner = t.field("owner", party);
    let color_ty = t.con(None, &["Fuji", "Types"], "Color");
    let color_field = t.field("color", color_ty);
    let tuple_ty = t.con(Some(PRIM_ID), &["DA", "Types"], "Tuple2");
    let pair_field = t.field("pair", tuple_ty);
    let asset = t.record("Asset", vec![issuer, owner, color_field, pair_field]);
    let party = t.builtin(PARTY);
    let new_owner = t.field("newOwner", party);
    let transfer = t.record("Transfer", vec![new_owner]);
    let text = t.builtin(TEXT);
    let description = t.field("description", text);
    let holding_view = t.record("HoldingView", vec![description]);
    let holding_marker = lf2::DefDataType {
        name_interned_dname: t.d(&["Holding"]),
        params: Vec::new(),
        serializable: false,
        data_cons: Some(lf2::DataCons::Interface(lf2::Unit {})),
    };
    let transfer_ty = t.con(None, &["Fuji", "Asset"], "Transfer");
    let archive_ty = t.con(Some(STDLIB_ID), &["DA", "Internal", "Template"], "Archive");
    let choice = lf2::TemplateChoice {
        name_interned_str: t.s("Transfer"),
        consuming: true,
        self_binder_interned_str: t.s("self"),
        arg_binder: Some(lf2::VarWithType { var_interned_str: t.s("arg"), ty: Some(transfer_ty) }),
        ret_type: Some(lf2::Type {
            sum: Some(lf2::TypeSum::Builtin(lf2::TypeBuiltin { builtin: CONTRACT_ID, args: vec![archive_ty] })),
        }),
        authorizers: None,
    };
    let holding_id = match t.con(None, &["Fuji", "Asset"], "Holding").sum {
        Some(lf2::TypeSum::Con(c)) => c.tycon,
        _ => None,
    };
    let template = lf2::DefTemplate {
        tycon_interned_dname: t.d(&["Asset"]),
        param_interned_str: t.s("this"),
        choices: vec![choice],
        implements: vec![lf2::Implements { interface: holding_id }],
        key: None,
    };
    let view_ty = t.con(None, &["Fuji", "Asset"], "HoldingView");
    let interface = lf2::DefInterface {
        tycon_interned_dname: t.d(&["Holding"]),
        param_interned_str: t.s("this"),
        methods: Vec::new(),
        choices: Vec::new(),
        view: Some(view_ty),
        required: Vec::new(),
    };
    let mut asset_module = module(&mut t, &["Fuji", "Asset"], vec![asset, transfer, holding_view, holding_marker]);
    asset_module.templates = vec![template];
    asset_module.interfaces = vec![interface];
    t.package(vec![types_module, asset_module], "TestingTypes", "3.0.0")
}

/// A `daml-prim` package declaring the record `DA.Types:Tuple2`.
fn prim_package() -> lf2::Package {
    let mut t = Tables::default();
    let text = t.builtin(TEXT);
    let first = t.field("_1", text);
    let text = t.builtin(TEXT);
    let second = t.field("_2", text);
    let tuple = t.record("Tuple2", vec![first, second]);
    let m = module(&mut t, &["DA", "Types"], vec![tuple]);
    t.package(vec![m], "daml-prim-DA-Types", "0.0.0")
}

/// A `daml-stdlib` package declaring the record `DA.Internal.Template:Archive`.
fn stdlib_package() -> lf2::Package {
    let mut t = Tables::default();
    let archive = t.record("Archive", Vec::new());
    let m = module(&mut t, &["DA", "Internal", "Template"], vec![archive]);
    t.package(vec![m], "daml-stdlib-DA-Internal-Template", "3.4.11")
}

/// The `daml-stdlib` package as above, with the value
/// `DA.Internal.Template:unit` of type `Unit`.
fn stdlib_package_with_value() -> lf2::Package {
    let mut t = Tables::default();
    let archive = t.record("Archive", Vec::new());
    let mut m = module(&mut t, &["DA", "Internal", "Template"], vec![archive]);
    let unit = t.builtin(0);
    m.values = vec![lf2::DefValue {
        name_with_type: Some(lf2::ValueNameWithType { name_interned_dname: t.d(&["unit"]), ty: Some(unit) }),
        expr: Some(Box::new(lf2::Expr { sum: Some(lf2::ExprSum::BuiltinCon(0)) })),
    }];
    t.package(vec![m], "daml-stdlib-DA-Internal-Template", "3.4.11")
}

/// A DAR of the `TestingTypes` package and the two packages it uses.
fn fixture_dar() -> DarFile {
    dar_with_stdlib(stdlib_package())
}

fn dar_with_stdlib(stdlib: lf2::Package) -> DarFile {
    let main = archive("TestingTypes-3.0.0", MAIN_ID, main_package());
    let prim = archive("daml-prim-DA-Types", PRIM_ID, prim_package());
    let stdlib = archive("daml-stdlib-DA-Internal-Template", STDLIB_ID, stdlib);
    let manifest = DarManifest::new(
        DarManifestVersion::V1,
        "damlc".to_owned(),
        format!("TestingTypes-3.0.0-{MAIN_ID}.dalf"),
        vec![format!("daml-prim-DA-Types-{PRIM_ID}.dalf"), format!("daml-stdlib-DA-Internal-Template-{STDLIB_ID}.dalf")],
        DarManifestFormat::DamlLf,
        DarEncryptionType::NotEncrypted,
    );
    DarFile::new(manifest, main, vec![prim, stdlib])
}

#[derive(Default)]
struct GatherEnumsVisitor(HashSet<String>);

impl DamlElementVisitor for GatherEnumsVisitor {
    fn pre_visit_enum(&mut self, data_enum: &DamlEnum) {
        self.0.insert(data_enum.name().to_owned());
    }
}

#[derive(Default)]
struct CollectAbs {
    seen: HashSet<(String, String)>,
    unresolved: HashSet<String>,
}

impl DamlElementVisitor for CollectAbs {
    fn pre_visit_tycon_name(&mut self, name: &DamlTyConName) {
        if let DamlTyConName::Absolute(abs) = name {
            self.seen.insert((abs.package_id().to_owned(), abs.package_name().to_owned()));
            if !abs.package_id().is_empty() && abs.package_name().is_empty() {
                self.unresolved.insert(abs.package_id().to_owned());
            }
        }
    }
}

#[derive(Default)]
struct Gather {
    templates: HashSet<String>,
    interfaces: HashSet<String>,
}

impl DamlElementVisitor for Gather {
    fn pre_visit_template(&mut self, t: &DamlTemplate) {
        self.templates.insert(t.name().to_owned());
    }

    fn pre_visit_interface(&mut self, i: &DamlInterface) {
        self.interfaces.insert(i.name().to_owned());
    }
}

fn all_modules(archive: &DamlArchive) -> Vec<&DamlModule> {
    let mut out = Vec::new();
    let mut stack: Vec<&DamlModule> = archive.packages().iter().map(|p| p.root_module()).collect();
    while let Some(m) = stack.pop() {
        out.push(m);
        stack.extend(m.child_modules().iter());
    }
    out
}

fn type_names<'a>(ty: &'a DamlType, out: &mut Vec<&'a DamlTyConName>) {
    match ty {
        DamlType::TyCon(c) | DamlType::BoxedTyCon(c) => {
            out.push(&c.tycon);
            for a in &c.type_arguments {
                type_names(a, out);
            }
        },
        DamlType::Syn(s) => {
            out.push(&s.tysyn);
            for a in &s.args {
                type_names(a, out);
            }
        },
        DamlType::Var(v) => v.type_arguments.iter().for_each(|a| type_names(a, out)),
        DamlType::Forall(f) => type_names(&f.body, out),
        DamlType::Struct(s) => s.fields.iter().for_each(|f| type_names(&f.ty, out)),
        DamlType::ContractId(Some(b)) => type_names(b, out),
        DamlType::Numeric(a) | DamlType::Optional(a) | DamlType::List(a) | DamlType::GenMap(a) | DamlType::TextMap(a) =>
            a.iter().for_each(|t| type_names(t, out)),
        _ => {},
    }
}

fn field_names<'a>(fields: &'a [DamlField], out: &mut Vec<&'a DamlTyConName>) {
    fields.iter().for_each(|f| type_names(&f.ty, out));
}

/// Every type-constructor name the archive mentions.
fn tycon_names(archive: &DamlArchive) -> Vec<&DamlTyConName> {
    let mut out = Vec::new();
    for m in all_modules(archive) {
        for data in m.data_types() {
            match data {
                DamlData::Record(r) | DamlData::Variant(r) => field_names(&r.fields, &mut out),
                DamlData::Enum(_) => {},
                DamlData::Template(t) => {
                    field_names(&t.fields, &mut out);
                    for c in &t.choices {
                        field_names(&c.fields, &mut out);
                        type_names(&c.return_type, &mut out);
                    }
                    out.extend(t.implements.iter());
                },
            }
        }
        for i in m.interfaces() {
            type_names(&i.view, &mut out);
            out.extend(i.required_interfaces.iter());
        }
    }
    out
}

#[test]
pub fn test_fat_dar_manifest() -> DamlLfResult<()> {
    let dar = fixture_dar();
    assert_eq!(DarManifestVersion::V1, dar.manifest().version());
    assert_eq!("damlc", dar.manifest().created_by());
    assert_eq!("TestingTypes", dar.manifest().dalf_main().split('-').next().unwrap());
    assert_eq!(DarManifestFormat::DamlLf, dar.manifest().format());
    assert_eq!(DarEncryptionType::NotEncrypted, dar.manifest().encryption());
    assert_eq!(LanguageVersion::V2_1(), *dar.main().payload().language_version());
    Ok(())
}

#[test]
pub fn test_contains_modules() -> DamlLfResult<()> {
    let dar = fixture_dar();
    assert!(dar.main().payload().contains_module("Fuji.Types"));
    assert!(dar.main().payload().contains_module("Fuji.Asset"));
    Ok(())
}

#[test]
fn test_apply_dar() -> DamlLfResult<()> {
    let dar = fixture_dar();
    let name = dar.apply(|archive| archive.name().to_owned())?;
    assert_eq!("TestingTypes-3.0.0", name);
    Ok(())
}

#[test]
fn test_apply_dalf_dependency() -> DamlLfResult<()> {
    let dar = fixture_dar();
    let any_dep = dar.dependencies.first().expect("at least one dalf dependency");
    let name = any_dep.apply(|package| package.name().to_owned())?;
    assert!(name.starts_with("daml-prim"), "dalf name: {name}");
    Ok(())
}

#[test]
fn test_apply_payload() -> DamlLfResult<()> {
    let mut dar = fixture_dar();
    let payload = dar.dependencies.swap_remove(0).payload;
    let name = payload.apply(|package| package.name().to_owned())?;
    assert!(name.starts_with("daml-prim"), "payload name: {name}");
    Ok(())
}

#[test]
fn test_convert_dar() -> DamlLfResult<()> {
    let dar = fixture_dar();
    let archive = dar.to_owned_archive()?;
    assert_eq!("TestingTypes-3.0.0", archive.name());
    Ok(())
}

#[test]
fn test_visitor_finds_enum() -> DamlLfResult<()> {
    let mut visitor = GatherEnumsVisitor::default();
    let dar = fixture_dar();
    dar.apply(|archive| archive.accept(&mut visitor))?;
    assert!(visitor.0.contains("Color"));
    Ok(())
}
#[test]
fn test_cross_package_name_resolution() -> DamlLfResult<()> {
    let mut visitor = CollectAbs::default();
    let dar = fixture_dar();
    let loaded_pkg_ids: HashSet<String> = std::iter::once(dar.main.hash.clone())
        .chain(dar.dependencies.iter().map(|d| d.hash.clone()))
        .collect();
    dar.apply(|archive| archive.accept(&mut visitor))?;
    let real_unresolved: HashSet<&String> =
        visitor.unresolved.iter().filter(|id| loaded_pkg_ids.contains(*id)).collect();
    assert!(
        real_unresolved.is_empty(),
        "package_name unresolved for {} loaded package id(s): {:?}",
        real_unresolved.len(),
        real_unresolved,
    );
    assert!(visitor.seen.len() >= 3, "expected at least 3 distinct tycon packages, saw {}", visitor.seen.len());
    Ok(())
}
#[test]
fn test_visitor_finds_interface_and_template() -> DamlLfResult<()> {
    let mut visitor = Gather::default();
    let dar = fixture_dar();
    dar.apply(|archive| archive.accept(&mut visitor))?;
    assert!(visitor.templates.contains("Asset"), "templates: {:?}", visitor.templates);
    assert!(visitor.interfaces.contains("Holding"), "interfaces: {:?}", visitor.interfaces);
    Ok(())
}
#[test]
fn converted_fixture_validates() -> DamlLfResult<()> {
    let dar = fixture_dar();
    let archive = dar.to_owned_archive()?;
    assert!(archive.validate().is_ok());
    assert_eq!(archive.packages().len(), 3);
    assert_eq!(archive.main_package().expect("main package").name(), "TestingTypes");
    assert_eq!(archive.package_by_name("daml-prim-DA-Types").expect("prim").package_id(), PRIM_ID);
    Ok(())
}

#[test]
fn converted_fixture_lookups() -> DamlLfResult<()> {
    let dar = fixture_dar();
    let archive = dar.to_owned_archive()?;
    let path = vec!["Fuji".to_owned(), "Asset".to_owned()];
    match archive.data(MAIN_ID, &path, "Asset") {
        Some(DamlData::Template(t)) => {
            assert_eq!(t.name(), "Asset");
            assert_eq!(t.fields().len(), 4);
            assert_eq!(t.choices().len(), 1);
            assert_eq!(t.choices()[0].name(), "Transfer");
        },
        other => panic!("expected the Asset template, found {other:?}"),
    }
    assert!(archive.interface(MAIN_ID, &path, "Holding").is_some());
    assert!(archive.data(MAIN_ID, &path, "Holding").is_none());
    assert!(archive.data(MAIN_ID, &path, "Missing").is_none());
    let module = archive.module_at(MAIN_ID, &path).expect("module");
    assert_eq!(module.path(), &path);
    Ok(())
}

#[test]
fn unknown_dependency_reference_fails_validation() -> DamlLfResult<()> {
    let mut dar = fixture_dar();
    dar.dependencies.pop();
    let archive = dar.to_owned_archive()?;
    match archive.validate() {
        Err(daml::error::DamlLfConvertError::UnknownPackage(id)) => assert_eq!(id, STDLIB_ID),
        other => panic!("expected an unknown package, found {other:?}"),
    }
    Ok(())
}

fn first_error(dar: &DarFile) -> daml::error::DamlLfConvertError {
    match dar.to_owned_archive() {
        Err(daml::error::DamlLfError::ConvertError(e)) => e,
        other => panic!("expected a conversion error, found {other:?}"),
    }
}

fn single_module_dar(module: lf2::Module, t: Tables) -> DarFile {
    let package = t.package(vec![module], "Single", "1.0.0");
    let main = archive("Single-1.0.0", MAIN_ID, package);
    let manifest = DarManifest::new_implied("Single-1.0.0".to_owned(), Vec::new());
    DarFile::new(manifest, main, Vec::new())
}

#[test]
fn a_module_without_lf2_flags_is_refused() {
    let mut t = Tables::default();
    let mut m = module(&mut t, &["Old"], Vec::new());
    m.flags = None;
    match first_error(&single_module_dar(m, t)) {
        daml::error::DamlLfConvertError::UnsupportedFeatureUsed(version, feature, line) => {
            assert_eq!(version, "v2.1");
            assert_eq!(feature, "party-literal syntax (LF1-only; use the Party type instead)");
            assert_eq!(line, "LF1");
        },
        other => panic!("unexpected {other:?}"),
    }
}

#[test]
fn divulgence_and_disclosure_flags_are_refused_in_order() {
    let mut t = Tables::default();
    let mut m = module(&mut t, &["Old"], Vec::new());
    m.flags = Some(lf2::FeatureFlags {
        forbid_party_literals: true,
        dont_divulge_contract_ids_in_create_arguments: false,
        dont_disclose_non_consuming_choices_to_observers: false,
    });
    match first_error(&single_module_dar(m, t)) {
        daml::error::DamlLfConvertError::UnsupportedFeatureUsed(_, feature, _) => {
            assert_eq!(feature, "contract-id divulgence in create arguments (LF1-only)")
        },
        other => panic!("unexpected {other:?}"),
    }
    let mut t = Tables::default();
    let mut m = module(&mut t, &["Old"], Vec::new());
    m.flags = Some(lf2::FeatureFlags {
        forbid_party_literals: true,
        dont_divulge_contract_ids_in_create_arguments: true,
        dont_disclose_non_consuming_choices_to_observers: false,
    });
    match first_error(&single_module_dar(m, t)) {
        daml::error::DamlLfConvertError::UnsupportedFeatureUsed(_, feature, _) => {
            assert_eq!(feature, "non-consuming choice disclosure to observers (LF1-only)")
        },
        other => panic!("unexpected {other:?}"),
    }
}

#[test]
fn a_package_without_metadata_is_refused() {
    let mut package = main_package();
    package.metadata = None;
    let dar = DarFile::new(
        DarManifest::new_implied("x".to_owned(), Vec::new()),
        archive("x", MAIN_ID, package),
        Vec::new(),
    );
    assert!(matches!(first_error(&dar), daml::error::DamlLfConvertError::MissingRequiredField));
}

#[test]
fn an_interned_string_out_of_range_is_an_internal_error() {
    let mut t = Tables::default();
    let mut bad = t.record("Bad", Vec::new());
    bad.data_cons = Some(lf2::DataCons::Enum(lf2::EnumConstructors { constructors_interned_str: vec![999] }));
    let m = module(&mut t, &["M"], vec![bad]);
    match first_error(&single_module_dar(m, t)) {
        daml::error::DamlLfConvertError::InternalError(text) => {
            assert_eq!(text, "interned-string index 999 out of range")
        },
        other => panic!("unexpected {other:?}"),
    }
}

#[test]
fn a_choice_with_authorizers_is_refused() {
    let mut t = Tables::default();
    let party = t.builtin(PARTY);
    let owner = t.field("owner", party);
    let rec = t.record("T", vec![owner]);
    let arg_ty = t.con(None, &["M"], "T");
    let ret = t.builtin(0);
    let choice = lf2::TemplateChoice {
        name_interned_str: t.s("C"),
        consuming: true,
        self_binder_interned_str: t.s("self"),
        arg_binder: Some(lf2::VarWithType { var_interned_str: t.s("arg"), ty: Some(arg_ty) }),
        ret_type: Some(ret),
        authorizers: Some(lf2::Unit {}),
    };
    let template = lf2::DefTemplate {
        tycon_interned_dname: t.d(&["T"]),
        param_interned_str: t.s("this"),
        choices: vec![choice],
        implements: Vec::new(),
        key: None,
    };
    let mut m = module(&mut t, &["M"], vec![rec]);
    m.templates = vec![template];
    match first_error(&single_module_dar(m, t)) {
        daml::error::DamlLfConvertError::UnsupportedFeatureUsed(version, feature, line) => {
            assert_eq!(version, "v2.1");
            assert_eq!(feature, "TemplateChoice.authorizers (LF2.dev-only)");
            assert_eq!(line, "2.dev");
        },
        other => panic!("unexpected {other:?}"),
    }
}

#[test]
fn a_cycle_of_interned_types_is_an_internal_error() {
    let mut t = Tables::default();
    let looping = lf2::Type { sum: Some(lf2::TypeSum::InternedType(0)) };
    let field = t.field("x", lf2::Type { sum: Some(lf2::TypeSum::InternedType(0)) });
    let rec = t.record("R", vec![field]);
    let m = module(&mut t, &["M"], vec![rec]);
    let mut package = t.package(vec![m], "Cyclic", "1.0.0");
    package.interned_types = vec![looping];
    let dar = DarFile::new(
        DarManifest::new_implied("c".to_owned(), Vec::new()),
        archive("c", MAIN_ID, package),
        Vec::new(),
    );
    match first_error(&dar) {
        daml::error::DamlLfConvertError::InternalError(text) => assert_eq!(text, "cyclic interned-type reference"),
        other => panic!("unexpected {other:?}"),
    }
}

#[test]
fn references_into_dependencies_carry_their_package_names() -> DamlLfResult<()> {
    let dar = fixture_dar();
    let archive = dar.to_owned_archive()?;
    let mut found = false;
    for name in tycon_names(&archive) {
        if let DamlTyConName::Absolute(abs) = name {
            if abs.data_name() == "Tuple2" {
                assert_eq!(abs.package_id(), PRIM_ID);
                assert_eq!(abs.package_name(), "daml-prim-DA-Types");
                found = true;
            }
            if abs.data_name() == "Color" {
                assert_eq!(abs.package_name(), "TestingTypes");
            }
        }
    }
    assert!(found);
    Ok(())
}

#[test]
fn a_lone_archive_names_only_itself() -> DamlLfResult<()> {
    let dar = fixture_dar();
    let names = dar.main().apply(|package| {
        let mut prim_names = Vec::new();
        let mut stack = vec![package.root_module()];
        while let Some(m) = stack.pop() {
            stack.extend(m.child_modules().iter());
            for data in m.data_types() {
                if let DamlData::Template(t) = data {
                    for f in &t.fields {
                        if let DamlType::TyCon(c) = &f.ty {
                            if let DamlTyConName::Absolute(abs) = &*c.tycon {
                                if abs.package_id() == PRIM_ID {
                                    prim_names.push(abs.package_name().to_owned());
                                }
                            }
                        }
                    }
                }
            }
        }
        prim_names
    })?;
    assert_eq!(names, vec![String::new()]);
    Ok(())
}

#[test]
fn a_dependency_with_the_main_id_takes_its_place() -> DamlLfResult<()> {
    let main = archive("TestingTypes-3.0.0", MAIN_ID, main_package());
    let twin = archive("twin", MAIN_ID, prim_package());
    let dar = DarFile::new(DarManifest::new_implied("m".to_owned(), Vec::new()), main, vec![twin]);
    let archive = dar.to_owned_archive()?;
    assert_eq!(archive.packages().len(), 1);
    assert_eq!(archive.packages()[0].name(), "daml-prim-DA-Types");
    assert_eq!(archive.name(), "TestingTypes-3.0.0");
    Ok(())
}

#[test]
fn validation_names_what_is_missing() -> DamlLfResult<()> {
    let dar = fixture_dar();
    let mut archive = dar.to_owned_archive()?;
    // Drop the module `DA.Types` from the prim package: the reference keeps
    // its package but loses its module.
    let prim = archive.packages.iter_mut().find(|p| p.package_id() == PRIM_ID).expect("prim");
    prim.root_module.child_modules.clear();
    match archive.validate() {
        Err(daml::error::DamlLfConvertError::UnknownModule(m)) => assert_eq!(m, "DA.Types"),
        other => panic!("unexpected {other:?}"),
    }
    let dar = fixture_dar();
    let mut archive = dar.to_owned_archive()?;
    let prim = archive.packages.iter_mut().find(|p| p.package_id() == PRIM_ID).expect("prim");
    prim.root_module.child_modules[0].child_modules[0].data_types.clear();
    match archive.validate() {
        Err(daml::error::DamlLfConvertError::UnknownData(d)) => assert_eq!(d, "Tuple2"),
        other => panic!("unexpected {other:?}"),
    }
    Ok(())
}

#[test]
fn an_interface_view_must_be_a_record() -> DamlLfResult<()> {
    let dar = fixture_dar();
    let mut archive = dar.to_owned_archive()?;
    let main = archive.packages.iter_mut().find(|p| p.package_id() == MAIN_ID).expect("main");
    let asset = &mut main.root_module.child_modules[0].child_modules[1];
    assert_eq!(asset.name, "Asset");
    asset.interfaces[0].view = DamlType::Text;
    match archive.validate() {
        Err(daml::error::DamlLfConvertError::UnexpectedType(expected, found)) => {
            assert_eq!(expected, "Record");
            assert_eq!(found, format!("{:?}", DamlType::Text));
        },
        other => panic!("unexpected {other:?}"),
    }
    Ok(())
}

#[test]
fn a_choice_argument_must_be_a_record() -> DamlLfResult<()> {
    let dar = fixture_dar();
    let mut archive = dar.to_owned_archive()?;
    let main = archive.packages.iter_mut().find(|p| p.package_id() == MAIN_ID).expect("main");
    let asset = &mut main.root_module.child_modules[0].child_modules[1];
    for data in asset.data_types.iter_mut() {
        if let DamlData::Template(t) = data {
            t.choices[0].fields[0].ty = DamlType::Party;
        }
    }
    assert!(matches!(archive.validate(), Err(daml::error::DamlLfConvertError::UnexpectedChoiceData)));
    Ok(())
}

#[test]
fn a_required_wire_value_must_be_there() {
    assert_eq!(Some("x").req().unwrap(), "x");
    assert!(matches!(None::<u8>.req(), Err(daml::error::DamlLfConvertError::MissingRequiredField)));
}

#[test]
fn the_payload_lists_its_modules() {
    let dar = fixture_dar();
    assert_eq!(dar.main().payload().list_modules(), vec!["Fuji.Types".to_owned(), "Fuji.Asset".to_owned()]);
}

#[test]
fn a_field_type_leads_to_its_data() -> DamlLfResult<()> {
    let dar = fixture_dar();
    let archive = dar.to_owned_archive()?;
    let path = vec!["Fuji".to_owned(), "Asset".to_owned()];
    let fields = match archive.data(MAIN_ID, &path, "Asset") {
        Some(DamlData::Template(t)) => t.fields(),
        other => panic!("expected the Asset template, found {other:?}"),
    };
    let color = fields.iter().find(|f| f.name == "color").expect("a color field");
    match &color.ty {
        DamlType::TyCon(tycon) => match archive.data_by_tycon(tycon) {
            Some(DamlData::Enum(e)) => assert_eq!(e.name(), "Color"),
            other => panic!("expected the Color enum, found {other:?}"),
        },
        other => panic!("expected a type constructor, found {other:?}"),
    }
    Ok(())
}

fn asset_template(archive: &mut DamlArchive) -> &mut daml::element::data::DamlTemplate {
    let main = archive.packages.iter_mut().find(|p| p.package_id() == MAIN_ID).expect("main");
    let fuji = main.root_module.child_modules.iter_mut().find(|m| m.name == "Fuji").expect("Fuji");
    let asset = fuji.child_modules.iter_mut().find(|m| m.name == "Asset").expect("Asset");
    asset
        .data_types
        .iter_mut()
        .find_map(|d| match d {
            DamlData::Template(t) => Some(t),
            _ => None,
        })
        .expect("the Asset template")
}

#[test]
fn an_implemented_interface_must_resolve() -> DamlLfResult<()> {
    let dar = fixture_dar();
    let mut archive = dar.to_owned_archive()?;
    assert!(archive.validate().is_ok());
    let template = asset_template(&mut archive);
    template.implements.push(DamlTyConName::Absolute(daml::element::types::DamlAbsoluteTyCon {
        data_name: "Missing".to_owned(),
        package_id: MAIN_ID.to_owned(),
        package_name: "TestingTypes".to_owned(),
        module_segments: vec!["Fuji".to_owned(), "Asset".to_owned()],
    }));
    match archive.validate() {
        Err(daml::error::DamlLfConvertError::UnknownData(d)) => assert_eq!(d, "Missing"),
        other => panic!("unexpected {other:?}"),
    }
    Ok(())
}

#[test]
fn error_messages_name_what_went_wrong() {
    let e = daml::error::DamlLfError::ConvertError(daml::error::DamlLfConvertError::UnknownModule("DA.Types".to_owned()));
    assert_eq!(e.to_string(), "conversion error: unknown module DA.Types");
    let t = daml::error::DamlLfConvertError::UnexpectedType("Record".to_owned(), DamlType::Party.to_text());
    assert_eq!(t.to_string(), "expected type Record but found Party");
}

#[test]
fn a_value_definition_is_found_by_package_module_and_name() -> DamlLfResult<()> {
    let archive = dar_with_stdlib(stdlib_package_with_value()).to_owned_archive()?;
    let path = vec!["DA".to_owned(), "Internal".to_owned(), "Template".to_owned()];
    let value = archive.value(STDLIB_ID, &path, "unit").expect("the value");
    assert_eq!(value.name(), "unit");
    assert!(matches!(value.ty(), DamlType::Unit));
    assert!(matches!(value.expr(), DamlExpr::PrimCon(DamlPrimCon::Unit)));
    assert!(archive.value(STDLIB_ID, &path, "missing").is_none());
    assert!(archive.value(MAIN_ID, &path, "unit").is_none());
    let name = DamlValueName {
        name: "unit".to_owned(),
        package_id: STDLIB_ID.to_owned(),
        package_name: "daml-stdlib-DA-Internal-Template".to_owned(),
        module_segments: path.clone(),
    };
    assert_eq!(archive.value_by_name(&name).map(|v| v.name()), Some("unit"));
    let elsewhere = DamlValueName { module_segments: vec!["DA".to_owned()], ..name };
    assert!(archive.value_by_name(&elsewhere).is_none());
    Ok(())
}

#[test]
fn every_listed_module_is_contained_and_no_other() {
    let dar = fixture_dar();
    let payload = dar.main().payload();
    for name in payload.list_modules() {
        assert!(payload.contains_module(&name));
    }
    assert!(!payload.contains_module("Fuji"));
    assert!(!payload.list_modules().contains(&"Fuji".to_owned()));
}

#[test]
fn a_payload_applies_as_an_unnamed_archive_would() -> DamlLfResult<()> {
    let mut dar = fixture_dar();
    let payload = dar.dependencies.swap_remove(0).payload;
    let mut copy = fixture_dar();
    let wrapped =
        DamlLfArchive::new("unnamed".to_owned(), copy.dependencies.swap_remove(0).payload, DamlLfHashFunction::Sha256, String::new());
    let via_archive = wrapped.apply(|package| (package.name().to_owned(), package.package_id().to_owned()))?;
    let via_payload = payload.apply(|package| (package.name().to_owned(), package.package_id().to_owned()))?;
    assert_eq!(via_archive, via_payload);
    assert_eq!(via_payload.1, "");
    Ok(())
}

#[test]
fn a_kind_reference_converts_as_the_kind_it_points_at() {
    let star = lf2::Kind { sum: Some(lf2::KindSum::Star(lf2::Unit {})) };
    let arrow = lf2::Kind {
        sum: Some(lf2::KindSum::Arrow(Box::new(lf2::KindArrow {
            params: vec![lf2::Kind { sum: Some(lf2::KindSum::InternedKind(0)) }],
            result: Some(Box::new(lf2::Kind { sum: Some(lf2::KindSum::Star(lf2::Unit {})) })),
        }))),
    };
    let table = vec![star, arrow];
    let reference = lf2::Kind { sum: Some(lf2::KindSum::InternedKind(1)) };
    let direct = convert_kind(&table[1], &table).expect("the kind");
    let referenced = convert_kind(&reference, &table).expect("the referenced kind");
    assert_eq!(format!("{direct:?}"), format!("{referenced:?}"));
    assert!(matches!(referenced, DamlKind::Arrow(_)));
    let outside = lf2::Kind { sum: Some(lf2::KindSum::InternedKind(2)) };
    assert!(matches!(convert_kind(&outside, &table), Err(daml::error::DamlLfConvertError::MissingRequiredField)));
}
