use daml::archive::{DamlLfArchive, DamlLfHashFunction, DarEncryptionType, DarManifestFormat, DarManifestVersion};
use daml::lf2;
use daml::package::{collect_referenced_package_ids, ArchiveAutoNamingStyle, DamlError, DamlPackages, LedgerPackage};
use daml::payload::{DamlLfArchivePayload, DamlLfPackage};
use daml::version::LanguageVersion;

fn payload(module: &str) -> DamlLfArchivePayload {
    let segments: Vec<String> = module.split('.').map(|s| s.to_owned()).collect();
    let package = lf2::Package {
        modules: vec![lf2::Module {
            name_interned_dname: 0,
            flags: None,
            synonyms: Vec::new(),
            data_types: Vec::new(),
            templates: Vec::new(),
            exceptions: Vec::new(),
            interfaces: Vec::new(),
            values: Vec::new(),
        }],
        interned_dotted_names: vec![lf2::InternedDottedName { segments_interned_str: (0..segments.len() as i32).collect() }],
        interned_strings: segments,
        metadata: None,
        interned_types: Vec::new(),
        interned_kinds: Vec::new(),
            interned_exprs: Vec::new(),
    };
    DamlLfArchivePayload::new(LanguageVersion::V2_1(), DamlLfPackage::V2(package))
}

fn packages() -> DamlPackages {
    DamlPackages::new(vec![
        LedgerPackage { hash: "aaa".to_owned(), payload: payload("Main.Mod") },
        LedgerPackage { hash: "bbb".to_owned(), payload: payload("Dep.One") },
        LedgerPackage { hash: "ccc".to_owned(), payload: payload("Dep.Two") },
    ])
}

fn other_text(error: DamlError) -> String {
    match error {
        DamlError::Other(text) => text,
    }
}

#[test]
fn the_main_id_defaults_to_the_first_package() {
    assert_eq!(packages().resolve_main_id(None).unwrap(), "aaa");
    assert_eq!(packages().resolve_main_id(Some("ccc")).unwrap(), "ccc");
    assert_eq!(
        other_text(packages().resolve_main_id(Some("zzz")).unwrap_err()),
        "main package zzz not present in package set"
    );
    assert_eq!(
        other_text(DamlPackages::new(Vec::new()).resolve_main_id(None).unwrap_err()),
        "expected at least one package"
    );
}

#[test]
fn a_module_is_found_in_its_package() {
    assert_eq!(packages().find_module("Dep.Two").unwrap(), "ccc");
    assert_eq!(packages().find_module("Main.Mod").unwrap(), "aaa");
    assert_eq!(other_text(packages().find_module("Nope").unwrap_err()), "package could not be found");
}

#[test]
fn payloads_keep_their_ids_in_order() {
    let payloads = packages().into_payloads().unwrap();
    let ids: Vec<&str> = payloads.iter().map(|(id, _)| id.as_str()).collect();
    assert_eq!(ids, vec!["aaa", "bbb", "ccc"]);
    assert!(payloads[1].1.contains_module("Dep.One"));
}

#[test]
fn archives_are_named_by_the_style() {
    let hashed = packages().into_archives(ArchiveAutoNamingStyle::Hash).unwrap();
    assert_eq!(hashed.iter().map(|a| a.name.as_str()).collect::<Vec<_>>(), vec!["aaa", "bbb", "ccc"]);
    assert!(hashed.iter().all(|a| a.hash_function == DamlLfHashFunction::Sha256));
    let empty = packages().into_archives(ArchiveAutoNamingStyle::Empty).unwrap();
    assert!(empty.iter().all(|a| a.name.is_empty()));
    let bytes = vec![[0u8; 16], [0xffu8; 16], [0x11u8; 16]];
    let random = packages().into_archives(ArchiveAutoNamingStyle::Uuid(bytes)).unwrap();
    assert!(random.iter().all(|a| a.name.len() == 36));
    assert_eq!(random[0].name, "00000000-0000-4000-8000-000000000000");
    assert_eq!(random[1].name, "ffffffff-ffff-4fff-bfff-ffffffffffff");
    assert_ne!(random[0].name, random[1].name);
    assert_eq!(random[2].hash, "ccc");
}

fn named_archives() -> Vec<DamlLfArchive> {
    ["aaa", "bbb", "ccc", "ddd"]
        .iter()
        .map(|h| DamlLfArchive::new(format!("n-{h}"), payload("M"), DamlLfHashFunction::Sha256, h.to_string()))
        .collect()
}

#[test]
fn the_main_archive_leaves_its_place_to_the_last() {
    let dar = DamlPackages::archives_to_dar(named_archives(), "bbb").unwrap();
    assert_eq!(dar.main().hash, "bbb");
    let deps: Vec<&str> = dar.dependencies().iter().map(|a| a.hash.as_str()).collect();
    assert_eq!(deps, vec!["aaa", "ddd", "ccc"]);
    assert_eq!(dar.manifest().dalf_main(), "n-bbb");
    assert_eq!(dar.manifest().dalf_dependencies(), &vec!["n-aaa".to_owned(), "n-ddd".to_owned(), "n-ccc".to_owned()]);
    assert_eq!(dar.manifest().created_by(), "implied");
    assert_eq!(dar.manifest().version(), DarManifestVersion::Unknown);
    assert_eq!(dar.manifest().format(), DarManifestFormat::DamlLf);
    assert_eq!(dar.manifest().encryption(), DarEncryptionType::NotEncrypted);
}

#[test]
fn a_dar_needs_its_main_archive() {
    assert_eq!(
        other_text(DamlPackages::archives_to_dar(named_archives(), "zzz").unwrap_err()),
        "main package zzz not present in archive set"
    );
    assert_eq!(
        other_text(DamlPackages::archives_to_dar(Vec::new(), "aaa").unwrap_err()),
        "expected at least one archive"
    );
}

/// A package with one module `M` holding a record `R` whose fields refer to
/// the record `R` of module `M` in each of `refs`; the package's own id
/// among them is written as an imported one.
fn referring_payload(name: &str, refs: &[&str]) -> DamlLfArchivePayload {
    let mut strings: Vec<String> = vec!["M".to_owned(), "R".to_owned(), name.to_owned(), "1.0.0".to_owned()];
    let mut fields = Vec::new();
    for (i, id) in refs.iter().enumerate() {
        strings.push(id.to_string());
        let id_index = (strings.len() - 1) as i32;
        strings.push(format!("f{i}"));
        let field_index = (strings.len() - 1) as i32;
        let ty = lf2::Type {
            sum: Some(lf2::TypeSum::Con(lf2::TypeCon {
                tycon: Some(lf2::TypeConId {
                    module: Some(lf2::ModuleId {
                        package_id: Some(lf2::SelfOrImportedPackageId {
                            sum: Some(lf2::PackageRef::ImportedPackageIdInternedStr(id_index)),
                        }),
                        module_name_interned_dname: 0,
                    }),
                    name_interned_dname: 1,
                }),
                args: Vec::new(),
            })),
        };
        fields.push(lf2::FieldWithType { field_interned_str: field_index, ty: Some(ty) });
    }
    let record = lf2::DefDataType {
        name_interned_dname: 1,
        params: Vec::new(),
        serializable: true,
        data_cons: Some(lf2::DataCons::Record(lf2::Fields { fields })),
    };
    let package = lf2::Package {
        modules: vec![lf2::Module {
            name_interned_dname: 0,
            flags: Some(lf2::FeatureFlags {
                forbid_party_literals: true,
                dont_divulge_contract_ids_in_create_arguments: true,
                dont_disclose_non_consuming_choices_to_observers: true,
            }),
            synonyms: Vec::new(),
            data_types: vec![record],
            templates: Vec::new(),
            exceptions: Vec::new(),
            interfaces: Vec::new(),
            values: Vec::new(),
        }],
        interned_dotted_names: vec![
            lf2::InternedDottedName { segments_interned_str: vec![0] },
            lf2::InternedDottedName { segments_interned_str: vec![1] },
        ],
        interned_strings: strings,
        metadata: Some(lf2::PackageMetadata { name_interned_str: 2, version_interned_str: 3 }),
        interned_types: Vec::new(),
        interned_kinds: Vec::new(),
            interned_exprs: Vec::new(),
    };
    DamlLfArchivePayload::new(LanguageVersion::V2_1(), DamlLfPackage::V2(package))
}

/// `aaa` refers to `bbb` and itself, `bbb` to `ccc` and `zzz` (which no
/// package has), `ccc` back to `aaa`; `ddd` refers to `aaa` but nothing
/// refers to it.
fn linked_packages() -> DamlPackages {
    DamlPackages::new(vec![
        LedgerPackage { hash: "aaa".to_owned(), payload: referring_payload("A", &["bbb", "aaa"]) },
        LedgerPackage { hash: "bbb".to_owned(), payload: referring_payload("B", &["ccc", "zzz"]) },
        LedgerPackage { hash: "ccc".to_owned(), payload: referring_payload("C", &["aaa"]) },
        LedgerPackage { hash: "ddd".to_owned(), payload: referring_payload("D", &["aaa"]) },
    ])
}

fn id_set(ids: &[String]) -> std::collections::HashSet<String> {
    ids.iter().cloned().collect()
}

fn expected_set(ids: &[&str]) -> std::collections::HashSet<String> {
    ids.iter().map(|s| s.to_string()).collect()
}

#[test]
fn a_package_refers_to_the_others_but_not_itself() {
    let archives = linked_packages().into_archives(ArchiveAutoNamingStyle::Hash).unwrap();
    let a = collect_referenced_package_ids(&archives[0]).unwrap();
    assert_eq!(id_set(&a), expected_set(&["bbb"]));
    let b = collect_referenced_package_ids(&archives[1]).unwrap();
    assert_eq!(id_set(&b), expected_set(&["ccc", "zzz"]));
}

#[test]
fn the_search_reaches_what_the_references_lead_to() {
    let archives = linked_packages().into_archives(ArchiveAutoNamingStyle::Hash).unwrap();
    let reached = DamlPackages::reachable_from("aaa", &archives).unwrap();
    assert_eq!(reached[0], "aaa");
    assert_eq!(reached.len(), 4);
    assert_eq!(id_set(&reached), expected_set(&["aaa", "bbb", "ccc", "zzz"]));
    let from_d = DamlPackages::reachable_from("ddd", &archives).unwrap();
    assert_eq!(id_set(&from_d), expected_set(&["aaa", "bbb", "ccc", "ddd", "zzz"]));
    let unknown = DamlPackages::reachable_from("zzz", &archives).unwrap();
    assert_eq!(unknown, vec!["zzz".to_owned()]);
}

#[test]
fn a_package_that_does_not_convert_fails_the_search() {
    let mut archives = linked_packages().into_archives(ArchiveAutoNamingStyle::Hash).unwrap();
    archives.push(DamlLfArchive::new("z".to_owned(), payload("Z"), DamlLfHashFunction::Sha256, "zzz".to_owned()));
    assert!(DamlPackages::reachable_from("aaa", &archives).is_err());
    assert!(DamlPackages::reachable_from("ddd", &archives).is_err());
    assert!(DamlPackages::reachable_from("ccc", &archives).is_err());
}

#[test]
fn a_filtered_dar_keeps_only_what_the_main_package_reaches() {
    let dar = linked_packages().into_dar(Some("aaa"), true, ArchiveAutoNamingStyle::Hash).unwrap();
    assert_eq!(dar.main().hash, "aaa");
    let deps: Vec<&str> = dar.dependencies().iter().map(|a| a.hash.as_str()).collect();
    assert_eq!(deps, vec!["ccc", "bbb"]);
    assert_eq!(dar.manifest().dalf_main(), "aaa");
    assert_eq!(dar.manifest().dalf_dependencies(), &vec!["ccc".to_owned(), "bbb".to_owned()]);
    let from_c = linked_packages().into_dar(Some("ccc"), true, ArchiveAutoNamingStyle::Empty).unwrap();
    assert_eq!(from_c.main().hash, "ccc");
    let deps: Vec<&str> = from_c.dependencies().iter().map(|a| a.hash.as_str()).collect();
    assert_eq!(deps, vec!["aaa", "bbb"]);
    assert_eq!(from_c.manifest().dalf_main(), "");
}

#[test]
fn an_unfiltered_dar_keeps_every_package() {
    let dar = linked_packages().into_dar(None, false, ArchiveAutoNamingStyle::Hash).unwrap();
    assert_eq!(dar.main().hash, "aaa");
    let deps: Vec<&str> = dar.dependencies().iter().map(|a| a.hash.as_str()).collect();
    assert_eq!(deps, vec!["ddd", "bbb", "ccc"]);
}

#[test]
fn a_dar_needs_its_main_package() {
    assert_eq!(
        other_text(linked_packages().into_dar(Some("zzz"), true, ArchiveAutoNamingStyle::Hash).unwrap_err()),
        "main package zzz not present in package set"
    );
    assert_eq!(
        other_text(DamlPackages::new(Vec::new()).into_dar(None, false, ArchiveAutoNamingStyle::Hash).unwrap_err()),
        "expected at least one package"
    );
}
