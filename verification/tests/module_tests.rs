use daml::element::data::{DamlData, DamlEnum, DamlFeatureFlags, DamlRecord};
use daml::element::module::{DamlModule, PlaceAction};

fn names(parts: &[&str]) -> Vec<String> {
    parts.iter().map(|p| p.to_string()).collect()
}

fn record(name: &str, fields: usize) -> DamlData {
    DamlData::Record(DamlRecord {
        name: name.to_owned(),
        package_id: "pkg".to_owned(),
        module_segments: names(&["A"]),
        fields: (0..fields)
            .map(|i| daml::element::types::DamlField { name: format!("f{i}"), ty: daml::element::types::DamlType::Int64 })
            .collect(),
        type_params: Vec::new(),
        serializable: true,
    })
}

fn enumeration(name: &str) -> DamlData {
    DamlData::Enum(DamlEnum {
        name: name.to_owned(),
        package_id: "pkg".to_owned(),
        module_segments: names(&["A"]),
        constructors: names(&["X", "Y"]),
        type_params: Vec::new(),
        serializable: true,
    })
}

fn flags() -> DamlFeatureFlags {
    DamlFeatureFlags {
        forbid_party_literals: true,
        dont_divulge_contract_ids_in_create_arguments: true,
        dont_disclose_non_consuming_choices_to_observers: true,
    }
}

#[test]
fn data_placed_at_a_path_is_found_there() {
    let mut root = DamlModule::new_root();
    let path = names(&["Fuji", "Types"]);
    root.place(&path, 0, PlaceAction::InsertData(record("Painted", 1)));
    let module = root.child_module_path(&path).expect("the module");
    assert_eq!(module.path(), &path);
    assert_eq!(module.data_type("Painted").expect("the record").name(), "Painted");
    assert!(module.data_type("Other").is_none());
    assert!(root.child_module_path(&names(&["Fuji"])).is_some());
    assert!(root.child_module_path(&names(&["Fuji", "Asset"])).is_none());
}

#[test]
fn inserting_a_name_again_replaces_it() {
    let mut root = DamlModule::new_root();
    root.insert_data_type(record("R", 1));
    root.insert_data_type(enumeration("E"));
    root.insert_data_type(record("R", 3));
    assert_eq!(root.data_types().len(), 2);
    match root.data_type("R") {
        Some(DamlData::Record(r)) => assert_eq!(r.fields().len(), 3),
        other => panic!("expected the second record, found {other:?}"),
    }
    assert_eq!(root.data_types()[0].name(), "R");
    assert!(matches!(root.data_type("E"), Some(DamlData::Enum(_))));
}

#[test]
fn a_merged_module_takes_its_path_and_flags_and_keeps_children() {
    let mut root = DamlModule::new_root();
    let inner = names(&["A", "B"]);
    root.place(&inner, 0, PlaceAction::InsertData(record("Inner", 0)));
    let leaf = DamlModule::new_leaf(names(&["A"]), flags(), Vec::new(), vec![record("Top", 2)], Vec::new(), Vec::new(), Vec::new());
    root.place(&names(&["A"]), 0, PlaceAction::Merge(leaf));
    let a = root.child_module_path(&names(&["A"])).expect("A");
    assert_eq!(a.flags(), flags());
    assert_eq!(a.path(), &names(&["A"]));
    assert!(a.data_type("Top").is_some());
    assert_eq!(a.child_modules().len(), 1);
    assert!(root.child_module_path(&inner).expect("A.B").data_type("Inner").is_some());
}

#[test]
fn a_new_root_is_empty() {
    let root = DamlModule::new_root();
    assert!(root.path().is_empty());
    assert!(root.child_modules().is_empty());
    assert!(root.data_types().is_empty());
    assert!(root.interfaces().is_empty());
    assert!(root.exceptions().is_empty());
    assert!(root.synonyms().is_empty());
    assert!(root.child_module_path(&Vec::new()).is_some());
}
