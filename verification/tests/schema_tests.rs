use daml::emit::schema::{
    Choice, Ctor, DataBody, DataType, Field, FieldType, Interface, Module, Package, ResultType, Template, TemplateKey,
    TypeRef,
};
use daml::error::DamlLfError;

fn iou() -> Package {
    Package {
        name: "RoadrunnerExample".to_owned(),
        version: "1.0.0".to_owned(),
        modules: vec![Module {
            data_types: Vec::new(),
            interfaces: Vec::new(),
            name: "Example.Iou".to_owned(),
            templates: vec![Template {
                key: None,
                name: "Iou".to_owned(),
                fields: vec![
                    Field::new("issuer", FieldType::Party),
                    Field::new("owner", FieldType::Party),
                    Field::new("amount", FieldType::Int64),
                ],
                signatories: vec!["issuer".to_owned()],
                observers: vec!["owner".to_owned()],
                choices: vec![Choice {
                    name: "Transfer".to_owned(),
                    consuming: true,
                    controllers: vec!["owner".to_owned()],
                    arguments: vec![Field::new("newOwner", FieldType::Party)],
                    result: ResultType::Unit,
                }],
            }],
        }],
    }
}

fn build_error_text(result: Result<(), DamlLfError>) -> String {
    match result {
        Err(DamlLfError::PackageBuildError(text)) => text,
        other => panic!("expected a package build error, found {other:?}"),
    }
}

fn type_ref(module: &str, name: &str) -> TypeRef {
    TypeRef { module: module.to_owned(), name: name.to_owned() }
}

#[test]
fn a_contract_must_be_disclosed_to_a_party() {
    let mut wrong = iou();
    wrong.modules[0].templates[0].signatories = vec!["amount".to_owned()];
    let error = build_error_text(wrong.validate());
    assert!(error.contains("does not hold a party"));

    let mut missing = iou();
    missing.modules[0].templates[0].observers = vec!["nobody".to_owned()];
    let error = build_error_text(missing.validate());
    assert!(error.contains("has no field nobody"));
}

#[test]
fn a_consistent_package_validates() {
    assert!(iou().validate().is_ok());
    assert!(iou().check_named_types_exist().is_ok());
}

#[test]
fn party_errors_name_the_template_and_field() {
    let mut wrong = iou();
    wrong.modules[0].templates[0].signatories = vec!["amount".to_owned()];
    assert_eq!(build_error_text(wrong.validate()), "template Iou: field amount does not hold a party");

    let mut missing = iou();
    missing.modules[0].templates[0].choices[0].controllers = vec!["nobody".to_owned()];
    assert_eq!(build_error_text(missing.validate()), "template Iou has no field nobody");
}

#[test]
fn signatories_are_checked_before_observers() {
    let mut both = iou();
    both.modules[0].templates[0].signatories = vec!["ghost".to_owned()];
    both.modules[0].templates[0].observers = vec!["amount".to_owned()];
    assert_eq!(build_error_text(both.validate()), "template Iou has no field ghost");
}

#[test]
fn a_number_wider_than_the_widest_scale_is_refused() {
    let mut wide = iou();
    wide.modules[0].templates[0].fields.push(Field::new("price", FieldType::Numeric(38)));
    assert_eq!(build_error_text(wide.validate()), "a number is held at scale 38, and 37 is the widest");

    let mut widest = iou();
    widest.modules[0].templates[0].fields.push(Field::new("price", FieldType::Numeric(37)));
    assert!(widest.validate().is_ok());
}

#[test]
fn a_named_type_must_be_defined() {
    let mut undefined = iou();
    undefined.modules[0].templates[0]
        .fields
        .push(Field::new("tag", FieldType::List(Box::new(FieldType::Data(type_ref("Example.Iou", "Tag"))))));
    assert_eq!(build_error_text(undefined.validate()), "no type Example.Iou:Tag in this package");

    let mut defined = undefined;
    defined.modules[0].data_types.push(DataType { name: "Tag".to_owned(), body: DataBody::Enum(vec!["A".to_owned()]) });
    assert!(defined.validate().is_ok());
}

#[test]
fn contract_ids_may_name_templates_and_interfaces() {
    let mut p = iou();
    p.modules[0].interfaces.push(Interface { name: "Holding".to_owned(), view: FieldType::Unit });
    p.modules[0].templates[0].fields.push(Field::new("self_ref", FieldType::ContractId(type_ref("Example.Iou", "Iou"))));
    p.modules[0].templates[0]
        .fields
        .push(Field::new("held", FieldType::InterfaceContractId(type_ref("Example.Iou", "Holding"))));
    assert!(p.validate().is_ok());
    p.modules[0].templates[0]
        .fields
        .push(Field::new("other", FieldType::ContractId(type_ref("Other.Module", "Iou"))));
    assert_eq!(build_error_text(p.validate()), "no type Other.Module:Iou in this package");
}

#[test]
fn gen_map_checks_its_key_before_its_value() {
    let mut p = iou();
    p.modules[0].templates[0].fields.push(Field::new(
        "map",
        FieldType::GenMap(Box::new(FieldType::Numeric(40)), Box::new(FieldType::Data(type_ref("M", "X")))),
    ));
    assert_eq!(build_error_text(p.validate()), "a number is held at scale 40, and 37 is the widest");
}

#[test]
fn variant_payloads_and_choice_results_are_checked() {
    let mut p = iou();
    p.modules[0].data_types.push(DataType {
        name: "Shape".to_owned(),
        body: DataBody::Variant(vec![Ctor { name: "Circle".to_owned(), payload: FieldType::Data(type_ref("G", "Circle")) }]),
    });
    assert_eq!(build_error_text(p.validate()), "no type G:Circle in this package");

    let mut q = iou();
    q.modules[0].templates[0].choices[0].result = FieldType::Optional(Box::new(FieldType::Data(type_ref("R", "Out"))));
    assert_eq!(build_error_text(q.validate()), "no type R:Out in this package");
}

#[test]
fn keys_and_views_are_checked_for_names() {
    let mut p = iou();
    p.modules[0].templates[0].key = Some(TemplateKey { key_type: FieldType::Data(type_ref("K", "Key")) });
    assert!(p.validate().unwrap_err().to_string().contains("no type K:Key in this package"));
    let mut q = iou();
    q.modules[0].interfaces.push(Interface { name: "View".to_owned(), view: FieldType::Data(type_ref("V", "W")) });
    assert!(q.validate().unwrap_err().to_string().contains("no type V:W in this package"));
}

fn undefined() -> FieldType {
    FieldType::Data(TypeRef { module: "M".to_owned(), name: "X".to_owned() })
}

#[test]
fn a_key_or_view_naming_an_undefined_type_is_refused() {
    let keyed = Package {
        name: "p".to_owned(),
        version: "1".to_owned(),
        modules: vec![Module {
            name: "M".to_owned(),
            data_types: Vec::new(),
            interfaces: Vec::new(),
            templates: vec![Template {
                name: "T".to_owned(),
                fields: Vec::new(),
                signatories: Vec::new(),
                observers: Vec::new(),
                choices: Vec::new(),
                key: Some(TemplateKey { key_type: undefined() }),
            }],
        }],
    };
    let e = keyed.check_named_types_exist().unwrap_err();
    assert!(e.to_string().contains("no type M:X in this package"));
    let viewed = Package {
        name: "p".to_owned(),
        version: "1".to_owned(),
        modules: vec![Module {
            name: "M".to_owned(),
            data_types: Vec::new(),
            interfaces: vec![Interface { name: "I".to_owned(), view: undefined() }],
            templates: Vec::new(),
        }],
    };
    let e = viewed.validate().unwrap_err();
    assert!(e.to_string().contains("no type M:X in this package"));
}
