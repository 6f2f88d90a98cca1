use daml::archive::{DamlLfArchive, DamlLfHashFunction};
use daml::convert::expr_payload::{
    convert_builtin_con, convert_builtin_function, convert_def_value, convert_expr, convert_update,
};
use daml::convert::exception_payload::convert_exception;
use daml::convert::package_payload::DamlPackagePayload;
use daml::element::expr::{DamlBuiltinFunction, DamlExpr, DamlPrimCon, DamlPrimLit, DamlUpdate};
use daml::element::types::DamlType;
use daml::error::DamlLfConvertError;
use daml::lf2;
use daml::payload::{DamlLfArchivePayload, DamlLfPackage};
use daml::version::LanguageVersion;

const PACKAGE_ID: &str = "3c1d0e2a9b7d4c3e8a6f0b1d2c3e4f5a6b7c8d9e0f1a2b3c4d5e6f7a8b9c0d1e";

/// Interned strings: 0 "x", 1 "main", 2 "demo", 3 "1.0.0", 4 "Demo".
fn package_with(interned_exprs: Vec<lf2::Expr>) -> lf2::Package {
    lf2::Package {
        modules: Vec::new(),
        interned_strings: vec!["x".into(), "main".into(), "demo".into(), "1.0.0".into(), "Demo".into()],
        interned_dotted_names: vec![
            lf2::InternedDottedName { segments_interned_str: vec![1] },
            lf2::InternedDottedName { segments_interned_str: vec![4] },
        ],
        metadata: Some(lf2::PackageMetadata { name_interned_str: 2, version_interned_str: 3 }),
        interned_types: Vec::new(),
        interned_kinds: Vec::new(),
        interned_exprs,
    }
}

fn dalf_with(interned_exprs: Vec<lf2::Expr>) -> DamlLfArchive {
    DamlLfArchive::new(
        "demo".to_owned(),
        DamlLfArchivePayload::new(LanguageVersion::V2_1(), DamlLfPackage::V2(package_with(interned_exprs))),
        DamlLfHashFunction::Sha256,
        PACKAGE_ID.to_owned(),
    )
}

fn expr(sum: lf2::ExprSum) -> lf2::Expr {
    lf2::Expr { sum: Some(sum) }
}

fn unit_type() -> lf2::Type {
    lf2::Type { sum: Some(lf2::TypeSum::Builtin(lf2::TypeBuiltin { builtin: 0, args: Vec::new() })) }
}

#[test]
fn builtin_function_codes_follow_the_wire_table() {
    assert!(matches!(convert_builtin_function(0), Ok(DamlBuiltinFunction::Trace)));
    assert!(matches!(convert_builtin_function(1), Ok(DamlBuiltinFunction::Error)));
    assert!(matches!(convert_builtin_function(36), Ok(DamlBuiltinFunction::TextPointsToCode)));
    assert!(matches!(convert_builtin_function(77), Ok(DamlBuiltinFunction::TypeRepTyconName)));
}

#[test]
fn an_unknown_builtin_function_code_is_refused() {
    assert!(matches!(convert_builtin_function(78), Err(DamlLfConvertError::UnknownBuiltinFunction(78))));
    assert!(matches!(convert_builtin_function(-1), Err(DamlLfConvertError::UnknownBuiltinFunction(-1))));
}

#[test]
fn builtin_constructor_codes() {
    assert!(matches!(convert_builtin_con(0), Ok(DamlPrimCon::Unit)));
    assert!(matches!(convert_builtin_con(1), Ok(DamlPrimCon::False)));
    assert!(matches!(convert_builtin_con(2), Ok(DamlPrimCon::True)));
    assert!(matches!(convert_builtin_con(3), Err(DamlLfConvertError::UnknownPrimCon(3))));
}

#[test]
fn a_variable_resolves_its_interned_name() {
    let dalf = dalf_with(Vec::new());
    let package = DamlPackagePayload::try_from(&dalf).expect("a package");
    let converted = convert_expr(&expr(lf2::ExprSum::VarInternedStr(0)), &package).expect("a variable");
    assert!(matches!(converted, DamlExpr::Var(ref name) if name == "x"));
    assert!(matches!(
        convert_expr(&expr(lf2::ExprSum::VarInternedStr(9)), &package),
        Err(DamlLfConvertError::InternalError(_))
    ));
}

#[test]
fn an_expression_without_a_body_is_refused() {
    let dalf = dalf_with(Vec::new());
    let package = DamlPackagePayload::try_from(&dalf).expect("a package");
    assert!(matches!(
        convert_expr(&lf2::Expr { sum: None }, &package),
        Err(DamlLfConvertError::MissingRequiredField)
    ));
}

#[test]
fn an_application_converts_its_function_and_arguments_in_order() {
    let dalf = dalf_with(Vec::new());
    let package = DamlPackagePayload::try_from(&dalf).expect("a package");
    let app = expr(lf2::ExprSum::App {
        fun: Some(Box::new(expr(lf2::ExprSum::Builtin(0)))),
        args: vec![
            expr(lf2::ExprSum::BuiltinLit(lf2::BuiltinLit { sum: Some(lf2::BuiltinLitSum::Int64(3)) })),
            expr(lf2::ExprSum::BuiltinLit(lf2::BuiltinLit { sum: Some(lf2::BuiltinLitSum::TextInternedStr(1)) })),
        ],
    });
    match convert_expr(&app, &package).expect("an application") {
        DamlExpr::App { fun, args } => {
            assert!(matches!(*fun, DamlExpr::Builtin(DamlBuiltinFunction::Trace)));
            assert_eq!(args.len(), 2);
            assert!(matches!(args[0], DamlExpr::PrimLit(DamlPrimLit::Int64(3))));
            assert!(matches!(args[1], DamlExpr::PrimLit(DamlPrimLit::Text(ref t)) if t == "main"));
        },
        other => panic!("unexpected expression {other:?}"),
    }
}

#[test]
fn an_application_fails_on_its_first_bad_argument() {
    let dalf = dalf_with(Vec::new());
    let package = DamlPackagePayload::try_from(&dalf).expect("a package");
    let app = expr(lf2::ExprSum::App {
        fun: Some(Box::new(expr(lf2::ExprSum::Builtin(0)))),
        args: vec![expr(lf2::ExprSum::Builtin(500)), lf2::Expr { sum: None }],
    });
    assert!(matches!(convert_expr(&app, &package), Err(DamlLfConvertError::UnknownBuiltinFunction(500))));
}

#[test]
fn an_interned_expression_reference_is_refused() {
    let dalf = dalf_with(vec![expr(lf2::ExprSum::Builtin(1)), expr(lf2::ExprSum::InternedExpr(0))]);
    let package = DamlPackagePayload::try_from(&dalf).expect("a package");
    assert_eq!(package.interned_exprs_raw().len(), 2);
    for idx in [0, 1, 5, -2] {
        match convert_expr(&expr(lf2::ExprSum::InternedExpr(idx)), &package) {
            Err(DamlLfConvertError::InternalError(text)) => assert_eq!(text, "interned-expr references are not supported"),
            other => panic!("unexpected result {other:?}"),
        }
    }
}

#[test]
fn an_update_is_converted_with_its_parts() {
    let dalf = dalf_with(Vec::new());
    let package = DamlPackagePayload::try_from(&dalf).expect("a package");
    let get_time = lf2::Update { sum: Some(lf2::UpdateSum::GetTime(lf2::Unit {})) };
    assert!(matches!(convert_update(&get_time, &package), Ok(DamlUpdate::GetTime)));
    let pure = lf2::Update {
        sum: Some(lf2::UpdateSum::Pure { ty: Some(unit_type()), expr: Some(Box::new(expr(lf2::ExprSum::BuiltinCon(0)))) }),
    };
    match convert_update(&pure, &package).expect("a pure update") {
        DamlUpdate::Pure { ty, expr } => {
            assert!(matches!(ty, DamlType::Unit));
            assert!(matches!(*expr, DamlExpr::PrimCon(DamlPrimCon::Unit)));
        },
        other => panic!("unexpected update {other:?}"),
    }
    let missing = lf2::Update { sum: Some(lf2::UpdateSum::Pure { ty: Some(unit_type()), expr: None }) };
    assert!(matches!(convert_update(&missing, &package), Err(DamlLfConvertError::MissingRequiredField)));
}

#[test]
fn a_value_definition_keeps_its_name_type_and_body() {
    let dalf = dalf_with(Vec::new());
    let package = DamlPackagePayload::try_from(&dalf).expect("a package");
    let def = lf2::DefValue {
        name_with_type: Some(lf2::ValueNameWithType { name_interned_dname: 0, ty: Some(unit_type()) }),
        expr: Some(Box::new(expr(lf2::ExprSum::BuiltinCon(0)))),
    };
    let value = convert_def_value(&def, &package).expect("a value");
    assert_eq!(value.name(), "main");
    assert!(matches!(value.ty(), DamlType::Unit));
    assert!(matches!(value.expr(), DamlExpr::PrimCon(DamlPrimCon::Unit)));
    let unnamed = lf2::DefValue { name_with_type: None, expr: Some(Box::new(expr(lf2::ExprSum::BuiltinCon(0)))) };
    assert!(matches!(convert_def_value(&unnamed, &package), Err(DamlLfConvertError::MissingRequiredField)));
}

#[test]
fn an_exception_carries_its_message_expression() {
    let dalf = dalf_with(Vec::new());
    let package = DamlPackagePayload::try_from(&dalf).expect("a package");
    let text = lf2::BuiltinLit { sum: Some(lf2::BuiltinLitSum::TextInternedStr(1)) };
    let def = lf2::DefException { name_interned_dname: 0, message: Some(Box::new(expr(lf2::ExprSum::BuiltinLit(text)))) };
    let module = vec!["Demo".to_owned()];
    let exception = convert_exception(&def, &package, &module).expect("an exception");
    assert_eq!(exception.name(), "main");
    assert!(matches!(exception.message(), DamlExpr::PrimLit(DamlPrimLit::Text(t)) if t == "main"));
    let silent = lf2::DefException { name_interned_dname: 0, message: None };
    assert!(matches!(convert_exception(&silent, &package, &module), Err(DamlLfConvertError::MissingRequiredField)));
}
