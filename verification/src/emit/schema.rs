//! What a package to build should contain.
//!
//! Deliberately small: it carries what a participant reads from a package —
//! record types, template signatures, and the parties a contract is disclosed
//! to. How choices behave is not described, because an engine that interprets
//! the templates elsewhere supplies that.

use vstd::prelude::*;

use crate::element::keyed::{find_key, lemma_key_position_absent, lemma_key_position_found};
use crate::error::{DamlLfError, DamlLfErrorV, DamlLfResult};
use crate::results::{first_error, lemma_first_error_at, lemma_first_error_none, or_else};
use crate::text::{nat_text, spec_nat_text, str_eq};

verus! {

/// A type named by another, which lives in the package being built.
#[derive(Debug, PartialEq, Eq)]
pub struct TypeRef {
    /// Dotted module name, e.g. `Fuji.Asset`.
    pub module: String,
    pub name: String,
}

/// A field's type: a builtin, or a builtin applied to another such type, or
/// a type defined in the package.
#[derive(Debug, PartialEq, Eq)]
pub enum FieldType {
    Unit,
    Bool,
    Int64,
    /// A number, and the scale it is held at.
    Numeric(u8),
    Text,
    Timestamp,
    Date,
    Party,
    ContractId(TypeRef),
    /// A contract id pointing at an interface rather than a template.
    InterfaceContractId(TypeRef),
    /// A record, variant or enum defined in the package.
    Data(TypeRef),
    List(Box<FieldType>),
    Optional(Box<FieldType>),
    /// A map from text to something.
    TextMap(Box<FieldType>),
    /// A map from anything to anything.
    GenMap(Box<FieldType>, Box<FieldType>),
}

/// What a choice returns, which is drawn from the same vocabulary as a field.
pub type ResultType = FieldType;

/// One field of a template's payload.
#[derive(Debug, PartialEq, Eq)]
pub struct Field {
    pub name: String,
    pub field_type: FieldType,
}

impl Field {
    pub fn new(name: &str, field_type: FieldType) -> (field: Self)
        ensures
            field.name@ == name@,
            field.field_type == field_type,
    {
        Field { name: String::from_str(name), field_type }
    }
}

/// A choice's signature. How it behaves is not described.
#[derive(Debug, PartialEq, Eq)]
pub struct Choice {
    pub name: String,
    pub consuming: bool,
    /// Payload fields holding the parties that may exercise it.
    pub controllers: Vec<String>,
    /// The choice's own arguments, which become its argument record.
    pub arguments: Vec<Field>,
    pub result: ResultType,
}

/// A template's contract key: what type it is.
#[derive(Debug, PartialEq, Eq)]
pub struct TemplateKey {
    pub key_type: FieldType,
}

/// An interface a contract id may point at, and the view it presents.
#[derive(Debug, PartialEq, Eq)]
pub struct Interface {
    pub name: String,
    pub view: FieldType,
}

/// A template: its payload, who sees it, and what may be exercised on it.
#[derive(Debug, PartialEq, Eq)]
pub struct Template {
    pub name: String,
    pub fields: Vec<Field>,
    /// Payload fields holding the signatories. Each must be a `Party` field.
    pub signatories: Vec<String>,
    /// Payload fields holding the observers. Each must be a `Party` field.
    pub observers: Vec<String>,
    pub choices: Vec<Choice>,
    /// The contract key, when the template has one.
    pub key: Option<TemplateKey>,
}

/// A module's worth of templates.
#[derive(Debug, PartialEq, Eq)]
pub struct Module {
    /// Dotted module name, e.g. `Fuji.Asset`.
    pub name: String,
    pub templates: Vec<Template>,
    /// Types the templates name, defined here.
    pub data_types: Vec<DataType>,
    /// Interfaces the templates point at, defined here.
    pub interfaces: Vec<Interface>,
}

/// The package to build.
#[derive(Debug, PartialEq, Eq)]
pub struct Package {
    pub name: String,
    pub version: String,
    pub modules: Vec<Module>,
}

/// One constructor of a variant, and what it carries.
#[derive(Debug, PartialEq, Eq)]
pub struct Ctor {
    pub name: String,
    pub payload: FieldType,
}

/// What a user-defined type is made of.
#[derive(Debug, PartialEq, Eq)]
pub enum DataBody {
    Record(Vec<Field>),
    Variant(Vec<Ctor>),
    /// Constructor names, none of which carry anything.
    Enum(Vec<String>),
}

/// A type a template's field may hold, defined so the field can name it.
#[derive(Debug, PartialEq, Eq)]
pub struct DataType {
    pub name: String,
    pub body: DataBody,
}

/// The widest scale a Daml number may be held at.
pub const MAX_NUMERIC_SCALE: u8 = 37;

/// The error of a result without a value, if it holds one.
pub open spec fn lf_error_of(r: DamlLfResult<()>) -> Option<DamlLfErrorV> {
    match r {
        Ok(_) => None,
        Err(e) => Some(e@),
    }
}

pub open spec fn scale_text(scale: u8) -> Seq<char> {
    "a number is held at scale "@ + spec_nat_text(scale as nat) + ", and 37 is the widest"@
}

pub open spec fn missing_type_text(target: TypeRef) -> Seq<char> {
    "no type "@ + target.module@ + ":"@ + target.name@ + " in this package"@
}

pub open spec fn no_field_text(template: Seq<char>, field: Seq<char>) -> Seq<char> {
    "template "@ + template + " has no field "@ + field
}

pub open spec fn not_party_text(template: Seq<char>, field: Seq<char>) -> Seq<char> {
    "template "@ + template + ": field "@ + field + " does not hold a party"@
}

/// The (module, name) pairs a module defines: its data types, then its
/// interfaces, then its templates.
pub open spec fn spec_module_defined(m: Module) -> Seq<(Seq<char>, Seq<char>)> {
    m.data_types@.map_values(|d: DataType| (m.name@, d.name@)) + m.interfaces@.map_values(
        |i: Interface| (m.name@, i.name@),
    ) + m.templates@.map_values(|t: Template| (m.name@, t.name@))
}

/// The (module, name) pairs a list of modules defines, in order.
pub open spec fn spec_defined(ms: Seq<Module>) -> Seq<(Seq<char>, Seq<char>)>
    decreases ms.len(),
{
    if ms.len() == 0 {
        Seq::empty()
    } else {
        spec_defined(ms.drop_last()) + spec_module_defined(ms.last())
    }
}

/// Whether a reference names a defined type.
pub open spec fn is_defined(defined: Seq<(Seq<char>, Seq<char>)>, target: TypeRef) -> bool {
    exists|i: int| 0 <= i < defined.len() && defined[i] == (target.module@, target.name@)
}

/// The first problem with a field type: a number held at too wide a scale,
/// or a reference to a type the package does not define.
pub open spec fn spec_check_type(ty: FieldType, defined: Seq<(Seq<char>, Seq<char>)>) -> Option<DamlLfErrorV>
    decreases ty,
{
    match ty {
        FieldType::Numeric(scale) => if scale > MAX_NUMERIC_SCALE {
            Some(DamlLfErrorV::PackageBuildError(scale_text(scale)))
        } else {
            None
        },
        FieldType::List(inner) => spec_check_type(*inner, defined),
        FieldType::Optional(inner) => spec_check_type(*inner, defined),
        FieldType::TextMap(inner) => spec_check_type(*inner, defined),
        FieldType::GenMap(key, value) => or_else(spec_check_type(*key, defined), spec_check_type(*value, defined)),
        FieldType::ContractId(target) => if is_defined(defined, target) {
            None
        } else {
            Some(DamlLfErrorV::PackageBuildError(missing_type_text(target)))
        },
        FieldType::InterfaceContractId(target) => if is_defined(defined, target) {
            None
        } else {
            Some(DamlLfErrorV::PackageBuildError(missing_type_text(target)))
        },
        FieldType::Data(target) => if is_defined(defined, target) {
            None
        } else {
            Some(DamlLfErrorV::PackageBuildError(missing_type_text(target)))
        },
        _ => None,
    }
}

/// The types a field type names, at any depth, in order.
pub open spec fn named_refs(ty: FieldType) -> Seq<TypeRef>
    decreases ty,
{
    match ty {
        FieldType::ContractId(target) => seq![target],
        FieldType::InterfaceContractId(target) => seq![target],
        FieldType::Data(target) => seq![target],
        FieldType::List(inner) => named_refs(*inner),
        FieldType::Optional(inner) => named_refs(*inner),
        FieldType::TextMap(inner) => named_refs(*inner),
        FieldType::GenMap(key, value) => named_refs(*key) + named_refs(*value),
        _ => Seq::empty(),
    }
}

/// Whether every number a field type holds, at any depth, is held at a
/// scale the ledger accepts.
pub open spec fn scales_fit(ty: FieldType) -> bool
    decreases ty,
{
    match ty {
        FieldType::Numeric(scale) => scale <= MAX_NUMERIC_SCALE,
        FieldType::List(inner) => scales_fit(*inner),
        FieldType::Optional(inner) => scales_fit(*inner),
        FieldType::TextMap(inner) => scales_fit(*inner),
        FieldType::GenMap(key, value) => scales_fit(*key) && scales_fit(*value),
        _ => true,
    }
}

/// Whether every one of `refs` names a defined type.
pub open spec fn all_defined(defined: Seq<(Seq<char>, Seq<char>)>, refs: Seq<TypeRef>) -> bool {
    forall|i: int| 0 <= i < refs.len() ==> is_defined(defined, #[trigger] refs[i])
}

/// A field type passes its check exactly when every number in it, at any
/// depth (under lists, optionals and maps too), is held at an accepted
/// scale and every type it names, at any depth, is defined.
pub proof fn law_check_type_covers_every_depth(ty: FieldType, defined: Seq<(Seq<char>, Seq<char>)>)
    ensures
        spec_check_type(ty, defined) is None <==> scales_fit(ty) && all_defined(defined, named_refs(ty)),
    decreases ty,
{
    match ty {
        FieldType::List(inner) => law_check_type_covers_every_depth(*inner, defined),
        FieldType::Optional(inner) => law_check_type_covers_every_depth(*inner, defined),
        FieldType::TextMap(inner) => law_check_type_covers_every_depth(*inner, defined),
        FieldType::GenMap(key, value) => {
            law_check_type_covers_every_depth(*key, defined);
            law_check_type_covers_every_depth(*value, defined);
            let k = named_refs(*key);
            let v = named_refs(*value);
            if all_defined(defined, k) && all_defined(defined, v) {
                assert forall|i: int| 0 <= i < (k + v).len() implies is_defined(defined, #[trigger] (k + v)[i]) by {
                    if i < k.len() {
                        assert((k + v)[i] == k[i]);
                    } else {
                        assert((k + v)[i] == v[i - k.len()]);
                    }
                }
            }
            if all_defined(defined, k + v) {
                assert forall|i: int| 0 <= i < k.len() implies is_defined(defined, #[trigger] k[i]) by {
                    assert((k + v)[i] == k[i]);
                }
                assert forall|i: int| 0 <= i < v.len() implies is_defined(defined, #[trigger] v[i]) by {
                    assert((k + v)[k.len() + i] == v[i]);
                }
            }
        },
        FieldType::ContractId(target) => {
            assert(seq![target][0] == target);
        },
        FieldType::InterfaceContractId(target) => {
            assert(seq![target][0] == target);
        },
        FieldType::Data(target) => {
            assert(seq![target][0] == target);
        },
        _ => {},
    }
}

pub open spec fn field_type_check(defined: Seq<(Seq<char>, Seq<char>)>) -> spec_fn(Field) -> Option<DamlLfErrorV> {
    |f: Field| spec_check_type(f.field_type, defined)
}

pub open spec fn ctor_type_check(defined: Seq<(Seq<char>, Seq<char>)>) -> spec_fn(Ctor) -> Option<DamlLfErrorV> {
    |c: Ctor| spec_check_type(c.payload, defined)
}

/// A choice's argument types, then its result type.
pub open spec fn choice_type_check(defined: Seq<(Seq<char>, Seq<char>)>) -> spec_fn(Choice) -> Option<DamlLfErrorV> {
    |c: Choice| or_else(first_error(c.arguments@, field_type_check(defined)), spec_check_type(c.result, defined))
}

/// The type of a template's key, where it has one.
pub open spec fn key_type_check(key: Option<TemplateKey>, defined: Seq<(Seq<char>, Seq<char>)>) -> Option<DamlLfErrorV> {
    match key {
        Some(k) => spec_check_type(k.key_type, defined),
        None => None,
    }
}

/// A template's field types, then its choices', then its key's type.
pub open spec fn template_type_check(defined: Seq<(Seq<char>, Seq<char>)>) -> spec_fn(Template) -> Option<
    DamlLfErrorV,
> {
    |t: Template|
        or_else(
            or_else(first_error(t.fields@, field_type_check(defined)), first_error(t.choices@, choice_type_check(defined))),
            key_type_check(t.key, defined),
        )
}

/// An interface's view type.
pub open spec fn interface_type_check(defined: Seq<(Seq<char>, Seq<char>)>) -> spec_fn(Interface) -> Option<
    DamlLfErrorV,
> {
    |i: Interface| spec_check_type(i.view, defined)
}

pub open spec fn data_type_check(defined: Seq<(Seq<char>, Seq<char>)>) -> spec_fn(DataType) -> Option<DamlLfErrorV> {
    |d: DataType|
        match d.body {
            DataBody::Record(fields) => first_error(fields@, field_type_check(defined)),
            DataBody::Variant(ctors) => first_error(ctors@, ctor_type_check(defined)),
            DataBody::Enum(_) => None,
        }
}

/// A module's templates, then its data types, then its interfaces' views.
pub open spec fn module_type_check(defined: Seq<(Seq<char>, Seq<char>)>) -> spec_fn(Module) -> Option<DamlLfErrorV> {
    |m: Module|
        or_else(
            or_else(first_error(m.templates@, template_type_check(defined)), first_error(m.data_types@, data_type_check(defined))),
            first_error(m.interfaces@, interface_type_check(defined)),
        )
}

/// The first named type of a package that the package does not define.
pub open spec fn spec_named_types_error(p: Package) -> Option<DamlLfErrorV> {
    first_error(p.modules@, module_type_check(spec_defined(p.modules@)))
}

/// The controllers of a list of choices, in order.
pub open spec fn spec_controllers(cs: Seq<Choice>) -> Seq<String>
    decreases cs.len(),
{
    if cs.len() == 0 {
        Seq::empty()
    } else {
        spec_controllers(cs.drop_last()) + cs.last().controllers@
    }
}

/// The payload fields a template discloses to or lets exercise: its
/// signatories, observers, then each choice's controllers.
pub open spec fn party_fields(t: Template) -> Seq<String> {
    t.signatories@ + t.observers@ + spec_controllers(t.choices@)
}

pub open spec fn field_name_key() -> spec_fn(Field) -> Seq<char> {
    |f: Field| f.name@
}

/// A party field must be a field of the template that holds a party.
pub open spec fn party_field_check(t: Template) -> spec_fn(String) -> Option<DamlLfErrorV> {
    |name: String|
        match find_key(t.fields@, name@, field_name_key()) {
            None => Some(DamlLfErrorV::PackageBuildError(no_field_text(t.name@, name@))),
            Some(f) => if f.field_type is Party {
                None
            } else {
                Some(DamlLfErrorV::PackageBuildError(not_party_text(t.name@, name@)))
            },
        }
}

pub open spec fn template_party_check() -> spec_fn(Template) -> Option<DamlLfErrorV> {
    |t: Template| first_error(party_fields(t), party_field_check(t))
}

pub open spec fn module_party_check() -> spec_fn(Module) -> Option<DamlLfErrorV> {
    |m: Module| first_error(m.templates@, template_party_check())
}

/// The first problem of a package: a named type it does not define, or a
/// party field that is missing or does not hold a party.
pub open spec fn spec_validate_error(p: Package) -> Option<DamlLfErrorV> {
    or_else(spec_named_types_error(p), first_error(p.modules@, module_party_check()))
}

} // verus!

verus! {

pub open spec fn defined_view(defined: Seq<(String, String)>) -> Seq<(Seq<char>, Seq<char>)> {
    defined.map_values(|e: (String, String)| (e.0@, e.1@))
}

fn build_error(text: String) -> (e: DamlLfError)
    ensures
        e@ == DamlLfErrorV::PackageBuildError(text@),
{
    DamlLfError::PackageBuildError(text)
}

fn scale_error(scale: u8) -> (e: DamlLfError)
    ensures
        e@ == DamlLfErrorV::PackageBuildError(scale_text(scale)),
{
    let mut text = String::from_str("a number is held at scale ");
    let digits = nat_text(scale as u64);
    text.append(digits.as_str());
    text.append(", and 37 is the widest");
    build_error(text)
}

fn missing_type_error(target: &TypeRef) -> (e: DamlLfError)
    ensures
        e@ == DamlLfErrorV::PackageBuildError(missing_type_text(*target)),
{
    let mut text = String::from_str("no type ");
    text.append(target.module.as_str());
    text.append(":");
    text.append(target.name.as_str());
    text.append(" in this package");
    build_error(text)
}

fn no_field_error(template: &str, field: &str) -> (e: DamlLfError)
    ensures
        e@ == DamlLfErrorV::PackageBuildError(no_field_text(template@, field@)),
{
    let mut text = String::from_str("template ");
    text.append(template);
    text.append(" has no field ");
    text.append(field);
    build_error(text)
}

fn not_party_error(template: &str, field: &str) -> (e: DamlLfError)
    ensures
        e@ == DamlLfErrorV::PackageBuildError(not_party_text(template@, field@)),
{
    let mut text = String::from_str("template ");
    text.append(template);
    text.append(": field ");
    text.append(field);
    text.append(" does not hold a party");
    build_error(text)
}

/// Whether `target` names one of the defined (module, name) pairs.
fn is_defined_in(defined: &Vec<(String, String)>, target: &TypeRef) -> (found: bool)
    ensures
        found == is_defined(defined_view(defined@), *target),
{
    let ghost dv = defined_view(defined@);
    let mut i: usize = 0;
    while i < defined.len()
        invariant
            0 <= i <= defined.len(),
            dv == defined_view(defined@),
            dv.len() == defined@.len(),
            forall|j: int| 0 <= j < i ==> dv[j] != (target.module@, target.name@),
        decreases defined.len() - i,
    {
        if str_eq(defined[i].0.as_str(), target.module.as_str()) && str_eq(defined[i].1.as_str(), target.name.as_str()) {
            assert(dv[i as int] == (target.module@, target.name@));
            return true;
        }
        i += 1;
    }
    false
}

/// Check one field type: a number is held at a scale no wider than the
/// widest, and each type it names is defined.
fn check_type(ty: &FieldType, defined: &Vec<(String, String)>) -> (r: DamlLfResult<()>)
    ensures
        lf_error_of(r) == spec_check_type(*ty, defined_view(defined@)),
    decreases ty,
{
    match ty {
        FieldType::Numeric(scale) => {
            if *scale > MAX_NUMERIC_SCALE {
                Err(scale_error(*scale))
            } else {
                Ok(())
            }
        },
        FieldType::List(inner) => check_type(inner, defined),
        FieldType::Optional(inner) => check_type(inner, defined),
        FieldType::TextMap(inner) => check_type(inner, defined),
        FieldType::GenMap(key, value) => {
            let checked = check_type(key, defined);
            if checked.is_err() {
                return checked;
            }
            check_type(value, defined)
        },
        FieldType::ContractId(target) => {
            if is_defined_in(defined, target) {
                Ok(())
            } else {
                Err(missing_type_error(target))
            }
        },
        FieldType::InterfaceContractId(target) => {
            if is_defined_in(defined, target) {
                Ok(())
            } else {
                Err(missing_type_error(target))
            }
        },
        FieldType::Data(target) => {
            if is_defined_in(defined, target) {
                Ok(())
            } else {
                Err(missing_type_error(target))
            }
        },
        _ => Ok(()),
    }
}

/// Append the (module, name) pairs a module defines.
fn push_module_defined(defined: &mut Vec<(String, String)>, m: &Module)
    ensures
        defined_view(final(defined)@) == defined_view(old(defined)@) + spec_module_defined(*m),
{
    let ghost start = defined_view(defined@);
    let ghost ds = m.data_types@.map_values(|d: DataType| (m.name@, d.name@));
    let ghost is = m.interfaces@.map_values(|i: Interface| (m.name@, i.name@));
    let ghost ts = m.templates@.map_values(|t: Template| (m.name@, t.name@));
    let mut i: usize = 0;
    while i < m.data_types.len()
        invariant
            0 <= i <= m.data_types.len(),
            ds == m.data_types@.map_values(|d: DataType| (m.name@, d.name@)),
            defined_view(defined@) == start + ds.take(i as int),
        decreases m.data_types.len() - i,
    {
        let ghost before = defined@;
        defined.push((m.name.clone(), m.data_types[i].name.clone()));
        assert(defined_view(defined@) =~= defined_view(before).push(ds[i as int]));
        assert(ds.take(i + 1) =~= ds.take(i as int).push(ds[i as int]));
        i += 1;
    }
    assert(ds.take(i as int) =~= ds);
    let mut i: usize = 0;
    while i < m.interfaces.len()
        invariant
            0 <= i <= m.interfaces.len(),
            is == m.interfaces@.map_values(|i: Interface| (m.name@, i.name@)),
            defined_view(defined@) == start + ds + is.take(i as int),
        decreases m.interfaces.len() - i,
    {
        let ghost before = defined@;
        defined.push((m.name.clone(), m.interfaces[i].name.clone()));
        assert(defined_view(defined@) =~= defined_view(before).push(is[i as int]));
        assert(is.take(i + 1) =~= is.take(i as int).push(is[i as int]));
        i += 1;
    }
    assert(is.take(i as int) =~= is);
    let mut i: usize = 0;
    while i < m.templates.len()
        invariant
            0 <= i <= m.templates.len(),
            ts == m.templates@.map_values(|t: Template| (m.name@, t.name@)),
            defined_view(defined@) == start + ds + is + ts.take(i as int),
        decreases m.templates.len() - i,
    {
        let ghost before = defined@;
        defined.push((m.name.clone(), m.templates[i].name.clone()));
        assert(defined_view(defined@) =~= defined_view(before).push(ts[i as int]));
        assert(ts.take(i + 1) =~= ts.take(i as int).push(ts[i as int]));
        i += 1;
    }
    assert(ts.take(i as int) =~= ts);
    assert(start + ds + is + ts =~= start + spec_module_defined(*m));
}

/// The (module, name) pairs a list of modules defines.
fn defined_names(modules: &Vec<Module>) -> (defined: Vec<(String, String)>)
    ensures
        defined_view(defined@) == spec_defined(modules@),
{
    let mut defined: Vec<(String, String)> = Vec::new();
    let mut i: usize = 0;
    assert(defined_view(defined@) =~= Seq::<(Seq<char>, Seq<char>)>::empty());
    assert(modules@.take(0) =~= Seq::<Module>::empty());
    while i < modules.len()
        invariant
            0 <= i <= modules.len(),
            defined_view(defined@) == spec_defined(modules@.take(i as int)),
        decreases modules.len() - i,
    {
        push_module_defined(&mut defined, &modules[i]);
        assert(modules@.take(i + 1).drop_last() =~= modules@.take(i as int));
        i += 1;
    }
    assert(modules@.take(i as int) =~= modules@);
    defined
}

/// Check the types of some fields, in order.
fn check_field_types(fields: &Vec<Field>, defined: &Vec<(String, String)>) -> (r: DamlLfResult<()>)
    ensures
        lf_error_of(r) == first_error(fields@, field_type_check(defined_view(defined@))),
{
    let ghost f = field_type_check(defined_view(defined@));
    let mut i: usize = 0;
    while i < fields.len()
        invariant
            0 <= i <= fields.len(),
            f == field_type_check(defined_view(defined@)),
            forall|j: int| 0 <= j < i ==> f(#[trigger] fields@[j]) is None,
        decreases fields.len() - i,
    {
        let checked = check_type(&fields[i].field_type, defined);
        if checked.is_err() {
            proof {
                lemma_first_error_at(fields@, f, i as int);
            }
            return checked;
        }
        i += 1;
    }
    proof {
        lemma_first_error_none(fields@, f);
    }
    Ok(())
}

/// Check a choice: its argument types, then its result type.
fn check_choice_types(choice: &Choice, defined: &Vec<(String, String)>) -> (r: DamlLfResult<()>)
    ensures
        lf_error_of(r) == choice_type_check(defined_view(defined@))(*choice),
{
    let checked = check_field_types(&choice.arguments, defined);
    if checked.is_err() {
        return checked;
    }
    check_type(&choice.result, defined)
}

/// Check a template: its field types, then its choices'.
fn check_template_types(template: &Template, defined: &Vec<(String, String)>) -> (r: DamlLfResult<()>)
    ensures
        lf_error_of(r) == template_type_check(defined_view(defined@))(*template),
{
    let checked = check_field_types(&template.fields, defined);
    if checked.is_err() {
        return checked;
    }
    let ghost f = choice_type_check(defined_view(defined@));
    let mut i: usize = 0;
    while i < template.choices.len()
        invariant
            0 <= i <= template.choices.len(),
            f == choice_type_check(defined_view(defined@)),
            first_error(template.fields@, field_type_check(defined_view(defined@))) is None,
            forall|j: int| 0 <= j < i ==> f(#[trigger] template.choices@[j]) is None,
        decreases template.choices.len() - i,
    {
        let checked = check_choice_types(&template.choices[i], defined);
        if checked.is_err() {
            proof {
                lemma_first_error_at(template.choices@, f, i as int);
            }
            return checked;
        }
        i += 1;
    }
    proof {
        lemma_first_error_none(template.choices@, f);
    }
    match &template.key {
        Some(key) => check_type(&key.key_type, defined),
        None => Ok(()),
    }
}

/// Check the types a data type holds.
fn check_data_types(data: &DataType, defined: &Vec<(String, String)>) -> (r: DamlLfResult<()>)
    ensures
        lf_error_of(r) == data_type_check(defined_view(defined@))(*data),
{
    match &data.body {
        DataBody::Record(fields) => check_field_types(fields, defined),
        DataBody::Variant(ctors) => {
            let ghost f = ctor_type_check(defined_view(defined@));
            let mut i: usize = 0;
            while i < ctors.len()
                invariant
                    0 <= i <= ctors.len(),
                    f == ctor_type_check(defined_view(defined@)),
                    data.body == DataBody::Variant(*ctors),
                    forall|j: int| 0 <= j < i ==> f(#[trigger] ctors@[j]) is None,
                decreases ctors.len() - i,
            {
                let checked = check_type(&ctors[i].payload, defined);
                if checked.is_err() {
                    proof {
                        lemma_first_error_at(ctors@, f, i as int);
                    }
                    return checked;
                }
                i += 1;
            }
            proof {
                lemma_first_error_none(ctors@, f);
            }
            Ok(())
        },
        DataBody::Enum(_) => Ok(()),
    }
}

/// Check a module: its templates, then its data types, then its
/// interfaces' views.
fn check_module_types(module: &Module, defined: &Vec<(String, String)>) -> (r: DamlLfResult<()>)
    ensures
        lf_error_of(r) == module_type_check(defined_view(defined@))(*module),
{
    let ghost ft = template_type_check(defined_view(defined@));
    let mut i: usize = 0;
    while i < module.templates.len()
        invariant
            0 <= i <= module.templates.len(),
            ft == template_type_check(defined_view(defined@)),
            forall|j: int| 0 <= j < i ==> ft(#[trigger] module.templates@[j]) is None,
        decreases module.templates.len() - i,
    {
        let checked = check_template_types(&module.templates[i], defined);
        if checked.is_err() {
            proof {
                lemma_first_error_at(module.templates@, ft, i as int);
            }
            return checked;
        }
        i += 1;
    }
    proof {
        lemma_first_error_none(module.templates@, ft);
    }
    let ghost fd = data_type_check(defined_view(defined@));
    let mut k: usize = 0;
    while k < module.data_types.len()
        invariant
            0 <= k <= module.data_types.len(),
            fd == data_type_check(defined_view(defined@)),
            first_error(module.templates@, template_type_check(defined_view(defined@))) is None,
            forall|j: int| 0 <= j < k ==> fd(#[trigger] module.data_types@[j]) is None,
        decreases module.data_types.len() - k,
    {
        let checked = check_data_types(&module.data_types[k], defined);
        if checked.is_err() {
            proof {
                lemma_first_error_at(module.data_types@, fd, k as int);
            }
            return checked;
        }
        k += 1;
    }
    proof {
        lemma_first_error_none(module.data_types@, fd);
    }
    let ghost fi = interface_type_check(defined_view(defined@));
    let mut n: usize = 0;
    while n < module.interfaces.len()
        invariant
            0 <= n <= module.interfaces.len(),
            fi == interface_type_check(defined_view(defined@)),
            first_error(module.templates@, template_type_check(defined_view(defined@))) is None,
            first_error(module.data_types@, data_type_check(defined_view(defined@))) is None,
            forall|j: int| 0 <= j < n ==> fi(#[trigger] module.interfaces@[j]) is None,
        decreases module.interfaces.len() - n,
    {
        let checked = check_type(&module.interfaces[n].view, defined);
        if checked.is_err() {
            proof {
                lemma_first_error_at(module.interfaces@, fi, n as int);
            }
            return checked;
        }
        n += 1;
    }
    proof {
        lemma_first_error_none(module.interfaces@, fi);
    }
    Ok(())
}

/// The names of the payload fields a template discloses to or lets
/// exercise, in order.
fn party_field_names(template: &Template) -> (names: Vec<String>)
    ensures
        names@ == party_fields(*template),
{
    let mut names: Vec<String> = Vec::new();
    let mut i: usize = 0;
    while i < template.signatories.len()
        invariant
            0 <= i <= template.signatories.len(),
            names@ == template.signatories@.take(i as int),
        decreases template.signatories.len() - i,
    {
        names.push(template.signatories[i].clone());
        assert(names@ =~= template.signatories@.take(i + 1));
        i += 1;
    }
    assert(template.signatories@.take(i as int) =~= template.signatories@);
    let mut i: usize = 0;
    while i < template.observers.len()
        invariant
            0 <= i <= template.observers.len(),
            names@ == template.signatories@ + template.observers@.take(i as int),
        decreases template.observers.len() - i,
    {
        names.push(template.observers[i].clone());
        assert(names@ =~= template.signatories@ + template.observers@.take(i + 1));
        i += 1;
    }
    assert(template.observers@.take(i as int) =~= template.observers@);
    let ghost cs = template.choices@;
    let mut k: usize = 0;
    assert(cs.take(0) =~= Seq::<Choice>::empty());
    assert(names@ =~= template.signatories@ + template.observers@ + spec_controllers(cs.take(0)));
    while k < template.choices.len()
        invariant
            0 <= k <= template.choices.len(),
            cs == template.choices@,
            names@ == template.signatories@ + template.observers@ + spec_controllers(cs.take(k as int)),
        decreases template.choices.len() - k,
    {
        let controllers = &template.choices[k].controllers;
        let ghost base = names@;
        let mut j: usize = 0;
        while j < controllers.len()
            invariant
                0 <= j <= controllers.len(),
                names@ == base + controllers@.take(j as int),
            decreases controllers.len() - j,
        {
            names.push(controllers[j].clone());
            assert(names@ =~= base + controllers@.take(j + 1));
            j += 1;
        }
        assert(controllers@.take(j as int) =~= controllers@);
        assert(cs.take(k + 1).drop_last() =~= cs.take(k as int));
        assert(cs.take(k + 1).last() == cs[k as int]);
        assert(names@ =~= template.signatories@ + template.observers@ + spec_controllers(cs.take(k + 1)));
        k += 1;
    }
    assert(cs.take(k as int) =~= cs);
    names
}

/// Check that a party field is a field of the template holding a party.
fn check_party_field(template: &Template, name: &String) -> (r: DamlLfResult<()>)
    ensures
        lf_error_of(r) == party_field_check(*template)(*name),
{
    let ghost fs = template.fields@;
    let mut i: usize = 0;
    while i < template.fields.len()
        invariant
            0 <= i <= template.fields.len(),
            fs == template.fields@,
            forall|j: int| 0 <= j < i ==> (field_name_key())(#[trigger] fs[j]) != name@,
        decreases template.fields.len() - i,
    {
        if str_eq(template.fields[i].name.as_str(), name.as_str()) {
            proof {
                lemma_key_position_found(fs, name@, field_name_key(), i as int);
            }
            return match template.fields[i].field_type {
                FieldType::Party => Ok(()),
                _ => Err(not_party_error(template.name.as_str(), name.as_str())),
            };
        }
        i += 1;
    }
    proof {
        lemma_key_position_absent(fs, name@, field_name_key());
    }
    Err(no_field_error(template.name.as_str(), name.as_str()))
}

/// Check the party fields of a template, in order.
fn check_template_parties(template: &Template) -> (r: DamlLfResult<()>)
    ensures
        lf_error_of(r) == template_party_check()(*template),
{
    let names = party_field_names(template);
    let ghost fp = party_field_check(*template);
    let mut n: usize = 0;
    while n < names.len()
        invariant
            0 <= n <= names.len(),
            names@ == party_fields(*template),
            fp == party_field_check(*template),
            forall|j: int| 0 <= j < n ==> fp(#[trigger] names@[j]) is None,
        decreases names.len() - n,
    {
        let checked = check_party_field(template, &names[n]);
        if checked.is_err() {
            proof {
                lemma_first_error_at(names@, fp, n as int);
            }
            return checked;
        }
        n += 1;
    }
    proof {
        lemma_first_error_none(names@, fp);
    }
    Ok(())
}

/// Check the party fields of a module's templates, in order.
fn check_module_parties(module: &Module) -> (r: DamlLfResult<()>)
    ensures
        lf_error_of(r) == module_party_check()(*module),
{
    let ghost ft = template_party_check();
    let mut k: usize = 0;
    while k < module.templates.len()
        invariant
            0 <= k <= module.templates.len(),
            ft == template_party_check(),
            forall|j: int| 0 <= j < k ==> ft(#[trigger] module.templates@[j]) is None,
        decreases module.templates.len() - k,
    {
        let checked = check_template_parties(&module.templates[k]);
        if checked.is_err() {
            proof {
                lemma_first_error_at(module.templates@, ft, k as int);
            }
            return checked;
        }
        k += 1;
    }
    proof {
        lemma_first_error_none(module.templates@, ft);
    }
    Ok(())
}

impl Package {
    /// Check every named type is defined here.
    ///
    /// A field naming a type the package does not carry is a package a
    /// participant rejects, so it is caught while the cause is still in hand.
    pub fn check_named_types_exist(&self) -> (r: DamlLfResult<()>)
        ensures
            lf_error_of(r) == spec_named_types_error(*self),
    {
        let defined = defined_names(&self.modules);
        let ghost f = module_type_check(defined_view(defined@));
        let mut i: usize = 0;
        while i < self.modules.len()
            invariant
                0 <= i <= self.modules.len(),
                f == module_type_check(defined_view(defined@)),
                defined_view(defined@) == spec_defined(self.modules@),
                forall|j: int| 0 <= j < i ==> f(#[trigger] self.modules@[j]) is None,
            decreases self.modules.len() - i,
        {
            let checked = check_module_types(&self.modules[i], &defined);
            if checked.is_err() {
                proof {
                    lemma_first_error_at(self.modules@, f, i as int);
                }
                return checked;
            }
            i += 1;
        }
        proof {
            lemma_first_error_none(self.modules@, f);
        }
        Ok(())
    }

    /// Check the description is self-consistent: every named type is
    /// defined, and every signatory, observer and controller is a field of
    /// its template that holds a party.
    pub fn validate(&self) -> (r: DamlLfResult<()>)
        ensures
            lf_error_of(r) == spec_validate_error(*self),
    {
        let checked = self.check_named_types_exist();
        if checked.is_err() {
            return checked;
        }
        let ghost fm = module_party_check();
        let mut i: usize = 0;
        while i < self.modules.len()
            invariant
                0 <= i <= self.modules.len(),
                fm == module_party_check(),
                spec_named_types_error(*self) is None,
                forall|j: int| 0 <= j < i ==> fm(#[trigger] self.modules@[j]) is None,
            decreases self.modules.len() - i,
        {
            let checked = check_module_parties(&self.modules[i]);
            if checked.is_err() {
                proof {
                    lemma_first_error_at(self.modules@, fm, i as int);
                }
                return checked;
            }
            i += 1;
        }
        proof {
            lemma_first_error_none(self.modules@, fm);
        }
        Ok(())
    }
}

} // verus!
