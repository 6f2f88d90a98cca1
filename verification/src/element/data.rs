//! Data types, templates and choices of the element tree, and their models.

use vstd::prelude::*;

use crate::element::types::{
    fields_view, names_view, typevars_view, DamlField, DamlTyConName, DamlType, DamlTypeVarWithKind, FieldV,
    TyConNameV, TypeV, TypeVarV,
};

verus! {

/// A choice of a template or interface.
#[derive(Debug)]
pub struct DamlChoice {
    pub name: String,
    pub package_id: String,
    pub module_segments: Vec<String>,
    /// The argument binder, as a single field.
    pub fields: Vec<DamlField>,
    pub return_type: DamlType,
    pub consuming: bool,
    pub self_binder: String,
}

pub struct ChoiceV {
    pub name: Seq<char>,
    pub package_id: Seq<char>,
    pub module_segments: Seq<Seq<char>>,
    pub fields: Seq<FieldV>,
    pub return_type: TypeV,
    pub consuming: bool,
    pub self_binder: Seq<char>,
}

impl View for DamlChoice {
    type V = ChoiceV;

    open spec fn view(&self) -> ChoiceV {
        ChoiceV {
            name: self.name@,
            package_id: self.package_id@,
            module_segments: names_view(self.module_segments@),
            fields: fields_view(self.fields@),
            return_type: self.return_type@,
            consuming: self.consuming,
            self_binder: self.self_binder@,
        }
    }
}

pub open spec fn choices_view(cs: Seq<DamlChoice>) -> Seq<ChoiceV> {
    cs.map_values(|c: DamlChoice| c@)
}

impl DamlChoice {
    pub fn name(&self) -> (name: &str)
        ensures
            name@ == self.name@,
    {
        self.name.as_str()
    }

    pub fn fields(&self) -> (fields: &Vec<DamlField>)
        ensures
            *fields == self.fields,
    {
        &self.fields
    }

    pub fn return_type(&self) -> (ty: &DamlType)
        ensures
            *ty == self.return_type,
    {
        &self.return_type
    }
}

/// The type of a template's contract key.
#[derive(Debug)]
pub struct DamlDefKey {
    pub ty: DamlType,
}

impl DamlDefKey {
    pub fn ty(&self) -> (ty: &DamlType)
        ensures
            *ty == self.ty,
    {
        &self.ty
    }
}

/// A template: the record it wraps, and its choices, key and the
/// interfaces it implements.
#[derive(Debug)]
pub struct DamlTemplate {
    pub name: String,
    pub package_id: String,
    pub module_segments: Vec<String>,
    pub fields: Vec<DamlField>,
    pub choices: Vec<DamlChoice>,
    pub param: String,
    pub implements: Vec<DamlTyConName>,
    pub key: Option<DamlDefKey>,
    pub serializable: bool,
}

pub struct TemplateV {
    pub name: Seq<char>,
    pub package_id: Seq<char>,
    pub module_segments: Seq<Seq<char>>,
    pub fields: Seq<FieldV>,
    pub choices: Seq<ChoiceV>,
    pub param: Seq<char>,
    pub implements: Seq<TyConNameV>,
    pub key: Option<TypeV>,
    pub serializable: bool,
}

pub open spec fn tycon_names_view(ns: Seq<DamlTyConName>) -> Seq<TyConNameV> {
    ns.map_values(|n: DamlTyConName| n@)
}

impl View for DamlTemplate {
    type V = TemplateV;

    open spec fn view(&self) -> TemplateV {
        TemplateV {
            name: self.name@,
            package_id: self.package_id@,
            module_segments: names_view(self.module_segments@),
            fields: fields_view(self.fields@),
            choices: choices_view(self.choices@),
            param: self.param@,
            implements: tycon_names_view(self.implements@),
            key: match self.key {
                Some(k) => Some(k.ty@),
                None => None,
            },
            serializable: self.serializable,
        }
    }
}

impl DamlTemplate {
    pub fn name(&self) -> (name: &str)
        ensures
            name@ == self.name@,
    {
        self.name.as_str()
    }

    pub fn fields(&self) -> (fields: &Vec<DamlField>)
        ensures
            *fields == self.fields,
    {
        &self.fields
    }

    pub fn choices(&self) -> (choices: &Vec<DamlChoice>)
        ensures
            *choices == self.choices,
    {
        &self.choices
    }

    pub fn key(&self) -> (key: &Option<DamlDefKey>)
        ensures
            *key == self.key,
    {
        &self.key
    }
}

/// A record or variant: its name, location, fields and type parameters.
#[derive(Debug)]
pub struct DamlRecord {
    pub name: String,
    pub package_id: String,
    pub module_segments: Vec<String>,
    pub fields: Vec<DamlField>,
    pub type_params: Vec<DamlTypeVarWithKind>,
    pub serializable: bool,
}

/// A variant has the shape of a record: one field per constructor.
pub type DamlVariant = DamlRecord;

pub struct RecordV {
    pub name: Seq<char>,
    pub package_id: Seq<char>,
    pub module_segments: Seq<Seq<char>>,
    pub fields: Seq<FieldV>,
    pub type_params: Seq<TypeVarV>,
    pub serializable: bool,
}

impl View for DamlRecord {
    type V = RecordV;

    open spec fn view(&self) -> RecordV {
        RecordV {
            name: self.name@,
            package_id: self.package_id@,
            module_segments: names_view(self.module_segments@),
            fields: fields_view(self.fields@),
            type_params: typevars_view(self.type_params@),
            serializable: self.serializable,
        }
    }
}

impl DamlRecord {
    pub fn fields(&self) -> (fields: &Vec<DamlField>)
        ensures
            *fields == self.fields,
    {
        &self.fields
    }
}

/// An enum: its name, location and constructor names.
#[derive(Debug)]
pub struct DamlEnum {
    pub name: String,
    pub package_id: String,
    pub module_segments: Vec<String>,
    pub constructors: Vec<String>,
    pub type_params: Vec<DamlTypeVarWithKind>,
    pub serializable: bool,
}

pub struct EnumV {
    pub name: Seq<char>,
    pub package_id: Seq<char>,
    pub module_segments: Seq<Seq<char>>,
    pub constructors: Seq<Seq<char>>,
    pub type_params: Seq<TypeVarV>,
    pub serializable: bool,
}

impl View for DamlEnum {
    type V = EnumV;

    open spec fn view(&self) -> EnumV {
        EnumV {
            name: self.name@,
            package_id: self.package_id@,
            module_segments: names_view(self.module_segments@),
            constructors: names_view(self.constructors@),
            type_params: typevars_view(self.type_params@),
            serializable: self.serializable,
        }
    }
}

impl DamlEnum {
    pub fn name(&self) -> (name: &str)
        ensures
            name@ == self.name@,
    {
        self.name.as_str()
    }
}

/// A data type of a module.
#[derive(Debug)]
pub enum DamlData {
    Template(Box<DamlTemplate>),
    Record(DamlRecord),
    Variant(DamlVariant),
    Enum(DamlEnum),
}

pub enum DataV {
    Template(TemplateV),
    Record(RecordV),
    Variant(RecordV),
    Enum(EnumV),
}

impl DataV {
    pub open spec fn name(self) -> Seq<char> {
        match self {
            DataV::Template(t) => t.name,
            DataV::Record(r) => r.name,
            DataV::Variant(v) => v.name,
            DataV::Enum(e) => e.name,
        }
    }
}

impl View for DamlData {
    type V = DataV;

    open spec fn view(&self) -> DataV {
        match self {
            DamlData::Template(t) => DataV::Template((**t)@),
            DamlData::Record(r) => DataV::Record(r@),
            DamlData::Variant(v) => DataV::Variant(v@),
            DamlData::Enum(e) => DataV::Enum(e@),
        }
    }
}

pub open spec fn data_seq_view(ds: Seq<DamlData>) -> Seq<DataV> {
    ds.map_values(|d: DamlData| d@)
}

impl DamlData {
    /// The name of this data type.
    pub fn name(&self) -> (name: &str)
        ensures
            name@ == self@.name(),
    {
        match self {
            DamlData::Template(t) => t.name.as_str(),
            DamlData::Record(r) => r.name.as_str(),
            DamlData::Variant(v) => v.name.as_str(),
            DamlData::Enum(e) => e.name.as_str(),
        }
    }
}

/// A type synonym: its parameters, the type it stands for and its full
/// dotted name, module path included.
#[derive(Debug)]
pub struct DamlDefTypeSyn {
    pub params: Vec<DamlTypeVarWithKind>,
    pub ty: DamlType,
    pub name: Vec<String>,
}

pub struct TypeSynV {
    pub params: Seq<TypeVarV>,
    pub ty: TypeV,
    pub name: Seq<Seq<char>>,
}

impl View for DamlDefTypeSyn {
    type V = TypeSynV;

    open spec fn view(&self) -> TypeSynV {
        TypeSynV { params: typevars_view(self.params@), ty: self.ty@, name: names_view(self.name@) }
    }
}

pub open spec fn synonyms_view(ss: Seq<DamlDefTypeSyn>) -> Seq<TypeSynV> {
    ss.map_values(|s: DamlDefTypeSyn| s@)
}

/// The LF1 transitional feature flags a module declares.
#[derive(Debug, Clone, Copy, PartialEq, Eq, Structural)]
pub struct DamlFeatureFlags {
    pub forbid_party_literals: bool,
    pub dont_divulge_contract_ids_in_create_arguments: bool,
    pub dont_disclose_non_consuming_choices_to_observers: bool,
}

} // verus!
