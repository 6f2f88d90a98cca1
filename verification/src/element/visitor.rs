//! A walk over the element tree that calls back a visitor before and after
//! each element.

use vstd::prelude::*;

use crate::element::data::{DamlChoice, DamlData, DamlEnum, DamlRecord, DamlTemplate, DamlVariant};
use crate::element::expr::DamlDefValue;
use crate::element::interface::{DamlException, DamlInterface, DamlInterfaceMethod};
use crate::element::module::{lemma_modules_view, module_view, DamlModule, ModuleV};
use crate::element::package::{DamlArchive, DamlPackage};
use crate::element::types::{
    fields_view, lemma_fields_view_index, lemma_types_view_index, type_view, types_view, DamlField, DamlTyConName,
    DamlType, FieldV, TypeV,
};
use crate::element::validate::{fields_size, module_size, modules_size, type_size, types_size};

verus! {

/// What to do at each element of a walk over the element tree: each method
/// is called as the walk enters (`pre_visit_..`) and leaves (`post_visit_..`)
/// an element, and does nothing unless an implementation says otherwise.
pub trait DamlElementVisitor {
    fn pre_visit_archive(&mut self, _archive: &DamlArchive) {
    }

    fn post_visit_archive(&mut self, _archive: &DamlArchive) {
    }

    fn pre_visit_package(&mut self, _package: &DamlPackage) {
    }

    fn post_visit_package(&mut self, _package: &DamlPackage) {
    }

    fn pre_visit_module(&mut self, _module: &DamlModule) {
    }

    fn post_visit_module(&mut self, _module: &DamlModule) {
    }

    fn pre_visit_data(&mut self, _data: &DamlData) {
    }

    fn post_visit_data(&mut self, _data: &DamlData) {
    }

    fn pre_visit_template(&mut self, _template: &DamlTemplate) {
    }

    fn post_visit_template(&mut self, _template: &DamlTemplate) {
    }

    fn pre_visit_choice(&mut self, _choice: &DamlChoice) {
    }

    fn post_visit_choice(&mut self, _choice: &DamlChoice) {
    }

    fn pre_visit_record(&mut self, _record: &DamlRecord) {
    }

    fn post_visit_record(&mut self, _record: &DamlRecord) {
    }

    fn pre_visit_variant(&mut self, _variant: &DamlVariant) {
    }

    fn post_visit_variant(&mut self, _variant: &DamlVariant) {
    }

    fn pre_visit_enum(&mut self, _data_enum: &DamlEnum) {
    }

    fn post_visit_enum(&mut self, _data_enum: &DamlEnum) {
    }

    fn pre_visit_field(&mut self, _field: &DamlField) {
    }

    fn post_visit_field(&mut self, _field: &DamlField) {
    }

    fn pre_visit_type(&mut self, _ty: &DamlType) {
    }

    fn post_visit_type(&mut self, _ty: &DamlType) {
    }

    fn pre_visit_interface(&mut self, _interface: &DamlInterface) {
    }

    fn post_visit_interface(&mut self, _interface: &DamlInterface) {
    }

    fn pre_visit_interface_method(&mut self, _method: &DamlInterfaceMethod) {
    }

    fn post_visit_interface_method(&mut self, _method: &DamlInterfaceMethod) {
    }

    fn pre_visit_exception(&mut self, _exception: &DamlException) {
    }

    fn post_visit_exception(&mut self, _exception: &DamlException) {
    }

    fn pre_visit_def_value(&mut self, _value: &DamlDefValue) {
    }

    fn post_visit_def_value(&mut self, _value: &DamlDefValue) {
    }

    fn pre_visit_tycon_name(&mut self, _name: &DamlTyConName) {
    }
}

/// A module of a list is no larger than the list.
proof fn lemma_module_within(ms: Seq<ModuleV>, i: int)
    requires
        0 <= i < ms.len(),
    ensures
        module_size(ms[i]) <= modules_size(ms),
    decreases ms.len(),
{
    if i < ms.len() - 1 {
        lemma_module_within(ms.drop_last(), i);
    }
}

/// A type of a list is no larger than the list.
proof fn lemma_type_within(ts: Seq<TypeV>, i: int)
    requires
        0 <= i < ts.len(),
    ensures
        type_size(ts[i]) <= types_size(ts),
    decreases ts.len(),
{
    if i < ts.len() - 1 {
        lemma_type_within(ts.drop_last(), i);
    }
}

/// The type of a field of a list is no larger than the list.
proof fn lemma_field_within(fs: Seq<FieldV>, i: int)
    requires
        0 <= i < fs.len(),
    ensures
        type_size(fs[i].ty) <= fields_size(fs),
    decreases fs.len(),
{
    if i < fs.len() - 1 {
        lemma_field_within(fs.drop_last(), i);
    }
}

/// Walk a type: the type, then the type-constructor names and types in it.
fn visit_type<V: DamlElementVisitor>(ty: &DamlType, visitor: &mut V)
    decreases type_size(type_view(*ty)), 0int,
{
    visitor.pre_visit_type(ty);
    match ty {
        DamlType::TyCon(c) => {
            visitor.pre_visit_tycon_name(&c.tycon);
            visit_types(&c.type_arguments, visitor);
        },
        DamlType::BoxedTyCon(c) => {
            visitor.pre_visit_tycon_name(&c.tycon);
            visit_types(&c.type_arguments, visitor);
        },
        DamlType::ContractId(inner) => {
            if let Some(b) = inner {
                visit_type(&**b, visitor);
            }
        },
        DamlType::Numeric(args) => visit_types(args, visitor),
        DamlType::List(args) => visit_types(args, visitor),
        DamlType::TextMap(args) => visit_types(args, visitor),
        DamlType::GenMap(args) => visit_types(args, visitor),
        DamlType::Optional(args) => visit_types(args, visitor),
        DamlType::Var(v) => visit_types(&v.type_arguments, visitor),
        DamlType::Forall(f) => visit_type(&*f.body, visitor),
        DamlType::Struct(st) => visit_fields(&st.fields, visitor),
        DamlType::Syn(sy) => visit_types(&sy.args, visitor),
        _ => {},
    }
    visitor.post_visit_type(ty);
}

/// Walk a list of types, in order.
fn visit_types<V: DamlElementVisitor>(ts: &Vec<DamlType>, visitor: &mut V)
    decreases types_size(types_view(ts@)), 1int,
{
    proof {
        lemma_types_view_index(ts@);
        assert forall|j: int| 0 <= j < ts@.len() implies type_size(type_view(#[trigger] ts@[j])) <= types_size(
            types_view(ts@),
        ) by {
            lemma_type_within(types_view(ts@), j);
        }
    }
    let mut i: usize = 0;
    while i < ts.len()
        invariant
            0 <= i <= ts.len(),
            forall|j: int| 0 <= j < ts@.len() ==> type_size(type_view(#[trigger] ts@[j])) <= types_size(types_view(ts@)),
        decreases ts.len() - i,
    {
        visit_type(&ts[i], visitor);
        i += 1;
    }
}

/// Walk a list of fields, in order: each field, then its type.
fn visit_fields<V: DamlElementVisitor>(fs: &Vec<DamlField>, visitor: &mut V)
    decreases fields_size(fields_view(fs@)), 1int,
{
    proof {
        lemma_fields_view_index(fs@);
        assert forall|j: int| 0 <= j < fs@.len() implies type_size(type_view(#[trigger] fs@[j].ty)) <= fields_size(
            fields_view(fs@),
        ) by {
            lemma_field_within(fields_view(fs@), j);
        }
    }
    let mut i: usize = 0;
    while i < fs.len()
        invariant
            0 <= i <= fs.len(),
            forall|j: int| 0 <= j < fs@.len() ==> type_size(type_view(#[trigger] fs@[j].ty)) <= fields_size(fields_view(fs@)),
        decreases fs.len() - i,
    {
        let field = &fs[i];
        visitor.pre_visit_field(field);
        visit_type(&field.ty, visitor);
        visitor.post_visit_field(field);
        i += 1;
    }
}

fn visit_choices<V: DamlElementVisitor>(choices: &Vec<DamlChoice>, visitor: &mut V) {
    let mut i: usize = 0;
    while i < choices.len()
        invariant
            0 <= i <= choices.len(),
        decreases choices.len() - i,
    {
        let choice = &choices[i];
        visitor.pre_visit_choice(choice);
        visit_fields(&choice.fields, visitor);
        visit_type(&choice.return_type, visitor);
        visitor.post_visit_choice(choice);
        i += 1;
    }
}

fn visit_tycon_names<V: DamlElementVisitor>(names: &Vec<DamlTyConName>, visitor: &mut V) {
    let mut i: usize = 0;
    while i < names.len()
        invariant
            0 <= i <= names.len(),
        decreases names.len() - i,
    {
        visitor.pre_visit_tycon_name(&names[i]);
        i += 1;
    }
}

impl DamlTemplate {
    /// Walk this template: its fields, choices, implemented interfaces and key
    /// type.
    pub fn accept<V: DamlElementVisitor>(&self, visitor: &mut V) {
        visitor.pre_visit_template(self);
        visit_fields(&self.fields, visitor);
        visit_choices(&self.choices, visitor);
        visit_tycon_names(&self.implements, visitor);
        if let Some(key) = &self.key {
            visit_type(&key.ty, visitor);
        }
        visitor.post_visit_template(self);
    }
}

impl DamlData {
    /// Walk this data type: the data type, then its template, record,
    /// variant or enum.
    pub fn accept<V: DamlElementVisitor>(&self, visitor: &mut V) {
        visitor.pre_visit_data(self);
        match self {
            DamlData::Template(t) => t.accept(visitor),
            DamlData::Record(r) => {
                visitor.pre_visit_record(r);
                visit_fields(&r.fields, visitor);
                visitor.post_visit_record(r);
            },
            DamlData::Variant(v) => {
                visitor.pre_visit_variant(v);
                visit_fields(&v.fields, visitor);
                visitor.post_visit_variant(v);
            },
            DamlData::Enum(e) => {
                visitor.pre_visit_enum(e);
                visitor.post_visit_enum(e);
            },
        }
        visitor.post_visit_data(self);
    }
}

impl DamlInterface {
    /// Walk this interface: its methods, choices, view type and required
    /// interfaces.
    pub fn accept<V: DamlElementVisitor>(&self, visitor: &mut V) {
        visitor.pre_visit_interface(self);
        let mut i: usize = 0;
        while i < self.methods.len()
            invariant
                0 <= i <= self.methods.len(),
            decreases self.methods.len() - i,
        {
            let method = &self.methods[i];
            visitor.pre_visit_interface_method(method);
            visit_type(&method.ty, visitor);
            visitor.post_visit_interface_method(method);
            i += 1;
        }
        visit_choices(&self.choices, visitor);
        visit_type(&self.view, visitor);
        visit_tycon_names(&self.required_interfaces, visitor);
        visitor.post_visit_interface(self);
    }
}

impl DamlException {
    /// Walk this exception.
    pub fn accept<V: DamlElementVisitor>(&self, visitor: &mut V) {
        visitor.pre_visit_exception(self);
        visitor.post_visit_exception(self);
    }
}

impl DamlDefValue {
    /// Walk this value definition and its type.
    pub fn accept<V: DamlElementVisitor>(&self, visitor: &mut V) {
        visitor.pre_visit_def_value(self);
        visit_type(&self.ty, visitor);
        visitor.post_visit_def_value(self);
    }
}

impl DamlModule {
    /// Walk this module: its data types, interfaces, exceptions and values,
    /// then its child modules, in order.
    pub fn accept<V: DamlElementVisitor>(&self, visitor: &mut V)
        decreases module_size(self@),
    {
        visitor.pre_visit_module(self);
        let mut i: usize = 0;
        while i < self.data_types.len()
            invariant
                0 <= i <= self.data_types.len(),
            decreases self.data_types.len() - i,
        {
            self.data_types[i].accept(visitor);
            i += 1;
        }
        let mut i: usize = 0;
        while i < self.interfaces.len()
            invariant
                0 <= i <= self.interfaces.len(),
            decreases self.interfaces.len() - i,
        {
            self.interfaces[i].accept(visitor);
            i += 1;
        }
        let mut i: usize = 0;
        while i < self.exceptions.len()
            invariant
                0 <= i <= self.exceptions.len(),
            decreases self.exceptions.len() - i,
        {
            self.exceptions[i].accept(visitor);
            i += 1;
        }
        let mut i: usize = 0;
        while i < self.values.len()
            invariant
                0 <= i <= self.values.len(),
            decreases self.values.len() - i,
        {
            self.values[i].accept(visitor);
            i += 1;
        }
        proof {
            lemma_modules_view(self.child_modules@);
            assert forall|j: int| 0 <= j < self.child_modules@.len() implies module_size(
                module_view(#[trigger] self.child_modules@[j]),
            ) < module_size(self@) by {
                lemma_module_within(self@.children, j);
            }
        }
        let mut k: usize = 0;
        while k < self.child_modules.len()
            invariant
                0 <= k <= self.child_modules.len(),
                forall|j: int| 0 <= j < self.child_modules@.len() ==> module_size(
                    module_view(#[trigger] self.child_modules@[j]),
                ) < module_size(self@),
            decreases self.child_modules.len() - k,
        {
            self.child_modules[k].accept(visitor);
            k += 1;
        }
        visitor.post_visit_module(self);
    }
}

impl DamlPackage {
    /// Walk this package and its module tree.
    pub fn accept<V: DamlElementVisitor>(&self, visitor: &mut V) {
        visitor.pre_visit_package(self);
        self.root_module.accept(visitor);
        visitor.post_visit_package(self);
    }
}

impl DamlArchive {
    /// Walk this archive and its packages, in order.
    pub fn accept<V: DamlElementVisitor>(&self, visitor: &mut V) {
        visitor.pre_visit_archive(self);
        let mut i: usize = 0;
        while i < self.packages.len()
            invariant
                0 <= i <= self.packages.len(),
            decreases self.packages.len() - i,
        {
            self.packages[i].accept(visitor);
            i += 1;
        }
        visitor.post_visit_archive(self);
    }
}

} // verus!
