//! Interfaces and exceptions of the element tree, and their models.

use vstd::prelude::*;

use crate::element::expr::{DamlExpr, ExprV};
use crate::element::data::{choices_view, tycon_names_view, ChoiceV, DamlChoice};
use crate::element::types::{names_view, DamlTyConName, DamlType, TyConNameV, TypeV};

verus! {

/// A method declaration on an interface.
#[derive(Debug)]
pub struct DamlInterfaceMethod {
    pub name: String,
    pub ty: DamlType,
}

pub struct MethodV {
    pub name: Seq<char>,
    pub ty: TypeV,
}

impl View for DamlInterfaceMethod {
    type V = MethodV;

    open spec fn view(&self) -> MethodV {
        MethodV { name: self.name@, ty: self.ty@ }
    }
}

pub open spec fn methods_view(ms: Seq<DamlInterfaceMethod>) -> Seq<MethodV> {
    ms.map_values(|m: DamlInterfaceMethod| m@)
}

impl DamlInterfaceMethod {
    pub fn new(name: String, ty: DamlType) -> (method: Self)
        ensures
            method.name == name,
            method.ty == ty,
    {
        DamlInterfaceMethod { name, ty }
    }

    pub fn name(&self) -> (name: &str)
        ensures
            name@ == self.name@,
    {
        self.name.as_str()
    }

    pub fn ty(&self) -> (ty: &DamlType)
        ensures
            *ty == self.ty,
    {
        &self.ty
    }
}

/// A Daml interface, LF2's abstraction for templates to implement.
///
/// `view` is the type of what a contract looks like through this
/// interface.
#[derive(Debug)]
pub struct DamlInterface {
    pub name: String,
    pub package_id: String,
    pub module_segments: Vec<String>,
    /// The name the interface value is bound to in its choices.
    pub param: String,
    pub methods: Vec<DamlInterfaceMethod>,
    /// Choices defined on the interface, which implementations inherit.
    pub choices: Vec<DamlChoice>,
    pub view: DamlType,
    /// Other interfaces an implementing template must also implement.
    pub required_interfaces: Vec<DamlTyConName>,
}

pub struct InterfaceV {
    pub name: Seq<char>,
    pub package_id: Seq<char>,
    pub module_segments: Seq<Seq<char>>,
    pub param: Seq<char>,
    pub methods: Seq<MethodV>,
    pub choices: Seq<ChoiceV>,
    pub view: TypeV,
    pub required_interfaces: Seq<TyConNameV>,
}

/// The model of an interface.
pub open spec fn interface_model(i: DamlInterface) -> InterfaceV {
    InterfaceV {
        name: i.name@,
        package_id: i.package_id@,
        module_segments: names_view(i.module_segments@),
        param: i.param@,
        methods: methods_view(i.methods@),
        choices: choices_view(i.choices@),
        view: i.view@,
        required_interfaces: tycon_names_view(i.required_interfaces@),
    }
}

pub open spec fn interfaces_model(is: Seq<DamlInterface>) -> Seq<InterfaceV> {
    is.map_values(|i: DamlInterface| interface_model(i))
}

impl DamlInterface {
    pub fn new(
        name: String,
        package_id: String,
        module_segments: Vec<String>,
        param: String,
        methods: Vec<DamlInterfaceMethod>,
        choices: Vec<DamlChoice>,
        view: DamlType,
        required_interfaces: Vec<DamlTyConName>,
    ) -> (interface: Self)
        ensures
            interface.name == name,
            interface.package_id == package_id,
            interface.module_segments == module_segments,
            interface.param == param,
            interface.methods == methods,
            interface.choices == choices,
            interface.view == view,
            interface.required_interfaces == required_interfaces,
    {
        DamlInterface { name, package_id, module_segments, param, methods, choices, view, required_interfaces }
    }

    pub fn name(&self) -> (name: &str)
        ensures
            name@ == self.name@,
    {
        self.name.as_str()
    }

    pub fn package_id(&self) -> (id: &str)
        ensures
            id@ == self.package_id@,
    {
        self.package_id.as_str()
    }

    pub fn module_segments(&self) -> (segments: &Vec<String>)
        ensures
            *segments == self.module_segments,
    {
        &self.module_segments
    }

    pub fn param(&self) -> (param: &str)
        ensures
            param@ == self.param@,
    {
        self.param.as_str()
    }

    pub fn methods(&self) -> (methods: &Vec<DamlInterfaceMethod>)
        ensures
            *methods == self.methods,
    {
        &self.methods
    }

    pub fn choices(&self) -> (choices: &Vec<DamlChoice>)
        ensures
            *choices == self.choices,
    {
        &self.choices
    }

    pub fn view(&self) -> (view: &DamlType)
        ensures
            *view == self.view,
    {
        &self.view
    }

    pub fn required_interfaces(&self) -> (required: &Vec<DamlTyConName>)
        ensures
            *required == self.required_interfaces,
    {
        &self.required_interfaces
    }
}

/// A Daml exception: its name and where it is defined.
#[derive(Debug)]
pub struct DamlException {
    pub name: String,
    pub package_id: String,
    pub module_segments: Vec<String>,
    pub message: DamlExpr,
}

pub struct ExceptionV {
    pub name: Seq<char>,
    pub package_id: Seq<char>,
    pub module_segments: Seq<Seq<char>>,
    pub message: ExprV,
}

impl View for DamlException {
    type V = ExceptionV;

    open spec fn view(&self) -> ExceptionV {
        ExceptionV {
            name: self.name@,
            package_id: self.package_id@,
            module_segments: names_view(self.module_segments@),
            message: self.message@,
        }
    }
}

pub open spec fn exceptions_view(es: Seq<DamlException>) -> Seq<ExceptionV> {
    es.map_values(|e: DamlException| e@)
}

impl DamlException {
    pub fn new(name: String, package_id: String, module_segments: Vec<String>, message: DamlExpr) -> (exception: Self)
        ensures
            exception.name == name,
            exception.package_id == package_id,
            exception.module_segments == module_segments,
            exception.message == message,
    {
        DamlException { name, package_id, module_segments, message }
    }

    /// The expression giving the exception's message.
    pub fn message(&self) -> (message: &DamlExpr)
        ensures
            *message == self.message,
    {
        &self.message
    }

    pub fn name(&self) -> (name: &str)
        ensures
            name@ == self.name@,
    {
        self.name.as_str()
    }

    pub fn package_id(&self) -> (id: &str)
        ensures
            id@ == self.package_id@,
    {
        self.package_id.as_str()
    }

    pub fn module_segments(&self) -> (segments: &Vec<String>)
        ensures
            *segments == self.module_segments,
    {
        &self.module_segments
    }
}

} // verus!
