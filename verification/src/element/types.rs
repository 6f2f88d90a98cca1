//! Types, kinds and type-constructor names of the element tree, and their
//! models.

use vstd::prelude::*;

use crate::text::{join, nat_text, spec_join, spec_nat_text};

verus! {

/// The view of a list of names: each name as its characters.
pub open spec fn names_view(names: Seq<String>) -> Seq<Seq<char>> {
    names.map_values(|s: String| s@)
}

/// A kind: `*`, the kind of type-level naturals, or an arrow.
#[derive(Debug)]
pub enum DamlKind {
    Star,
    Nat,
    Arrow(Box<DamlArrow>),
}

/// The parameters and result of an arrow kind.
#[derive(Debug)]
pub struct DamlArrow {
    pub params: Vec<DamlKind>,
    pub result: DamlKind,
}

/// The model of a kind.
pub enum KindV {
    Star,
    Nat,
    Arrow(Seq<KindV>, Box<KindV>),
}

pub open spec fn kind_view(k: DamlKind) -> KindV
    decreases k, 1int,
{
    match k {
        DamlKind::Star => KindV::Star,
        DamlKind::Nat => KindV::Nat,
        DamlKind::Arrow(arrow) => KindV::Arrow(kinds_view(arrow.params@), Box::new(kind_view(arrow.result))),
    }
}

pub open spec fn kinds_view(ks: Seq<DamlKind>) -> Seq<KindV>
    decreases ks, 0int,
{
    if ks.len() == 0 {
        Seq::empty()
    } else {
        kinds_view(ks.drop_last()).push(kind_view(ks.last()))
    }
}

impl View for DamlKind {
    type V = KindV;

    open spec fn view(&self) -> KindV {
        kind_view(*self)
    }
}

impl DamlArrow {
    pub fn new(params: Vec<DamlKind>, result: DamlKind) -> (arrow: Self)
        ensures
            arrow.params == params,
            arrow.result == result,
    {
        DamlArrow { params, result }
    }
}

/// A type variable and its kind.
#[derive(Debug)]
pub struct DamlTypeVarWithKind {
    pub var: String,
    pub kind: DamlKind,
}

/// The model of a type variable with its kind.
pub struct TypeVarV {
    pub var: Seq<char>,
    pub kind: KindV,
}

impl View for DamlTypeVarWithKind {
    type V = TypeVarV;

    open spec fn view(&self) -> TypeVarV {
        TypeVarV { var: self.var@, kind: self.kind@ }
    }
}

pub open spec fn typevars_view(vs: Seq<DamlTypeVarWithKind>) -> Seq<TypeVarV> {
    vs.map_values(|v: DamlTypeVarWithKind| v@)
}

impl DamlTypeVarWithKind {
    pub fn new(var: String, kind: DamlKind) -> (tv: Self)
        ensures
            tv.var == var,
            tv.kind == kind,
    {
        DamlTypeVarWithKind { var, kind }
    }
}

/// A reference to a data type in the same package, by module path and name.
#[derive(Debug)]
pub struct DamlLocalTyCon {
    pub data_name: String,
    pub package_id: String,
    pub package_name: String,
    pub module_segments: Vec<String>,
}

/// A reference to a data type from one package into another.
#[derive(Debug)]
pub struct DamlNonLocalTyCon {
    pub data_name: String,
    pub source_package_id: String,
    pub source_package_name: String,
    pub target_package_id: String,
    pub target_package_name: String,
    pub module_segments: Vec<String>,
}

/// A reference to a data type by its package id, module path and name.
#[derive(Debug)]
pub struct DamlAbsoluteTyCon {
    pub data_name: String,
    pub package_id: String,
    pub package_name: String,
    pub module_segments: Vec<String>,
}

/// The name of a type constructor.
#[derive(Debug)]
pub enum DamlTyConName {
    Local(DamlLocalTyCon),
    NonLocal(DamlNonLocalTyCon),
    Absolute(DamlAbsoluteTyCon),
}

/// The name of a type synonym has the shape of a type constructor name.
pub type DamlTypeSynName = DamlTyConName;

/// The model of a type constructor name.
pub enum TyConNameV {
    Local { data_name: Seq<char>, package_id: Seq<char>, package_name: Seq<char>, module_segments: Seq<Seq<char>> },
    NonLocal {
        data_name: Seq<char>,
        source_package_id: Seq<char>,
        source_package_name: Seq<char>,
        target_package_id: Seq<char>,
        target_package_name: Seq<char>,
        module_segments: Seq<Seq<char>>,
    },
    Absolute { data_name: Seq<char>, package_id: Seq<char>, package_name: Seq<char>, module_segments: Seq<Seq<char>> },
}

impl View for DamlTyConName {
    type V = TyConNameV;

    open spec fn view(&self) -> TyConNameV {
        match self {
            DamlTyConName::Local(l) => TyConNameV::Local {
                data_name: l.data_name@,
                package_id: l.package_id@,
                package_name: l.package_name@,
                module_segments: names_view(l.module_segments@),
            },
            DamlTyConName::NonLocal(n) => TyConNameV::NonLocal {
                data_name: n.data_name@,
                source_package_id: n.source_package_id@,
                source_package_name: n.source_package_name@,
                target_package_id: n.target_package_id@,
                target_package_name: n.target_package_name@,
                module_segments: names_view(n.module_segments@),
            },
            DamlTyConName::Absolute(a) => TyConNameV::Absolute {
                data_name: a.data_name@,
                package_id: a.package_id@,
                package_name: a.package_name@,
                module_segments: names_view(a.module_segments@),
            },
        }
    }
}

impl TyConNameV {
    /// The package a reference points into.
    pub open spec fn ref_package_id(self) -> Seq<char> {
        match self {
            TyConNameV::Local { package_id, .. } => package_id,
            TyConNameV::NonLocal { target_package_id, .. } => target_package_id,
            TyConNameV::Absolute { package_id, .. } => package_id,
        }
    }

    /// The module path a reference points into.
    pub open spec fn ref_module_segments(self) -> Seq<Seq<char>> {
        match self {
            TyConNameV::Local { module_segments, .. } => module_segments,
            TyConNameV::NonLocal { module_segments, .. } => module_segments,
            TyConNameV::Absolute { module_segments, .. } => module_segments,
        }
    }

    /// The data name a reference points at.
    pub open spec fn ref_data_name(self) -> Seq<char> {
        match self {
            TyConNameV::Local { data_name, .. } => data_name,
            TyConNameV::NonLocal { data_name, .. } => data_name,
            TyConNameV::Absolute { data_name, .. } => data_name,
        }
    }
}

impl DamlAbsoluteTyCon {
    pub fn new(data_name: String, package_id: String, package_name: String, module_segments: Vec<String>) -> (t: Self)
        ensures
            t.data_name == data_name,
            t.package_id == package_id,
            t.package_name == package_name,
            t.module_segments == module_segments,
    {
        DamlAbsoluteTyCon { data_name, package_id, package_name, module_segments }
    }

    pub fn package_id(&self) -> (id: &str)
        ensures
            id@ == self.package_id@,
    {
        self.package_id.as_str()
    }

    pub fn package_name(&self) -> (name: &str)
        ensures
            name@ == self.package_name@,
    {
        self.package_name.as_str()
    }

    pub fn data_name(&self) -> (name: &str)
        ensures
            name@ == self.data_name@,
    {
        self.data_name.as_str()
    }
}

impl DamlNonLocalTyCon {
    pub fn target_package_id(&self) -> (id: &str)
        ensures
            id@ == self.target_package_id@,
    {
        self.target_package_id.as_str()
    }
}

impl DamlTyConName {
    /// The package id, module path and data name this name refers to.
    pub fn reference_parts(&self) -> (parts: (&str, &Vec<String>, &str))
        ensures
            parts.0@ == self@.ref_package_id(),
            names_view(parts.1@) == self@.ref_module_segments(),
            parts.2@ == self@.ref_data_name(),
    {
        match self {
            DamlTyConName::Local(l) => (l.package_id.as_str(), &l.module_segments, l.data_name.as_str()),
            DamlTyConName::NonLocal(n) => (n.target_package_id.as_str(), &n.module_segments, n.data_name.as_str()),
            DamlTyConName::Absolute(a) => (a.package_id.as_str(), &a.module_segments, a.data_name.as_str()),
        }
    }
}

/// A type.
#[derive(Debug)]
pub enum DamlType {
    Var(DamlVar),
    TyCon(DamlTyCon),
    BoxedTyCon(DamlTyCon),
    Syn(DamlSyn),
    Forall(DamlForall),
    Struct(DamlStruct),
    Nat(u8),
    Unit,
    Bool,
    Int64,
    Date,
    Timestamp,
    Numeric(Vec<DamlType>),
    Party,
    Text,
    ContractId(Option<Box<DamlType>>),
    Optional(Vec<DamlType>),
    List(Vec<DamlType>),
    GenMap(Vec<DamlType>),
    TextMap(Vec<DamlType>),
    Any,
    AnyException,
    TypeRep,
    Arrow,
    Update,
    Bignumeric,
    FailureCategory,
    RoundingMode,
}

/// A type variable applied to arguments.
#[derive(Debug)]
pub struct DamlVar {
    pub var: String,
    pub type_arguments: Vec<DamlType>,
}

/// A type constructor applied to arguments.
#[derive(Debug)]
pub struct DamlTyCon {
    pub tycon: Box<DamlTyConName>,
    pub type_arguments: Vec<DamlType>,
}

/// A type synonym applied to arguments.
#[derive(Debug)]
pub struct DamlSyn {
    pub tysyn: Box<DamlTypeSynName>,
    pub args: Vec<DamlType>,
}

/// A universally quantified type.
#[derive(Debug)]
pub struct DamlForall {
    pub vars: Vec<DamlTypeVarWithKind>,
    pub body: Box<DamlType>,
}

/// A structural record type.
#[derive(Debug)]
pub struct DamlStruct {
    pub fields: Vec<DamlField>,
}

/// A named, typed field of a record, variant, choice or struct.
#[derive(Debug)]
pub struct DamlField {
    pub name: String,
    pub ty: DamlType,
}

/// The model of a type.
pub enum TypeV {
    Var(Seq<char>, Seq<TypeV>),
    TyCon(TyConNameV, Seq<TypeV>),
    BoxedTyCon(TyConNameV, Seq<TypeV>),
    Syn(TyConNameV, Seq<TypeV>),
    Forall(Seq<TypeVarV>, Box<TypeV>),
    Struct(Seq<FieldV>),
    Nat(u8),
    Unit,
    Bool,
    Int64,
    Date,
    Timestamp,
    Numeric(Seq<TypeV>),
    Party,
    Text,
    ContractId(Option<Box<TypeV>>),
    Optional(Seq<TypeV>),
    List(Seq<TypeV>),
    GenMap(Seq<TypeV>),
    TextMap(Seq<TypeV>),
    Any,
    AnyException,
    TypeRep,
    Arrow,
    Update,
    Bignumeric,
    FailureCategory,
    RoundingMode,
}

/// The model of a field.
pub struct FieldV {
    pub name: Seq<char>,
    pub ty: TypeV,
}

pub open spec fn type_view(t: DamlType) -> TypeV
    decreases t, 1int,
{
    match t {
        DamlType::Var(v) => TypeV::Var(v.var@, types_view(v.type_arguments@)),
        DamlType::TyCon(c) => TypeV::TyCon((*c.tycon)@, types_view(c.type_arguments@)),
        DamlType::BoxedTyCon(c) => TypeV::BoxedTyCon((*c.tycon)@, types_view(c.type_arguments@)),
        DamlType::Syn(s) => TypeV::Syn((*s.tysyn)@, types_view(s.args@)),
        DamlType::Forall(f) => TypeV::Forall(typevars_view(f.vars@), Box::new(type_view(*f.body))),
        DamlType::Struct(s) => TypeV::Struct(fields_view(s.fields@)),
        DamlType::Nat(n) => TypeV::Nat(n),
        DamlType::Unit => TypeV::Unit,
        DamlType::Bool => TypeV::Bool,
        DamlType::Int64 => TypeV::Int64,
        DamlType::Date => TypeV::Date,
        DamlType::Timestamp => TypeV::Timestamp,
        DamlType::Numeric(args) => TypeV::Numeric(types_view(args@)),
        DamlType::Party => TypeV::Party,
        DamlType::Text => TypeV::Text,
        DamlType::ContractId(inner) => TypeV::ContractId(
            match inner {
                Some(b) => Some(Box::new(type_view(*b))),
                None => None,
            },
        ),
        DamlType::Optional(args) => TypeV::Optional(types_view(args@)),
        DamlType::List(args) => TypeV::List(types_view(args@)),
        DamlType::GenMap(args) => TypeV::GenMap(types_view(args@)),
        DamlType::TextMap(args) => TypeV::TextMap(types_view(args@)),
        DamlType::Any => TypeV::Any,
        DamlType::AnyException => TypeV::AnyException,
        DamlType::TypeRep => TypeV::TypeRep,
        DamlType::Arrow => TypeV::Arrow,
        DamlType::Update => TypeV::Update,
        DamlType::Bignumeric => TypeV::Bignumeric,
        DamlType::FailureCategory => TypeV::FailureCategory,
        DamlType::RoundingMode => TypeV::RoundingMode,
    }
}

pub open spec fn types_view(ts: Seq<DamlType>) -> Seq<TypeV>
    decreases ts, 0int,
{
    if ts.len() == 0 {
        Seq::empty()
    } else {
        types_view(ts.drop_last()).push(type_view(ts.last()))
    }
}

pub open spec fn fields_view(fs: Seq<DamlField>) -> Seq<FieldV>
    decreases fs, 0int,
{
    if fs.len() == 0 {
        Seq::empty()
    } else {
        fields_view(fs.drop_last()).push(FieldV { name: fs.last().name@, ty: type_view(fs.last().ty) })
    }
}

/// Appending to a list of kinds appends to its model.
pub proof fn lemma_kinds_view_push(ks: Seq<DamlKind>, k: DamlKind)
    ensures
        kinds_view(ks.push(k)) == kinds_view(ks).push(kind_view(k)),
{
    assert(ks.push(k).drop_last() =~= ks);
}

/// Appending to a list of types appends to its model.
pub proof fn lemma_types_view_push(ts: Seq<DamlType>, t: DamlType)
    ensures
        types_view(ts.push(t)) == types_view(ts).push(type_view(t)),
{
    assert(ts.push(t).drop_last() =~= ts);
}

/// Appending to a list of fields appends to its model.
pub proof fn lemma_fields_view_push(fs: Seq<DamlField>, f: DamlField)
    ensures
        fields_view(fs.push(f)) == fields_view(fs).push(FieldV { name: f.name@, ty: type_view(f.ty) }),
{
    assert(fs.push(f).drop_last() =~= fs);
}

/// The model of a list of types has one model per type.
pub proof fn lemma_types_view_index(ts: Seq<DamlType>)
    ensures
        types_view(ts).len() == ts.len(),
        forall|i: int| 0 <= i < ts.len() ==> #[trigger] types_view(ts)[i] == type_view(ts[i]),
    decreases ts.len(),
{
    if ts.len() > 0 {
        lemma_types_view_index(ts.drop_last());
        assert forall|i: int| 0 <= i < ts.len() implies #[trigger] types_view(ts)[i] == type_view(ts[i]) by {
            if i < ts.len() - 1 {
                assert(ts.drop_last()[i] == ts[i]);
            }
        }
    }
}

/// The model of a list of fields has one model per field.
pub proof fn lemma_fields_view_index(fs: Seq<DamlField>)
    ensures
        fields_view(fs).len() == fs.len(),
        forall|i: int|
            0 <= i < fs.len() ==> #[trigger] fields_view(fs)[i] == (FieldV { name: fs[i].name@, ty: type_view(fs[i].ty) }),
    decreases fs.len(),
{
    if fs.len() > 0 {
        lemma_fields_view_index(fs.drop_last());
        assert forall|i: int| 0 <= i < fs.len() implies #[trigger] fields_view(fs)[i] == (FieldV {
            name: fs[i].name@,
            ty: type_view(fs[i].ty),
        }) by {
            if i < fs.len() - 1 {
                assert(fs.drop_last()[i] == fs[i]);
            }
        }
    }
}

impl View for DamlType {
    type V = TypeV;

    open spec fn view(&self) -> TypeV {
        type_view(*self)
    }
}

impl View for DamlField {
    type V = FieldV;

    open spec fn view(&self) -> FieldV {
        FieldV { name: self.name@, ty: type_view(self.ty) }
    }
}

} // verus!

verus! {

/// A copy of a list of names.
pub fn copy_names(names: &[String]) -> (copy: Vec<String>)
    ensures
        copy@ == names@,
{
    let mut copy: Vec<String> = Vec::new();
    let mut i: usize = 0;
    while i < names.len()
        invariant
            0 <= i <= names.len(),
            copy@ == names@.take(i as int),
        decreases names.len() - i,
    {
        copy.push(names[i].clone());
        assert(copy@ =~= names@.take(i + 1));
        i += 1;
    }
    assert(names@.take(names.len() as int) =~= names@);
    copy
}

/// `base` followed by the first `count` names of `extra`.
pub fn extend_names(base: Vec<String>, extra: &Vec<String>, count: usize) -> (path: Vec<String>)
    requires
        count <= extra@.len(),
    ensures
        names_view(path@) == names_view(base@) + names_view(extra@.take(count as int)),
{
    let mut path = base;
    let ghost start = path@;
    let mut i: usize = 0;
    while i < count
        invariant
            0 <= i <= count,
            count <= extra@.len(),
            path@ == start + extra@.take(i as int),
        decreases count - i,
    {
        path.push(extra[i].clone());
        assert(path@ =~= start + extra@.take(i + 1));
        i += 1;
    }
    assert(names_view(path@) =~= names_view(start) + names_view(extra@.take(count as int)));
    path
}

} // verus!

verus! {

/// The text naming a type-constructor name: its module path, a colon, then
/// its data name.
pub open spec fn spec_tycon_text(n: TyConNameV) -> Seq<char> {
    match n {
        TyConNameV::Local { data_name, module_segments, .. } => spec_join(module_segments, "."@) + ":"@ + data_name,
        TyConNameV::NonLocal { data_name, module_segments, .. } => spec_join(module_segments, "."@) + ":"@
            + data_name,
        TyConNameV::Absolute { data_name, module_segments, .. } => spec_join(module_segments, "."@) + ":"@
            + data_name,
    }
}

/// The text naming a type by its outermost shape: a variable by its name, a
/// type constructor or synonym by its name, a natural by its digits, and
/// any other type by its kind.
pub open spec fn spec_type_text(t: TypeV) -> Seq<char> {
    match t {
        TypeV::Var(v, _) => v,
        TypeV::TyCon(n, _) => spec_tycon_text(n),
        TypeV::BoxedTyCon(n, _) => spec_tycon_text(n),
        TypeV::Syn(n, _) => spec_tycon_text(n),
        TypeV::Forall(_, _) => "Forall"@,
        TypeV::Struct(_) => "Struct"@,
        TypeV::Nat(n) => spec_nat_text(n as nat),
        TypeV::Unit => "Unit"@,
        TypeV::Bool => "Bool"@,
        TypeV::Int64 => "Int64"@,
        TypeV::Date => "Date"@,
        TypeV::Timestamp => "Timestamp"@,
        TypeV::Numeric(_) => "Numeric"@,
        TypeV::Party => "Party"@,
        TypeV::Text => "Text"@,
        TypeV::ContractId(_) => "ContractId"@,
        TypeV::Optional(_) => "Optional"@,
        TypeV::List(_) => "List"@,
        TypeV::GenMap(_) => "GenMap"@,
        TypeV::TextMap(_) => "TextMap"@,
        TypeV::Any => "Any"@,
        TypeV::AnyException => "AnyException"@,
        TypeV::TypeRep => "TypeRep"@,
        TypeV::Arrow => "Arrow"@,
        TypeV::Update => "Update"@,
        TypeV::Bignumeric => "Bignumeric"@,
        TypeV::FailureCategory => "FailureCategory"@,
        TypeV::RoundingMode => "RoundingMode"@,
    }
}

fn qualified_text(segments: &Vec<String>, data_name: &String) -> (text: String)
    ensures
        text@ == spec_join(names_view(segments@), "."@) + ":"@ + data_name@,
{
    let mut text = join(segments, ".");
    assert(names_view(segments@) =~= segments@.map_values(|s: String| s@));
    text.append(":");
    text.append(data_name.as_str());
    text
}

impl DamlTyConName {
    /// The text naming this type constructor: module path, colon, data name.
    pub fn to_text(&self) -> (text: String)
        ensures
            text@ == spec_tycon_text(self@),
    {
        match self {
            DamlTyConName::Local(l) => qualified_text(&l.module_segments, &l.data_name),
            DamlTyConName::NonLocal(n) => qualified_text(&n.module_segments, &n.data_name),
            DamlTyConName::Absolute(a) => qualified_text(&a.module_segments, &a.data_name),
        }
    }
}

impl DamlType {
    /// The text naming this type by its outermost shape.
    pub fn to_text(&self) -> (text: String)
        ensures
            text@ == spec_type_text(self@),
    {
        match self {
            DamlType::Var(v) => v.var.clone(),
            DamlType::TyCon(c) => c.tycon.to_text(),
            DamlType::BoxedTyCon(c) => c.tycon.to_text(),
            DamlType::Syn(s) => s.tysyn.to_text(),
            DamlType::Forall(_) => String::from_str("Forall"),
            DamlType::Struct(_) => String::from_str("Struct"),
            DamlType::Nat(n) => nat_text(*n as u64),
            DamlType::Unit => String::from_str("Unit"),
            DamlType::Bool => String::from_str("Bool"),
            DamlType::Int64 => String::from_str("Int64"),
            DamlType::Date => String::from_str("Date"),
            DamlType::Timestamp => String::from_str("Timestamp"),
            DamlType::Numeric(_) => String::from_str("Numeric"),
            DamlType::Party => String::from_str("Party"),
            DamlType::Text => String::from_str("Text"),
            DamlType::ContractId(_) => String::from_str("ContractId"),
            DamlType::Optional(_) => String::from_str("Optional"),
            DamlType::List(_) => String::from_str("List"),
            DamlType::GenMap(_) => String::from_str("GenMap"),
            DamlType::TextMap(_) => String::from_str("TextMap"),
            DamlType::Any => String::from_str("Any"),
            DamlType::AnyException => String::from_str("AnyException"),
            DamlType::TypeRep => String::from_str("TypeRep"),
            DamlType::Arrow => String::from_str("Arrow"),
            DamlType::Update => String::from_str("Update"),
            DamlType::Bignumeric => String::from_str("Bignumeric"),
            DamlType::FailureCategory => String::from_str("FailureCategory"),
            DamlType::RoundingMode => String::from_str("RoundingMode"),
        }
    }
}

} // verus!
