//! The packages a package refers to: the package ids of the type
//! constructors its definitions name.

use vstd::prelude::*;

use crate::element::data::{ChoiceV, DamlChoice, DamlData, DataV, TemplateV, TypeSynV};
use crate::element::interface::{interface_model, DamlInterface, InterfaceV, MethodV};
use crate::element::keyed::{find_key, key_position, lemma_key_position_bounds};
use crate::element::module::{child_key, lemma_modules_view, spec_lookup_path, DamlModule, ModuleV};
use crate::element::package::{DamlPackage, PackageV};
use crate::element::types::{
    fields_view, lemma_fields_view_index, lemma_types_view_index, type_view, types_view, DamlField, DamlTyConName,
    DamlType, FieldV, TyConNameV, TypeV,
};
use crate::text::str_eq;

verus! {

/// The type-constructor and synonym names within a type, in order.
pub open spec fn type_refs(t: TypeV) -> Seq<TyConNameV>
    decreases t, 1int,
{
    match t {
        TypeV::TyCon(n, args) => seq![n] + types_refs(args),
        TypeV::BoxedTyCon(n, args) => seq![n] + types_refs(args),
        TypeV::Syn(n, args) => seq![n] + types_refs(args),
        TypeV::ContractId(inner) => match inner {
            Some(b) => type_refs(*b),
            None => Seq::empty(),
        },
        TypeV::Numeric(args) => types_refs(args),
        TypeV::List(args) => types_refs(args),
        TypeV::TextMap(args) => types_refs(args),
        TypeV::GenMap(args) => types_refs(args),
        TypeV::Optional(args) => types_refs(args),
        TypeV::Var(_, args) => types_refs(args),
        TypeV::Forall(_, body) => type_refs(*body),
        TypeV::Struct(fields) => fields_refs(fields),
        _ => Seq::empty(),
    }
}

pub open spec fn types_refs(ts: Seq<TypeV>) -> Seq<TyConNameV>
    decreases ts, 0int,
{
    if ts.len() == 0 {
        Seq::empty()
    } else {
        types_refs(ts.drop_last()) + type_refs(ts.last())
    }
}

pub open spec fn fields_refs(fs: Seq<FieldV>) -> Seq<TyConNameV>
    decreases fs, 0int,
{
    if fs.len() == 0 {
        Seq::empty()
    } else {
        fields_refs(fs.drop_last()) + type_refs(fs.last().ty)
    }
}

/// The names within a choice: its argument, then its return type.
pub open spec fn choice_refs(c: ChoiceV) -> Seq<TyConNameV> {
    fields_refs(c.fields) + type_refs(c.return_type)
}

pub open spec fn choices_refs(cs: Seq<ChoiceV>) -> Seq<TyConNameV>
    decreases cs.len(),
{
    if cs.len() == 0 {
        Seq::empty()
    } else {
        choices_refs(cs.drop_last()) + choice_refs(cs.last())
    }
}

/// The names within a template: its fields, choices and key, then the
/// interfaces it implements.
pub open spec fn template_refs(t: TemplateV) -> Seq<TyConNameV> {
    fields_refs(t.fields) + choices_refs(t.choices) + match t.key {
        Some(k) => type_refs(k),
        None => Seq::empty(),
    } + t.implements
}

pub open spec fn data_refs(d: DataV) -> Seq<TyConNameV> {
    match d {
        DataV::Record(r) => fields_refs(r.fields),
        DataV::Variant(v) => fields_refs(v.fields),
        DataV::Enum(_) => Seq::empty(),
        DataV::Template(t) => template_refs(t),
    }
}

pub open spec fn datas_refs(ds: Seq<DataV>) -> Seq<TyConNameV>
    decreases ds.len(),
{
    if ds.len() == 0 {
        Seq::empty()
    } else {
        datas_refs(ds.drop_last()) + data_refs(ds.last())
    }
}

pub open spec fn methods_refs(ms: Seq<MethodV>) -> Seq<TyConNameV>
    decreases ms.len(),
{
    if ms.len() == 0 {
        Seq::empty()
    } else {
        methods_refs(ms.drop_last()) + type_refs(ms.last().ty)
    }
}

/// The names within an interface: its view, methods and choices, then the
/// interfaces it requires.
pub open spec fn interface_refs(i: InterfaceV) -> Seq<TyConNameV> {
    type_refs(i.view) + methods_refs(i.methods) + choices_refs(i.choices) + i.required_interfaces
}

pub open spec fn interfaces_refs(is: Seq<InterfaceV>) -> Seq<TyConNameV>
    decreases is.len(),
{
    if is.len() == 0 {
        Seq::empty()
    } else {
        interfaces_refs(is.drop_last()) + interface_refs(is.last())
    }
}

pub open spec fn synonyms_refs(ss: Seq<TypeSynV>) -> Seq<TyConNameV>
    decreases ss.len(),
{
    if ss.len() == 0 {
        Seq::empty()
    } else {
        synonyms_refs(ss.drop_last()) + type_refs(ss.last().ty)
    }
}

/// The names within a module tree: the module's data types, interfaces and
/// synonyms, then its children's.
pub open spec fn module_refs(m: ModuleV) -> Seq<TyConNameV>
    decreases m, 1int,
{
    datas_refs(m.data) + interfaces_refs(m.interfaces) + synonyms_refs(m.synonyms) + modules_refs(m.children)
}

pub open spec fn modules_refs(ms: Seq<ModuleV>) -> Seq<TyConNameV>
    decreases ms, 0int,
{
    if ms.len() == 0 {
        Seq::empty()
    } else {
        modules_refs(ms.drop_last()) + module_refs(ms.last())
    }
}

/// The package ids of `names` that are neither empty nor `self_id`, in
/// order.
pub open spec fn foreign_ids(names: Seq<TyConNameV>, self_id: Seq<char>) -> Seq<Seq<char>>
    decreases names.len(),
{
    if names.len() == 0 {
        Seq::empty()
    } else {
        let id = names.last().ref_package_id();
        foreign_ids(names.drop_last(), self_id) + if id.len() > 0 && id != self_id {
            seq![id]
        } else {
            Seq::empty()
        }
    }
}

/// The packages a package refers to.
pub open spec fn package_references(p: PackageV) -> Seq<Seq<char>> {
    foreign_ids(module_refs(p.root), p.package_id)
}

pub open spec fn ids_view(ids: Seq<String>) -> Seq<Seq<char>> {
    ids.map_values(|s: String| s@)
}

/// Whether the data type `d` names `n`: in a field of a record, variant or
/// template, in the argument or return type of a template's choice, in its
/// key, or as an interface it implements.
pub open spec fn data_names(d: DataV, n: TyConNameV) -> bool {
    match d {
        DataV::Record(r) => exists|f: int| 0 <= f < r.fields.len() && type_refs(#[trigger] r.fields[f].ty).contains(n),
        DataV::Variant(v) => exists|f: int| 0 <= f < v.fields.len() && type_refs(#[trigger] v.fields[f].ty).contains(n),
        DataV::Enum(_) => false,
        DataV::Template(t) => {
            ||| exists|f: int| 0 <= f < t.fields.len() && type_refs(#[trigger] t.fields[f].ty).contains(n)
            ||| exists|c: int| 0 <= c < t.choices.len() && choice_names(#[trigger] t.choices[c], n)
            ||| t.key matches Some(k) && type_refs(k).contains(n)
            ||| t.implements.contains(n)
        },
    }
}

/// Whether the choice `c` names `n`, in its argument or its return type.
pub open spec fn choice_names(c: ChoiceV, n: TyConNameV) -> bool {
    ||| exists|f: int| 0 <= f < c.fields.len() && type_refs(#[trigger] c.fields[f].ty).contains(n)
    ||| type_refs(c.return_type).contains(n)
}

/// Whether the interface `i` names `n`: in its view, a method, a choice, or
/// as an interface it requires.
pub open spec fn interface_names(i: InterfaceV, n: TyConNameV) -> bool {
    ||| type_refs(i.view).contains(n)
    ||| exists|j: int| 0 <= j < i.methods.len() && type_refs(#[trigger] i.methods[j].ty).contains(n)
    ||| exists|c: int| 0 <= c < i.choices.len() && choice_names(#[trigger] i.choices[c], n)
    ||| i.required_interfaces.contains(n)
}

/// Whether the package of `n` is reported among the packages `p` refers
/// to, where it is another package than `p`.
pub open spec fn reported(p: PackageV, n: TyConNameV) -> bool {
    n.ref_package_id().len() > 0 && n.ref_package_id() != p.package_id ==> package_references(p).contains(
        n.ref_package_id(),
    )
}

proof fn lemma_concat_has<T>(x: Seq<T>, y: Seq<T>, e: T)
    ensures
        x.contains(e) ==> (x + y).contains(e),
        y.contains(e) ==> (x + y).contains(e),
{
    if x.contains(e) {
        let i = choose|i: int| 0 <= i < x.len() && x[i] == e;
        assert((x + y)[i] == e);
    }
    if y.contains(e) {
        let i = choose|i: int| 0 <= i < y.len() && y[i] == e;
        assert((x + y)[x.len() + i] == e);
    }
}

proof fn lemma_fields_refs_has(fs: Seq<FieldV>, f: int, n: TyConNameV)
    requires
        0 <= f < fs.len(),
        type_refs(fs[f].ty).contains(n),
    ensures
        fields_refs(fs).contains(n),
    decreases fs.len(),
{
    if f == fs.len() - 1 {
        lemma_concat_has(fields_refs(fs.drop_last()), type_refs(fs.last().ty), n);
    } else {
        assert(fs.drop_last()[f] == fs[f]);
        lemma_fields_refs_has(fs.drop_last(), f, n);
        lemma_concat_has(fields_refs(fs.drop_last()), type_refs(fs.last().ty), n);
    }
}

proof fn lemma_methods_refs_has(ms: Seq<MethodV>, j: int, n: TyConNameV)
    requires
        0 <= j < ms.len(),
        type_refs(ms[j].ty).contains(n),
    ensures
        methods_refs(ms).contains(n),
    decreases ms.len(),
{
    if j < ms.len() - 1 {
        assert(ms.drop_last()[j] == ms[j]);
        lemma_methods_refs_has(ms.drop_last(), j, n);
    }
    lemma_concat_has(methods_refs(ms.drop_last()), type_refs(ms.last().ty), n);
}

proof fn lemma_choice_refs_has(c: ChoiceV, n: TyConNameV)
    requires
        choice_names(c, n),
    ensures
        choice_refs(c).contains(n),
{
    if exists|f: int| 0 <= f < c.fields.len() && type_refs(#[trigger] c.fields[f].ty).contains(n) {
        let f = choose|f: int| 0 <= f < c.fields.len() && type_refs(#[trigger] c.fields[f].ty).contains(n);
        lemma_fields_refs_has(c.fields, f, n);
    }
    lemma_concat_has(fields_refs(c.fields), type_refs(c.return_type), n);
}

proof fn lemma_choices_refs_has(cs: Seq<ChoiceV>, c: int, n: TyConNameV)
    requires
        0 <= c < cs.len(),
        choice_names(cs[c], n),
    ensures
        choices_refs(cs).contains(n),
    decreases cs.len(),
{
    if c < cs.len() - 1 {
        assert(cs.drop_last()[c] == cs[c]);
        lemma_choices_refs_has(cs.drop_last(), c, n);
    } else {
        lemma_choice_refs_has(cs[c], n);
    }
    lemma_concat_has(choices_refs(cs.drop_last()), choice_refs(cs.last()), n);
}

proof fn lemma_data_refs_has(d: DataV, n: TyConNameV)
    requires
        data_names(d, n),
    ensures
        data_refs(d).contains(n),
{
    match d {
        DataV::Record(r) => {
            let f = choose|f: int| 0 <= f < r.fields.len() && type_refs(#[trigger] r.fields[f].ty).contains(n);
            lemma_fields_refs_has(r.fields, f, n);
        },
        DataV::Variant(v) => {
            let f = choose|f: int| 0 <= f < v.fields.len() && type_refs(#[trigger] v.fields[f].ty).contains(n);
            lemma_fields_refs_has(v.fields, f, n);
        },
        DataV::Enum(_) => {},
        DataV::Template(t) => {
            let key_refs = match t.key {
                Some(k) => type_refs(k),
                None => Seq::<TyConNameV>::empty(),
            };
            if exists|f: int| 0 <= f < t.fields.len() && type_refs(#[trigger] t.fields[f].ty).contains(n) {
                let f = choose|f: int| 0 <= f < t.fields.len() && type_refs(#[trigger] t.fields[f].ty).contains(n);
                lemma_fields_refs_has(t.fields, f, n);
            }
            if exists|c: int| 0 <= c < t.choices.len() && choice_names(#[trigger] t.choices[c], n) {
                let c = choose|c: int| 0 <= c < t.choices.len() && choice_names(#[trigger] t.choices[c], n);
                lemma_choices_refs_has(t.choices, c, n);
            }
            lemma_concat_has(fields_refs(t.fields), choices_refs(t.choices), n);
            lemma_concat_has(fields_refs(t.fields) + choices_refs(t.choices), key_refs, n);
            lemma_concat_has(fields_refs(t.fields) + choices_refs(t.choices) + key_refs, t.implements, n);
        },
    }
}

proof fn lemma_datas_refs_has(ds: Seq<DataV>, d: int, n: TyConNameV)
    requires
        0 <= d < ds.len(),
        data_names(ds[d], n),
    ensures
        datas_refs(ds).contains(n),
    decreases ds.len(),
{
    if d < ds.len() - 1 {
        assert(ds.drop_last()[d] == ds[d]);
        lemma_datas_refs_has(ds.drop_last(), d, n);
    } else {
        lemma_data_refs_has(ds[d], n);
    }
    lemma_concat_has(datas_refs(ds.drop_last()), data_refs(ds.last()), n);
}

proof fn lemma_interface_refs_has(i: InterfaceV, n: TyConNameV)
    requires
        interface_names(i, n),
    ensures
        interface_refs(i).contains(n),
{
    if exists|j: int| 0 <= j < i.methods.len() && type_refs(#[trigger] i.methods[j].ty).contains(n) {
        let j = choose|j: int| 0 <= j < i.methods.len() && type_refs(#[trigger] i.methods[j].ty).contains(n);
        lemma_methods_refs_has(i.methods, j, n);
    }
    if exists|c: int| 0 <= c < i.choices.len() && choice_names(#[trigger] i.choices[c], n) {
        let c = choose|c: int| 0 <= c < i.choices.len() && choice_names(#[trigger] i.choices[c], n);
        lemma_choices_refs_has(i.choices, c, n);
    }
    lemma_concat_has(type_refs(i.view), methods_refs(i.methods), n);
    lemma_concat_has(type_refs(i.view) + methods_refs(i.methods), choices_refs(i.choices), n);
    lemma_concat_has(
        type_refs(i.view) + methods_refs(i.methods) + choices_refs(i.choices),
        i.required_interfaces,
        n,
    );
}

proof fn lemma_interfaces_refs_has(is: Seq<InterfaceV>, j: int, n: TyConNameV)
    requires
        0 <= j < is.len(),
        interface_names(is[j], n),
    ensures
        interfaces_refs(is).contains(n),
    decreases is.len(),
{
    if j < is.len() - 1 {
        assert(is.drop_last()[j] == is[j]);
        lemma_interfaces_refs_has(is.drop_last(), j, n);
    } else {
        lemma_interface_refs_has(is[j], n);
    }
    lemma_concat_has(interfaces_refs(is.drop_last()), interface_refs(is.last()), n);
}

proof fn lemma_modules_refs_has(ms: Seq<ModuleV>, j: int, n: TyConNameV)
    requires
        0 <= j < ms.len(),
        module_refs(ms[j]).contains(n),
    ensures
        modules_refs(ms).contains(n),
    decreases ms.len(),
{
    if j < ms.len() - 1 {
        assert(ms.drop_last()[j] == ms[j]);
        lemma_modules_refs_has(ms.drop_last(), j, n);
    }
    lemma_concat_has(modules_refs(ms.drop_last()), module_refs(ms.last()), n);
}

proof fn lemma_module_refs_path(root: ModuleV, path: Seq<Seq<char>>, m: ModuleV, n: TyConNameV)
    requires
        spec_lookup_path(root, path) == Some(m),
        module_refs(m).contains(n),
    ensures
        module_refs(root).contains(n),
    decreases path.len(),
{
    if path.len() > 0 {
        lemma_key_position_bounds(root.children, path[0], child_key());
        let pos = key_position(root.children, path[0], child_key());
        let c = root.children[pos];
        assert(find_key(root.children, path[0], child_key()) == Some(c));
        lemma_module_refs_path(c, path.drop_first(), m, n);
        lemma_modules_refs_has(root.children, pos, n);
        let own = datas_refs(root.data) + interfaces_refs(root.interfaces) + synonyms_refs(root.synonyms);
        lemma_concat_has(own, modules_refs(root.children), n);
    }
}

proof fn lemma_foreign_has(names: Seq<TyConNameV>, n: TyConNameV, self_id: Seq<char>)
    requires
        names.contains(n),
        n.ref_package_id().len() > 0,
        n.ref_package_id() != self_id,
    ensures
        foreign_ids(names, self_id).contains(n.ref_package_id()),
    decreases names.len(),
{
    let id = n.ref_package_id();
    let init = names.drop_last();
    let tail = if names.last().ref_package_id().len() > 0 && names.last().ref_package_id() != self_id {
        seq![names.last().ref_package_id()]
    } else {
        Seq::<Seq<char>>::empty()
    };
    let i = choose|i: int| 0 <= i < names.len() && names[i] == n;
    if i == names.len() - 1 {
        assert(tail[0] == id);
        lemma_concat_has(foreign_ids(init, self_id), tail, id);
    } else {
        assert(init[i] == n);
        lemma_foreign_has(init, n, self_id);
        lemma_concat_has(foreign_ids(init, self_id), tail, id);
    }
}

/// The types directly inside a type: its arguments, the type a contract id
/// points at, a quantified body, or a struct's field types.
pub open spec fn components(t: TypeV) -> Seq<TypeV> {
    match t {
        TypeV::TyCon(_, args) => args,
        TypeV::BoxedTyCon(_, args) => args,
        TypeV::Syn(_, args) => args,
        TypeV::Var(_, args) => args,
        TypeV::Numeric(args) => args,
        TypeV::List(args) => args,
        TypeV::TextMap(args) => args,
        TypeV::GenMap(args) => args,
        TypeV::Optional(args) => args,
        TypeV::ContractId(inner) => match inner {
            Some(b) => seq![*b],
            None => Seq::empty(),
        },
        TypeV::Forall(_, body) => seq![*body],
        TypeV::Struct(fields) => fields.map_values(|f: FieldV| f.ty),
        _ => Seq::empty(),
    }
}

proof fn lemma_types_refs_has(ts: Seq<TypeV>, j: int, n: TyConNameV)
    requires
        0 <= j < ts.len(),
        type_refs(ts[j]).contains(n),
    ensures
        types_refs(ts).contains(n),
    decreases ts.len(),
{
    if j < ts.len() - 1 {
        assert(ts.drop_last()[j] == ts[j]);
        lemma_types_refs_has(ts.drop_last(), j, n);
    }
    lemma_concat_has(types_refs(ts.drop_last()), type_refs(ts.last()), n);
}

/// The names within a type are its own name, where it applies a type
/// constructor or a synonym, and every name within each type directly
/// inside it.
pub proof fn law_type_refs_cover_components(t: TypeV, j: int, n: TyConNameV)
    ensures
        t matches TypeV::TyCon(m, _) ==> type_refs(t).contains(m),
        t matches TypeV::BoxedTyCon(m, _) ==> type_refs(t).contains(m),
        t matches TypeV::Syn(m, _) ==> type_refs(t).contains(m),
        0 <= j < components(t).len() && type_refs(components(t)[j]).contains(n) ==> type_refs(t).contains(n),
{
    match t {
        TypeV::TyCon(m, args) => {
            lemma_concat_has(seq![m], types_refs(args), m);
            assert(seq![m][0] == m);
            if 0 <= j < args.len() && type_refs(args[j]).contains(n) {
                lemma_types_refs_has(args, j, n);
                lemma_concat_has(seq![m], types_refs(args), n);
            }
        },
        TypeV::BoxedTyCon(m, args) => {
            lemma_concat_has(seq![m], types_refs(args), m);
            assert(seq![m][0] == m);
            if 0 <= j < args.len() && type_refs(args[j]).contains(n) {
                lemma_types_refs_has(args, j, n);
                lemma_concat_has(seq![m], types_refs(args), n);
            }
        },
        TypeV::Syn(m, args) => {
            lemma_concat_has(seq![m], types_refs(args), m);
            assert(seq![m][0] == m);
            if 0 <= j < args.len() && type_refs(args[j]).contains(n) {
                lemma_types_refs_has(args, j, n);
                lemma_concat_has(seq![m], types_refs(args), n);
            }
        },
        TypeV::Var(_, args) => {
            if 0 <= j < args.len() && type_refs(args[j]).contains(n) {
                lemma_types_refs_has(args, j, n);
            }
        },
        TypeV::Numeric(args) => {
            if 0 <= j < args.len() && type_refs(args[j]).contains(n) {
                lemma_types_refs_has(args, j, n);
            }
        },
        TypeV::List(args) => {
            if 0 <= j < args.len() && type_refs(args[j]).contains(n) {
                lemma_types_refs_has(args, j, n);
            }
        },
        TypeV::TextMap(args) => {
            if 0 <= j < args.len() && type_refs(args[j]).contains(n) {
                lemma_types_refs_has(args, j, n);
            }
        },
        TypeV::GenMap(args) => {
            if 0 <= j < args.len() && type_refs(args[j]).contains(n) {
                lemma_types_refs_has(args, j, n);
            }
        },
        TypeV::Optional(args) => {
            if 0 <= j < args.len() && type_refs(args[j]).contains(n) {
                lemma_types_refs_has(args, j, n);
            }
        },
        TypeV::Struct(fields) => {
            if 0 <= j < fields.len() && type_refs(components(t)[j]).contains(n) {
                assert(components(t)[j] == fields[j].ty);
                lemma_fields_refs_has(fields, j, n);
            }
        },
        _ => {},
    }
}

/// Every type constructor that a data type or an interface of any module of
/// a package names, in a field, a choice's argument or return type, a key,
/// a view, a method, or as an implemented or required interface, has its
/// package reported among the packages the package refers to, where that is
/// another package.
pub proof fn law_references_cover_definitions(
    p: PackageV,
    path: Seq<Seq<char>>,
    m: ModuleV,
    n: TyConNameV,
)
    requires
        spec_lookup_path(p.root, path) == Some(m),
        (exists|d: int| 0 <= d < m.data.len() && data_names(#[trigger] m.data[d], n)) || (exists|i: int|
            0 <= i < m.interfaces.len() && interface_names(#[trigger] m.interfaces[i], n)),
    ensures
        reported(p, n),
{
    if exists|d: int| 0 <= d < m.data.len() && data_names(#[trigger] m.data[d], n) {
        let d = choose|d: int| 0 <= d < m.data.len() && data_names(#[trigger] m.data[d], n);
        lemma_datas_refs_has(m.data, d, n);
        lemma_concat_has(datas_refs(m.data), interfaces_refs(m.interfaces), n);
    } else {
        let i = choose|i: int| 0 <= i < m.interfaces.len() && interface_names(#[trigger] m.interfaces[i], n);
        lemma_interfaces_refs_has(m.interfaces, i, n);
        lemma_concat_has(datas_refs(m.data), interfaces_refs(m.interfaces), n);
    }
    let own = datas_refs(m.data) + interfaces_refs(m.interfaces);
    lemma_concat_has(own, synonyms_refs(m.synonyms), n);
    lemma_concat_has(own + synonyms_refs(m.synonyms), modules_refs(m.children), n);
    lemma_module_refs_path(p.root, path, m, n);
    if n.ref_package_id().len() > 0 && n.ref_package_id() != p.package_id {
        lemma_foreign_has(module_refs(p.root), n, p.package_id);
    }
}

/// Foreign ids distribute over concatenation.
pub proof fn lemma_foreign_ids_concat(a: Seq<TyConNameV>, b: Seq<TyConNameV>, self_id: Seq<char>)
    ensures
        foreign_ids(a + b, self_id) == foreign_ids(a, self_id) + foreign_ids(b, self_id),
    decreases b.len(),
{
    if b.len() == 0 {
        assert(a + b =~= a);
        assert(foreign_ids(a, self_id) + foreign_ids(b, self_id) =~= foreign_ids(a, self_id));
    } else {
        lemma_foreign_ids_concat(a, b.drop_last(), self_id);
        assert((a + b).drop_last() =~= a + b.drop_last());
        assert((a + b).last() == b.last());
    }
}

/// The reference of one name appended.
fn push_ref(out: &mut Vec<String>, name: &DamlTyConName, self_id: &str)
    ensures
        ids_view(final(out)@) == ids_view(old(out)@) + foreign_ids(seq![name@], self_id@),
{
    let (id, _, _) = name.reference_parts();
    assert(seq![name@].drop_last() =~= Seq::<TyConNameV>::empty());
    assert(seq![name@].last() == name@);
    assert(foreign_ids(Seq::<TyConNameV>::empty(), self_id@) == Seq::<Seq<char>>::empty());
    assert(foreign_ids(seq![name@], self_id@) == Seq::<Seq<char>>::empty() + if id@.len() > 0 && id@ != self_id@ {
        seq![id@]
    } else {
        Seq::<Seq<char>>::empty()
    });
    let ghost before = out@;
    if id.unicode_len() > 0 && !str_eq(id, self_id) {
        out.push(String::from_str(id));
        assert(ids_view(out@) =~= ids_view(before) + seq![id@]);
    } else {
        assert(ids_view(out@) =~= ids_view(before) + Seq::<Seq<char>>::empty());
    }
}

/// The references of a list of names appended.
fn push_refs(out: &mut Vec<String>, names: &Vec<DamlTyConName>, self_id: &str)
    ensures
        ids_view(final(out)@) == ids_view(old(out)@) + foreign_ids(names@.map_values(|n: DamlTyConName| n@), self_id@),
{
    let ghost ns = names@.map_values(|n: DamlTyConName| n@);
    let ghost base = ids_view(out@);
    let mut k: usize = 0;
    assert(ns.take(0) =~= Seq::<TyConNameV>::empty());
    while k < names.len()
        invariant
            0 <= k <= names.len(),
            ns == names@.map_values(|n: DamlTyConName| n@),
            ids_view(out@) == base + foreign_ids(ns.take(k as int), self_id@),
        decreases names.len() - k,
    {
        push_ref(out, &names[k], self_id);
        proof {
            assert(ns.take(k + 1) =~= ns.take(k as int) + seq![names@[k as int]@]);
            lemma_foreign_ids_concat(ns.take(k as int), seq![names@[k as int]@], self_id@);
        }
        k += 1;
    }
    assert(ns.take(k as int) =~= ns);
}

/// The references within a type appended.
fn push_type_refs(out: &mut Vec<String>, ty: &DamlType, self_id: &str)
    ensures
        ids_view(final(out)@) == ids_view(old(out)@) + foreign_ids(type_refs(ty@), self_id@),
    decreases *ty, 1int,
{
    let ghost base = ids_view(out@);
    match ty {
        DamlType::TyCon(c) => {
            push_ref(out, &c.tycon, self_id);
            push_types_refs(out, &c.type_arguments, self_id);
            proof {
                lemma_foreign_ids_concat(seq![(*c.tycon)@], types_refs(types_view(c.type_arguments@)), self_id@);
            }
        },
        DamlType::BoxedTyCon(c) => {
            push_ref(out, &c.tycon, self_id);
            push_types_refs(out, &c.type_arguments, self_id);
            proof {
                lemma_foreign_ids_concat(seq![(*c.tycon)@], types_refs(types_view(c.type_arguments@)), self_id@);
            }
        },
        DamlType::Syn(s) => {
            push_ref(out, &s.tysyn, self_id);
            push_types_refs(out, &s.args, self_id);
            proof {
                lemma_foreign_ids_concat(seq![(*s.tysyn)@], types_refs(types_view(s.args@)), self_id@);
            }
        },
        DamlType::ContractId(inner) => {
            match inner {
                Some(b) => push_type_refs(out, b, self_id),
                None => {
                    assert(ids_view(out@) =~= base + Seq::<Seq<char>>::empty());
                },
            }
        },
        DamlType::Numeric(args) => push_types_refs(out, args, self_id),
        DamlType::List(args) => push_types_refs(out, args, self_id),
        DamlType::TextMap(args) => push_types_refs(out, args, self_id),
        DamlType::GenMap(args) => push_types_refs(out, args, self_id),
        DamlType::Optional(args) => push_types_refs(out, args, self_id),
        DamlType::Var(v) => push_types_refs(out, &v.type_arguments, self_id),
        DamlType::Forall(f) => push_type_refs(out, &f.body, self_id),
        DamlType::Struct(st) => push_fields_refs(out, &st.fields, self_id),
        _ => {
            assert(ids_view(out@) =~= base + Seq::<Seq<char>>::empty());
        },
    }
}

/// The references within a list of types appended.
fn push_types_refs(out: &mut Vec<String>, ts: &Vec<DamlType>, self_id: &str)
    ensures
        ids_view(final(out)@) == ids_view(old(out)@) + foreign_ids(types_refs(types_view(ts@)), self_id@),
    decreases ts@, 0int,
{
    proof {
        lemma_types_view_index(ts@);
    }
    let ghost tv = types_view(ts@);
    let ghost base = ids_view(out@);
    let mut k: usize = 0;
    assert(tv.take(0) =~= Seq::<TypeV>::empty());
    while k < ts.len()
        invariant
            0 <= k <= ts.len(),
            tv == types_view(ts@),
            tv.len() == ts@.len(),
            forall|i: int| 0 <= i < ts@.len() ==> #[trigger] tv[i] == type_view(ts@[i]),
            ids_view(out@) == base + foreign_ids(types_refs(tv.take(k as int)), self_id@),
        decreases ts.len() - k,
    {
        push_type_refs(out, &ts[k], self_id);
        proof {
            assert(tv.take(k + 1).drop_last() =~= tv.take(k as int));
            assert(tv.take(k + 1).last() == tv[k as int]);
            lemma_foreign_ids_concat(types_refs(tv.take(k as int)), type_refs(tv[k as int]), self_id@);
        }
        k += 1;
    }
    assert(tv.take(k as int) =~= tv);
}

/// The references within the types of a list of fields appended.
fn push_fields_refs(out: &mut Vec<String>, fs: &Vec<DamlField>, self_id: &str)
    ensures
        ids_view(final(out)@) == ids_view(old(out)@) + foreign_ids(fields_refs(fields_view(fs@)), self_id@),
    decreases fs@, 0int,
{
    proof {
        lemma_fields_view_index(fs@);
    }
    let ghost fv = fields_view(fs@);
    let ghost base = ids_view(out@);
    let mut k: usize = 0;
    assert(fv.take(0) =~= Seq::<FieldV>::empty());
    while k < fs.len()
        invariant
            0 <= k <= fs.len(),
            fv == fields_view(fs@),
            fv.len() == fs@.len(),
            forall|i: int| 0 <= i < fs@.len() ==> #[trigger] fv[i] == (FieldV { name: fs@[i].name@, ty: type_view(fs@[i].ty) }),
            ids_view(out@) == base + foreign_ids(fields_refs(fv.take(k as int)), self_id@),
        decreases fs.len() - k,
    {
        push_type_refs(out, &fs[k].ty, self_id);
        proof {
            assert(fv.take(k + 1).drop_last() =~= fv.take(k as int));
            assert(fv.take(k + 1).last() == fv[k as int]);
            lemma_foreign_ids_concat(fields_refs(fv.take(k as int)), type_refs(fv[k as int].ty), self_id@);
        }
        k += 1;
    }
    assert(fv.take(k as int) =~= fv);
}

/// The references within a choice appended.
fn push_choice_refs(out: &mut Vec<String>, c: &DamlChoice, self_id: &str)
    ensures
        ids_view(final(out)@) == ids_view(old(out)@) + foreign_ids(choice_refs(c@), self_id@),
{
    push_fields_refs(out, &c.fields, self_id);
    push_type_refs(out, &c.return_type, self_id);
    proof {
        lemma_foreign_ids_concat(fields_refs(fields_view(c.fields@)), type_refs(c.return_type@), self_id@);
    }
}

/// The references within a list of choices appended.
fn push_choices_refs(out: &mut Vec<String>, cs: &Vec<DamlChoice>, self_id: &str)
    ensures
        ids_view(final(out)@) == ids_view(old(out)@) + foreign_ids(
            choices_refs(cs@.map_values(|c: DamlChoice| c@)),
            self_id@,
        ),
{
    let ghost cv = cs@.map_values(|c: DamlChoice| c@);
    let ghost base = ids_view(out@);
    let mut k: usize = 0;
    assert(cv.take(0) =~= Seq::<ChoiceV>::empty());
    while k < cs.len()
        invariant
            0 <= k <= cs.len(),
            cv == cs@.map_values(|c: DamlChoice| c@),
            ids_view(out@) == base + foreign_ids(choices_refs(cv.take(k as int)), self_id@),
        decreases cs.len() - k,
    {
        push_choice_refs(out, &cs[k], self_id);
        proof {
            assert(cv.take(k + 1).drop_last() =~= cv.take(k as int));
            assert(cv.take(k + 1).last() == cv[k as int]);
            lemma_foreign_ids_concat(choices_refs(cv.take(k as int)), choice_refs(cv[k as int]), self_id@);
        }
        k += 1;
    }
    assert(cv.take(k as int) =~= cv);
}

/// The references within a data type appended.
fn push_data_refs(out: &mut Vec<String>, d: &DamlData, self_id: &str)
    ensures
        ids_view(final(out)@) == ids_view(old(out)@) + foreign_ids(data_refs(d@), self_id@),
{
    let ghost base = ids_view(out@);
    match d {
        DamlData::Record(r) => push_fields_refs(out, &r.fields, self_id),
        DamlData::Variant(v) => push_fields_refs(out, &v.fields, self_id),
        DamlData::Enum(_) => {
            assert(ids_view(out@) =~= base + Seq::<Seq<char>>::empty());
        },
        DamlData::Template(t) => {
            let ghost tv = (**t)@;
            push_fields_refs(out, &t.fields, self_id);
            push_choices_refs(out, &t.choices, self_id);
            let ghost key_refs = match tv.key {
                Some(k) => type_refs(k),
                None => Seq::empty(),
            };
            match &t.key {
                Some(k) => push_type_refs(out, &k.ty, self_id),
                None => {
                    assert(foreign_ids(key_refs, self_id@) =~= Seq::<Seq<char>>::empty());
                    assert(ids_view(out@) =~= ids_view(out@) + foreign_ids(key_refs, self_id@));
                },
            }
            push_refs(out, &t.implements, self_id);
            proof {
                lemma_foreign_ids_concat(fields_refs(tv.fields), choices_refs(tv.choices), self_id@);
                lemma_foreign_ids_concat(fields_refs(tv.fields) + choices_refs(tv.choices), key_refs, self_id@);
                lemma_foreign_ids_concat(
                    fields_refs(tv.fields) + choices_refs(tv.choices) + key_refs,
                    tv.implements,
                    self_id@,
                );
            }
        },
    }
}

/// The references within a list of data types appended.
fn push_datas_refs(out: &mut Vec<String>, ds: &Vec<DamlData>, self_id: &str)
    ensures
        ids_view(final(out)@) == ids_view(old(out)@) + foreign_ids(
            datas_refs(ds@.map_values(|d: DamlData| d@)),
            self_id@,
        ),
{
    let ghost dv = ds@.map_values(|d: DamlData| d@);
    let ghost base = ids_view(out@);
    let mut k: usize = 0;
    assert(dv.take(0) =~= Seq::<DataV>::empty());
    while k < ds.len()
        invariant
            0 <= k <= ds.len(),
            dv == ds@.map_values(|d: DamlData| d@),
            ids_view(out@) == base + foreign_ids(datas_refs(dv.take(k as int)), self_id@),
        decreases ds.len() - k,
    {
        push_data_refs(out, &ds[k], self_id);
        proof {
            assert(dv.take(k + 1).drop_last() =~= dv.take(k as int));
            assert(dv.take(k + 1).last() == dv[k as int]);
            lemma_foreign_ids_concat(datas_refs(dv.take(k as int)), data_refs(dv[k as int]), self_id@);
        }
        k += 1;
    }
    assert(dv.take(k as int) =~= dv);
}

/// The references within an interface appended.
fn push_interface_refs(out: &mut Vec<String>, i: &DamlInterface, self_id: &str)
    ensures
        ids_view(final(out)@) == ids_view(old(out)@) + foreign_ids(interface_refs(interface_model(*i)), self_id@),
{
    let ghost iv = interface_model(*i);
    push_type_refs(out, &i.view, self_id);
    let ghost mv = iv.methods;
    let ghost after_view = ids_view(out@);
    let mut k: usize = 0;
    assert(mv.take(0) =~= Seq::<MethodV>::empty());
    while k < i.methods.len()
        invariant
            0 <= k <= i.methods.len(),
            mv == interface_model(*i).methods,
            mv.len() == i.methods@.len(),
            ids_view(out@) == after_view + foreign_ids(methods_refs(mv.take(k as int)), self_id@),
        decreases i.methods.len() - k,
    {
        push_type_refs(out, &i.methods[k].ty, self_id);
        proof {
            assert(mv.take(k + 1).drop_last() =~= mv.take(k as int));
            assert(mv.take(k + 1).last() == mv[k as int]);
            lemma_foreign_ids_concat(methods_refs(mv.take(k as int)), type_refs(mv[k as int].ty), self_id@);
        }
        k += 1;
    }
    assert(mv.take(k as int) =~= mv);
    push_choices_refs(out, &i.choices, self_id);
    push_refs(out, &i.required_interfaces, self_id);
    proof {
        lemma_foreign_ids_concat(type_refs(iv.view), methods_refs(iv.methods), self_id@);
        lemma_foreign_ids_concat(type_refs(iv.view) + methods_refs(iv.methods), choices_refs(iv.choices), self_id@);
        lemma_foreign_ids_concat(
            type_refs(iv.view) + methods_refs(iv.methods) + choices_refs(iv.choices),
            iv.required_interfaces,
            self_id@,
        );
    }
}

/// The references within a module tree appended: its data types, interfaces
/// and synonyms, then its children's, in order.
fn push_module_refs(out: &mut Vec<String>, m: &DamlModule, self_id: &str)
    ensures
        ids_view(final(out)@) == ids_view(old(out)@) + foreign_ids(module_refs(m@), self_id@),
    decreases *m,
{
    let ghost mv = m@;
    let ghost start = ids_view(out@);
    push_datas_refs(out, &m.data_types, self_id);
    let ghost after_data = ids_view(out@);
    let ghost is = mv.interfaces;
    let mut k: usize = 0;
    assert(is.take(0) =~= Seq::<InterfaceV>::empty());
    while k < m.interfaces.len()
        invariant
            0 <= k <= m.interfaces.len(),
            is == m@.interfaces,
            is.len() == m.interfaces@.len(),
            ids_view(out@) == after_data + foreign_ids(interfaces_refs(is.take(k as int)), self_id@),
        decreases m.interfaces.len() - k,
    {
        push_interface_refs(out, &m.interfaces[k], self_id);
        proof {
            assert(is.take(k + 1).drop_last() =~= is.take(k as int));
            assert(is.take(k + 1).last() == is[k as int]);
            lemma_foreign_ids_concat(interfaces_refs(is.take(k as int)), interface_refs(is[k as int]), self_id@);
        }
        k += 1;
    }
    assert(is.take(k as int) =~= is);
    let ghost after_interfaces = ids_view(out@);
    let ghost ss = mv.synonyms;
    let mut k: usize = 0;
    assert(ss.take(0) =~= Seq::<TypeSynV>::empty());
    while k < m.synonyms.len()
        invariant
            0 <= k <= m.synonyms.len(),
            ss == m@.synonyms,
            ss.len() == m.synonyms@.len(),
            ids_view(out@) == after_interfaces + foreign_ids(synonyms_refs(ss.take(k as int)), self_id@),
        decreases m.synonyms.len() - k,
    {
        push_type_refs(out, &m.synonyms[k].ty, self_id);
        proof {
            assert(ss.take(k + 1).drop_last() =~= ss.take(k as int));
            assert(ss.take(k + 1).last() == ss[k as int]);
            lemma_foreign_ids_concat(synonyms_refs(ss.take(k as int)), type_refs(ss[k as int].ty), self_id@);
        }
        k += 1;
    }
    assert(ss.take(k as int) =~= ss);
    let ghost after_synonyms = ids_view(out@);
    proof {
        lemma_modules_view(m.child_modules@);
    }
    let ghost cs = mv.children;
    let mut k: usize = 0;
    assert(cs.take(0) =~= Seq::<ModuleV>::empty());
    while k < m.child_modules.len()
        invariant
            0 <= k <= m.child_modules.len(),
            cs == m@.children,
            cs.len() == m.child_modules@.len(),
            forall|i: int| 0 <= i < cs.len() ==> #[trigger] cs[i] == m.child_modules@[i]@,
            ids_view(out@) == after_synonyms + foreign_ids(modules_refs(cs.take(k as int)), self_id@),
        decreases m.child_modules.len() - k,
    {
        push_module_refs(out, &m.child_modules[k], self_id);
        proof {
            assert(cs.take(k + 1).drop_last() =~= cs.take(k as int));
            assert(cs.take(k + 1).last() == cs[k as int]);
            lemma_foreign_ids_concat(modules_refs(cs.take(k as int)), module_refs(cs[k as int]), self_id@);
        }
        k += 1;
    }
    assert(cs.take(k as int) =~= cs);
    proof {
        lemma_foreign_ids_concat(datas_refs(mv.data), interfaces_refs(mv.interfaces), self_id@);
        lemma_foreign_ids_concat(datas_refs(mv.data) + interfaces_refs(mv.interfaces), synonyms_refs(mv.synonyms), self_id@);
        lemma_foreign_ids_concat(
            datas_refs(mv.data) + interfaces_refs(mv.interfaces) + synonyms_refs(mv.synonyms),
            modules_refs(mv.children),
            self_id@,
        );
    }
}

/// The ids of the packages a package refers to: those of the type
/// constructors its definitions name, but for its own and empty ones, in
/// order of appearance, possibly more than once.
pub fn package_references_of(package: &DamlPackage) -> (ids: Vec<String>)
    ensures
        ids_view(ids@) == package_references(package@),
{
    let mut out: Vec<String> = Vec::new();
    assert(ids_view(out@) =~= Seq::<Seq<char>>::empty());
    push_module_refs(&mut out, &package.root_module, package.package_id.as_str());
    assert(ids_view(out@) =~= Seq::<Seq<char>>::empty() + package_references(package@));
    out
}

} // verus!
