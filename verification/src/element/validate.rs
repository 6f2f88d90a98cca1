//! Validation of an archive: every type-constructor reference resolves, every
//! choice takes a record and every interface view is a record.

use vstd::prelude::*;

use crate::element::data::{tycon_names_view, ChoiceV, DamlChoice, DamlData, DamlTemplate, DataV, RecordV, TemplateV};
use crate::element::interface::{interface_model, DamlInterface, InterfaceV, MethodV};
use crate::element::keyed::{key_position, lemma_key_position_bounds};
use crate::element::module::{child_key, lemma_modules_view, spec_lookup_path, DamlModule, ModuleV};
use crate::element::package::{
    packages_view, spec_data_by_name, spec_find_package, spec_interface_by_name, spec_module_at, DamlArchive,
    ArchiveV, PackageV,
};
use crate::element::types::{
    fields_view, lemma_fields_view_index, lemma_types_view_index, names_view, type_view, types_view, DamlField,
    spec_type_text, DamlTyConName, DamlType, FieldV, TyConNameV, TypeV,
};
use crate::error::{ConvertErrorV, DamlLfConvertError, DamlLfConvertResult};
use crate::results::{first_error, lemma_first_error_at, lemma_first_error_none, lemma_first_error_none_all, or_else};
use crate::text::{join, spec_join};

verus! {

/// The error of a result without a value, if it holds one.
pub open spec fn error_of(r: DamlLfConvertResult<()>) -> Option<ConvertErrorV> {
    match r {
        Ok(_) => None,
        Err(e) => Some(e@),
    }
}

pub open spec fn record_text() -> Seq<char> {
    seq!['R', 'e', 'c', 'o', 'r', 'd']
}

/// The error a type-constructor reference raises: none when it names a data
/// type or an interface; otherwise the first of its package, module and data
/// name that is missing.
pub open spec fn spec_tycon_error(a: ArchiveV, n: TyConNameV) -> Option<ConvertErrorV> {
    if spec_data_by_name(a, n) is Some || spec_interface_by_name(a, n) is Some {
        None
    } else if spec_find_package(a, n.ref_package_id()) is None {
        Some(ConvertErrorV::UnknownPackage(n.ref_package_id()))
    } else if spec_module_at(a, n.ref_package_id(), n.ref_module_segments()) is None {
        Some(ConvertErrorV::UnknownModule(spec_join(n.ref_module_segments(), seq!['.'])))
    } else {
        Some(ConvertErrorV::UnknownData(n.ref_data_name()))
    }
}

/// The first error within a type: its own reference first, then its
/// component types, the last one first.
pub open spec fn spec_type_error(a: ArchiveV, t: TypeV) -> Option<ConvertErrorV>
    decreases t, 1int,
{
    match t {
        TypeV::TyCon(n, args) => or_else(spec_tycon_error(a, n), spec_types_error(a, args)),
        TypeV::BoxedTyCon(n, args) => or_else(spec_tycon_error(a, n), spec_types_error(a, args)),
        TypeV::ContractId(inner) => match inner {
            Some(b) => spec_type_error(a, *b),
            None => None,
        },
        TypeV::Numeric(args) => spec_types_error(a, args),
        TypeV::List(args) => spec_types_error(a, args),
        TypeV::TextMap(args) => spec_types_error(a, args),
        TypeV::GenMap(args) => spec_types_error(a, args),
        TypeV::Optional(args) => spec_types_error(a, args),
        TypeV::Var(_, args) => spec_types_error(a, args),
        TypeV::Forall(_, body) => spec_type_error(a, *body),
        TypeV::Struct(fields) => spec_fields_error(a, fields),
        TypeV::Syn(_, args) => spec_types_error(a, args),
        _ => None,
    }
}

/// The first error within a list of types, the last one first.
pub open spec fn spec_types_error(a: ArchiveV, ts: Seq<TypeV>) -> Option<ConvertErrorV>
    decreases ts, 0int,
{
    if ts.len() == 0 {
        None
    } else {
        or_else(spec_type_error(a, ts.last()), spec_types_error(a, ts.drop_last()))
    }
}

/// The first error within the types of a list of fields, the last one first.
pub open spec fn spec_fields_error(a: ArchiveV, fs: Seq<FieldV>) -> Option<ConvertErrorV>
    decreases fs, 0int,
{
    if fs.len() == 0 {
        None
    } else {
        or_else(spec_type_error(a, fs.last().ty), spec_fields_error(a, fs.drop_last()))
    }
}

/// The number of nodes of a type.
pub open spec fn type_size(t: TypeV) -> nat
    decreases t, 1int,
{
    match t {
        TypeV::TyCon(_, args) => 1 + types_size(args),
        TypeV::BoxedTyCon(_, args) => 1 + types_size(args),
        TypeV::ContractId(inner) => match inner {
            Some(b) => 1 + type_size(*b),
            None => 1,
        },
        TypeV::Numeric(args) => 1 + types_size(args),
        TypeV::List(args) => 1 + types_size(args),
        TypeV::TextMap(args) => 1 + types_size(args),
        TypeV::GenMap(args) => 1 + types_size(args),
        TypeV::Optional(args) => 1 + types_size(args),
        TypeV::Var(_, args) => 1 + types_size(args),
        TypeV::Forall(_, body) => 1 + type_size(*body),
        TypeV::Struct(fields) => 1 + fields_size(fields),
        TypeV::Syn(_, args) => 1 + types_size(args),
        _ => 1,
    }
}

pub open spec fn types_size(ts: Seq<TypeV>) -> nat
    decreases ts, 0int,
{
    if ts.len() == 0 {
        0
    } else {
        types_size(ts.drop_last()) + type_size(ts.last())
    }
}

pub open spec fn fields_size(fs: Seq<FieldV>) -> nat
    decreases fs, 0int,
{
    if fs.len() == 0 {
        0
    } else {
        fields_size(fs.drop_last()) + type_size(fs.last().ty)
    }
}

/// The types of a list of fields.
pub open spec fn field_types(fs: Seq<FieldV>) -> Seq<TypeV> {
    fs.map_values(|f: FieldV| f.ty)
}

/// Whether a type is a type constructor naming a record.
pub open spec fn spec_resolves_to_record(a: ArchiveV, t: TypeV) -> bool {
    match t {
        TypeV::TyCon(n, _) => spec_data_by_name(a, n) matches Some(DataV::Record(_)),
        TypeV::BoxedTyCon(n, _) => spec_data_by_name(a, n) matches Some(DataV::Record(_)),
        _ => false,
    }
}

/// The first error of a choice: its argument must be a record; then the
/// argument type and the return type.
pub open spec fn spec_choice_error(a: ArchiveV, c: ChoiceV) -> Option<ConvertErrorV> {
    if c.fields.len() == 0 || !spec_resolves_to_record(a, c.fields[0].ty) {
        Some(ConvertErrorV::UnexpectedChoiceData)
    } else {
        or_else(spec_type_error(a, c.fields[0].ty), spec_type_error(a, c.return_type))
    }
}

pub open spec fn field_check(a: ArchiveV) -> spec_fn(FieldV) -> Option<ConvertErrorV> {
    |f: FieldV| spec_type_error(a, f.ty)
}

pub open spec fn choice_check(a: ArchiveV) -> spec_fn(ChoiceV) -> Option<ConvertErrorV> {
    |c: ChoiceV| spec_choice_error(a, c)
}

pub open spec fn method_check(a: ArchiveV) -> spec_fn(MethodV) -> Option<ConvertErrorV> {
    |m: MethodV| spec_type_error(a, m.ty)
}

pub open spec fn required_check(a: ArchiveV) -> spec_fn(TyConNameV) -> Option<ConvertErrorV> {
    |n: TyConNameV| spec_tycon_error(a, n)
}

pub open spec fn data_check(a: ArchiveV) -> spec_fn(DataV) -> Option<ConvertErrorV> {
    |d: DataV| spec_data_error(a, d)
}

pub open spec fn interface_check(a: ArchiveV) -> spec_fn(InterfaceV) -> Option<ConvertErrorV> {
    |i: InterfaceV| spec_interface_error(a, i)
}

/// The first error among the types of some fields, in order.
pub open spec fn spec_field_list_error(a: ArchiveV, fs: Seq<FieldV>) -> Option<ConvertErrorV> {
    first_error(fs, field_check(a))
}

/// The first error of a template: its fields, its choices, its key, then
/// the interfaces it implements.
pub open spec fn spec_template_error(a: ArchiveV, t: TemplateV) -> Option<ConvertErrorV> {
    or_else(
        spec_field_list_error(a, t.fields),
        or_else(
            first_error(t.choices, choice_check(a)),
            or_else(
                match t.key {
                    Some(k) => spec_type_error(a, k),
                    None => None,
                },
                first_error(t.implements, required_check(a)),
            ),
        ),
    )
}

/// The first error of a data type.
pub open spec fn spec_data_error(a: ArchiveV, d: DataV) -> Option<ConvertErrorV> {
    match d {
        DataV::Record(r) => spec_field_list_error(a, r.fields),
        DataV::Variant(v) => spec_field_list_error(a, v.fields),
        DataV::Enum(_) => None,
        DataV::Template(t) => spec_template_error(a, t),
    }
}

/// The first error of an interface: its view must be a record; then its
/// view type, methods, choices and required interfaces.
pub open spec fn spec_interface_error(a: ArchiveV, i: InterfaceV) -> Option<ConvertErrorV> {
    if !spec_resolves_to_record(a, i.view) {
        Some(ConvertErrorV::UnexpectedType(record_text(), spec_type_text(i.view)))
    } else {
        or_else(
            spec_type_error(a, i.view),
            or_else(
                first_error(i.methods, method_check(a)),
                or_else(
                    first_error(i.choices, choice_check(a)),
                    first_error(i.required_interfaces, required_check(a)),
                ),
            ),
        )
    }
}

/// The first error of a module's own data types and interfaces.
pub open spec fn spec_module_own_error(a: ArchiveV, m: ModuleV) -> Option<ConvertErrorV> {
    or_else(
        first_error(m.data, data_check(a)),
        first_error(m.interfaces, interface_check(a)),
    )
}

/// The first error of a module tree: the module itself, then its children,
/// the last one first.
pub open spec fn spec_module_error(a: ArchiveV, m: ModuleV) -> Option<ConvertErrorV>
    decreases m, 1int,
{
    or_else(spec_module_own_error(a, m), spec_modules_error(a, m.children))
}

pub open spec fn spec_modules_error(a: ArchiveV, ms: Seq<ModuleV>) -> Option<ConvertErrorV>
    decreases ms, 0int,
{
    if ms.len() == 0 {
        None
    } else {
        or_else(spec_module_error(a, ms.last()), spec_modules_error(a, ms.drop_last()))
    }
}

pub open spec fn module_size(m: ModuleV) -> nat
    decreases m, 1int,
{
    1 + modules_size(m.children)
}

pub open spec fn modules_size(ms: Seq<ModuleV>) -> nat
    decreases ms, 0int,
{
    if ms.len() == 0 {
        0
    } else {
        modules_size(ms.drop_last()) + module_size(ms.last())
    }
}

/// The root modules of a list of packages.
pub open spec fn roots(ps: Seq<PackageV>) -> Seq<ModuleV> {
    ps.map_values(|p: PackageV| p.root)
}

/// The first error of an archive: the module trees of its packages, the
/// last package first.
pub open spec fn spec_archive_error(a: ArchiveV) -> Option<ConvertErrorV> {
    spec_modules_error(a, roots(a.packages))
}

pub open spec fn refs_view(s: Seq<&DamlType>) -> Seq<TypeV> {
    s.map_values(|t: &DamlType| type_view(*t))
}

pub open spec fn module_refs_view(s: Seq<&DamlModule>) -> Seq<ModuleV> {
    s.map_values(|m: &DamlModule| m@)
}

/// A list of module trees without an error has no tree with one.
pub proof fn lemma_modules_error_none_all(a: ArchiveV, ms: Seq<ModuleV>)
    requires
        spec_modules_error(a, ms) is None,
    ensures
        forall|j: int| 0 <= j < ms.len() ==> spec_module_error(a, #[trigger] ms[j]) is None,
    decreases ms.len(),
{
    if ms.len() > 0 {
        lemma_modules_error_none_all(a, ms.drop_last());
        assert forall|j: int| 0 <= j < ms.len() implies spec_module_error(a, #[trigger] ms[j]) is None by {
            if j < ms.len() - 1 {
                assert(ms[j] == ms.drop_last()[j]);
            }
        }
    }
}

/// Every module below a module tree without an error is without one.
pub proof fn lemma_lookup_error_free(a: ArchiveV, m: ModuleV, path: Seq<Seq<char>>)
    requires
        spec_module_error(a, m) is None,
    ensures
        spec_lookup_path(m, path) matches Some(t) ==> spec_module_error(a, t) is None,
    decreases path.len(),
{
    if path.len() > 0 {
        lemma_modules_error_none_all(a, m.children);
        lemma_key_position_bounds(m.children, path[0], child_key());
        let i = key_position(m.children, path[0], child_key());
        if i < m.children.len() {
            lemma_lookup_error_free(a, m.children[i], path.drop_first());
        }
    }
}

/// An archive that validates resolves every type constructor a record field
/// of any of its modules names: it names a data type or an interface of the
/// archive, so looking it up finds it.
pub proof fn law_valid_archive_resolves_fields(
    a: ArchiveV,
    k: int,
    path: Seq<Seq<char>>,
    m: ModuleV,
    d: int,
    r: RecordV,
    f: int,
    n: TyConNameV,
    args: Seq<TypeV>,
)
    requires
        spec_archive_error(a) is None,
        0 <= k < a.packages.len(),
        spec_lookup_path(a.packages[k].root, path) == Some(m),
        0 <= d < m.data.len(),
        m.data[d] == DataV::Record(r),
        0 <= f < r.fields.len(),
        r.fields[f].ty == TypeV::TyCon(n, args),
    ensures
        spec_data_by_name(a, n) is Some || spec_interface_by_name(a, n) is Some,
{
    lemma_modules_error_none_all(a, roots(a.packages));
    assert(roots(a.packages)[k] == a.packages[k].root);
    lemma_lookup_error_free(a, a.packages[k].root, path);
    lemma_first_error_none_all(m.data, data_check(a));
    assert(data_check(a)(m.data[d]) is None);
    lemma_first_error_none_all(r.fields, field_check(a));
    assert(field_check(a)(r.fields[f]) is None);
}

/// Whether a type-constructor name leads to a data type or an interface of
/// the archive.
pub open spec fn resolves(a: ArchiveV, n: TyConNameV) -> bool {
    spec_data_by_name(a, n) is Some || spec_interface_by_name(a, n) is Some
}

/// Whether every one of `ns` leads to a data type or an interface.
pub open spec fn all_resolve(a: ArchiveV, ns: Seq<TyConNameV>) -> bool {
    forall|i: int| 0 <= i < ns.len() ==> resolves(a, #[trigger] ns[i])
}

/// The type-constructor names a type applies, at any depth, in order.
pub open spec fn tycon_refs(t: TypeV) -> Seq<TyConNameV>
    decreases t, 1int,
{
    match t {
        TypeV::TyCon(n, args) => seq![n] + tycons_refs(args),
        TypeV::BoxedTyCon(n, args) => seq![n] + tycons_refs(args),
        TypeV::ContractId(inner) => match inner {
            Some(b) => tycon_refs(*b),
            None => Seq::empty(),
        },
        TypeV::Numeric(args) => tycons_refs(args),
        TypeV::List(args) => tycons_refs(args),
        TypeV::TextMap(args) => tycons_refs(args),
        TypeV::GenMap(args) => tycons_refs(args),
        TypeV::Optional(args) => tycons_refs(args),
        TypeV::Var(_, args) => tycons_refs(args),
        TypeV::Syn(_, args) => tycons_refs(args),
        TypeV::Forall(_, body) => tycon_refs(*body),
        TypeV::Struct(fields) => field_tycon_refs(fields),
        _ => Seq::empty(),
    }
}

pub open spec fn tycons_refs(ts: Seq<TypeV>) -> Seq<TyConNameV>
    decreases ts, 0int,
{
    if ts.len() == 0 {
        Seq::empty()
    } else {
        tycons_refs(ts.drop_last()) + tycon_refs(ts.last())
    }
}

pub open spec fn field_tycon_refs(fs: Seq<FieldV>) -> Seq<TyConNameV>
    decreases fs, 0int,
{
    if fs.len() == 0 {
        Seq::empty()
    } else {
        field_tycon_refs(fs.drop_last()) + tycon_refs(fs.last().ty)
    }
}

proof fn lemma_all_resolve_concat(a: ArchiveV, x: Seq<TyConNameV>, y: Seq<TyConNameV>)
    requires
        all_resolve(a, x),
        all_resolve(a, y),
    ensures
        all_resolve(a, x + y),
{
    assert forall|i: int| 0 <= i < (x + y).len() implies resolves(a, #[trigger] (x + y)[i]) by {
        if i < x.len() {
            assert((x + y)[i] == x[i]);
        } else {
            assert((x + y)[i] == y[i - x.len()]);
        }
    }
}

/// A type without an error applies only names that resolve.
proof fn lemma_type_ok_resolves(a: ArchiveV, t: TypeV)
    requires
        spec_type_error(a, t) is None,
    ensures
        all_resolve(a, tycon_refs(t)),
    decreases t, 1int,
{
    match t {
        TypeV::TyCon(n, args) => {
            lemma_types_ok_resolve(a, args);
            assert(all_resolve(a, seq![n]));
            lemma_all_resolve_concat(a, seq![n], tycons_refs(args));
        },
        TypeV::BoxedTyCon(n, args) => {
            lemma_types_ok_resolve(a, args);
            assert(all_resolve(a, seq![n]));
            lemma_all_resolve_concat(a, seq![n], tycons_refs(args));
        },
        TypeV::ContractId(inner) => {
            if let Some(b) = inner {
                lemma_type_ok_resolves(a, *b);
            }
        },
        TypeV::Numeric(args) => lemma_types_ok_resolve(a, args),
        TypeV::List(args) => lemma_types_ok_resolve(a, args),
        TypeV::TextMap(args) => lemma_types_ok_resolve(a, args),
        TypeV::GenMap(args) => lemma_types_ok_resolve(a, args),
        TypeV::Optional(args) => lemma_types_ok_resolve(a, args),
        TypeV::Var(_, args) => lemma_types_ok_resolve(a, args),
        TypeV::Syn(_, args) => lemma_types_ok_resolve(a, args),
        TypeV::Forall(_, body) => lemma_type_ok_resolves(a, *body),
        TypeV::Struct(fields) => lemma_fields_ok_resolve(a, fields),
        _ => {},
    }
}

proof fn lemma_types_ok_resolve(a: ArchiveV, ts: Seq<TypeV>)
    requires
        spec_types_error(a, ts) is None,
    ensures
        all_resolve(a, tycons_refs(ts)),
    decreases ts, 0int,
{
    if ts.len() > 0 {
        lemma_types_ok_resolve(a, ts.drop_last());
        lemma_type_ok_resolves(a, ts.last());
        lemma_all_resolve_concat(a, tycons_refs(ts.drop_last()), tycon_refs(ts.last()));
    }
}

proof fn lemma_fields_ok_resolve(a: ArchiveV, fs: Seq<FieldV>)
    requires
        spec_fields_error(a, fs) is None,
    ensures
        all_resolve(a, field_tycon_refs(fs)),
    decreases fs, 0int,
{
    if fs.len() > 0 {
        lemma_fields_ok_resolve(a, fs.drop_last());
        lemma_type_ok_resolves(a, fs.last().ty);
        lemma_all_resolve_concat(a, field_tycon_refs(fs.drop_last()), tycon_refs(fs.last().ty));
    }
}

/// Fields without an error apply only names that resolve, each field's.
proof fn lemma_field_list_ok_resolves(a: ArchiveV, fs: Seq<FieldV>)
    requires
        spec_field_list_error(a, fs) is None,
    ensures
        forall|f: int| 0 <= f < fs.len() ==> all_resolve(a, tycon_refs(#[trigger] fs[f].ty)),
{
    lemma_first_error_none_all(fs, field_check(a));
    assert forall|f: int| 0 <= f < fs.len() implies all_resolve(a, tycon_refs(#[trigger] fs[f].ty)) by {
        assert(field_check(a)(fs[f]) is None);
        lemma_type_ok_resolves(a, fs[f].ty);
    }
}

/// A choice without an error takes a record and names, in its argument and
/// its return type, only type constructors that resolve.
proof fn lemma_choices_ok(a: ArchiveV, cs: Seq<ChoiceV>)
    requires
        first_error(cs, choice_check(a)) is None,
    ensures
        forall|c: int|
            0 <= c < cs.len() ==> {
                &&& (#[trigger] cs[c]).fields.len() > 0
                &&& spec_resolves_to_record(a, cs[c].fields[0].ty)
                &&& all_resolve(a, tycon_refs(cs[c].fields[0].ty))
                &&& all_resolve(a, tycon_refs(cs[c].return_type))
            },
{
    lemma_first_error_none_all(cs, choice_check(a));
    assert forall|c: int| 0 <= c < cs.len() implies {
        &&& (#[trigger] cs[c]).fields.len() > 0
        &&& spec_resolves_to_record(a, cs[c].fields[0].ty)
        &&& all_resolve(a, tycon_refs(cs[c].fields[0].ty))
        &&& all_resolve(a, tycon_refs(cs[c].return_type))
    } by {
        assert(choice_check(a)(cs[c]) is None);
        lemma_type_ok_resolves(a, cs[c].fields[0].ty);
        lemma_type_ok_resolves(a, cs[c].return_type);
    }
}

/// In an archive that validates, each module's own definitions hold no
/// error.
proof fn lemma_valid_module(a: ArchiveV, k: int, path: Seq<Seq<char>>, m: ModuleV)
    requires
        spec_archive_error(a) is None,
        0 <= k < a.packages.len(),
        spec_lookup_path(a.packages[k].root, path) == Some(m),
    ensures
        forall|d: int| 0 <= d < m.data.len() ==> spec_data_error(a, #[trigger] m.data[d]) is None,
        forall|i: int| 0 <= i < m.interfaces.len() ==> spec_interface_error(a, #[trigger] m.interfaces[i]) is None,
{
    lemma_modules_error_none_all(a, roots(a.packages));
    assert(roots(a.packages)[k] == a.packages[k].root);
    lemma_lookup_error_free(a, a.packages[k].root, path);
    lemma_first_error_none_all(m.data, data_check(a));
    lemma_first_error_none_all(m.interfaces, interface_check(a));
    assert forall|d: int| 0 <= d < m.data.len() implies spec_data_error(a, #[trigger] m.data[d]) is None by {
        assert(data_check(a)(m.data[d]) is None);
    }
    assert forall|i: int| 0 <= i < m.interfaces.len() implies spec_interface_error(
        a,
        #[trigger] m.interfaces[i],
    ) is None by {
        assert(interface_check(a)(m.interfaces[i]) is None);
    }
}

/// In an archive that validates, every type constructor named at any depth
/// by a data type of any module resolves to a data type or an interface:
/// the fields of records, variants and templates, each choice's argument
/// (a record) and return type, a template's key and the interfaces it
/// implements.
pub proof fn law_valid_archive_resolves_data(a: ArchiveV, k: int, path: Seq<Seq<char>>, m: ModuleV, d: int)
    requires
        spec_archive_error(a) is None,
        0 <= k < a.packages.len(),
        spec_lookup_path(a.packages[k].root, path) == Some(m),
        0 <= d < m.data.len(),
    ensures
        m.data[d] matches DataV::Record(r) ==> forall|f: int|
            0 <= f < r.fields.len() ==> all_resolve(a, tycon_refs(#[trigger] r.fields[f].ty)),
        m.data[d] matches DataV::Variant(v) ==> forall|f: int|
            0 <= f < v.fields.len() ==> all_resolve(a, tycon_refs(#[trigger] v.fields[f].ty)),
        m.data[d] matches DataV::Template(t) ==> {
            &&& forall|f: int| 0 <= f < t.fields.len() ==> all_resolve(a, tycon_refs(#[trigger] t.fields[f].ty))
            &&& forall|c: int|
                0 <= c < t.choices.len() ==> {
                    &&& (#[trigger] t.choices[c]).fields.len() > 0
                    &&& spec_resolves_to_record(a, t.choices[c].fields[0].ty)
                    &&& all_resolve(a, tycon_refs(t.choices[c].fields[0].ty))
                    &&& all_resolve(a, tycon_refs(t.choices[c].return_type))
                }
            &&& t.key matches Some(kt) ==> all_resolve(a, tycon_refs(kt))
            &&& all_resolve(a, t.implements)
        },
{
    lemma_valid_module(a, k, path, m);
    assert(spec_data_error(a, m.data[d]) is None);
    match m.data[d] {
        DataV::Record(r) => lemma_field_list_ok_resolves(a, r.fields),
        DataV::Variant(v) => lemma_field_list_ok_resolves(a, v.fields),
        DataV::Template(t) => {
            lemma_field_list_ok_resolves(a, t.fields);
            lemma_choices_ok(a, t.choices);
            if let Some(kt) = t.key {
                lemma_type_ok_resolves(a, kt);
            }
            lemma_first_error_none_all(t.implements, required_check(a));
            assert forall|i: int| 0 <= i < t.implements.len() implies resolves(a, #[trigger] t.implements[i]) by {
                assert(required_check(a)(t.implements[i]) is None);
            }
        },
        DataV::Enum(_) => {},
    }
}

/// In an archive that validates, each interface of any module has a record
/// for its view, and every type constructor its view, methods and choices
/// name resolves, as do the interfaces it requires; each choice takes a
/// record.
pub proof fn law_valid_archive_resolves_interfaces(a: ArchiveV, k: int, path: Seq<Seq<char>>, m: ModuleV, i: int)
    requires
        spec_archive_error(a) is None,
        0 <= k < a.packages.len(),
        spec_lookup_path(a.packages[k].root, path) == Some(m),
        0 <= i < m.interfaces.len(),
    ensures
        spec_resolves_to_record(a, m.interfaces[i].view),
        all_resolve(a, tycon_refs(m.interfaces[i].view)),
        forall|j: int|
            0 <= j < m.interfaces[i].methods.len() ==> all_resolve(
                a,
                tycon_refs(#[trigger] m.interfaces[i].methods[j].ty),
            ),
        forall|c: int|
            0 <= c < m.interfaces[i].choices.len() ==> {
                &&& (#[trigger] m.interfaces[i].choices[c]).fields.len() > 0
                &&& spec_resolves_to_record(a, m.interfaces[i].choices[c].fields[0].ty)
                &&& all_resolve(a, tycon_refs(m.interfaces[i].choices[c].fields[0].ty))
                &&& all_resolve(a, tycon_refs(m.interfaces[i].choices[c].return_type))
            },
        all_resolve(a, m.interfaces[i].required_interfaces),
{
    lemma_valid_module(a, k, path, m);
    let it = m.interfaces[i];
    assert(spec_interface_error(a, it) is None);
    lemma_type_ok_resolves(a, it.view);
    lemma_first_error_none_all(it.methods, method_check(a));
    assert forall|j: int| 0 <= j < it.methods.len() implies all_resolve(a, tycon_refs(#[trigger] it.methods[j].ty)) by {
        assert(method_check(a)(it.methods[j]) is None);
        lemma_type_ok_resolves(a, it.methods[j].ty);
    }
    lemma_choices_ok(a, it.choices);
    lemma_first_error_none_all(it.required_interfaces, required_check(a));
    assert forall|j: int| 0 <= j < it.required_interfaces.len() implies resolves(
        a,
        #[trigger] it.required_interfaces[j],
    ) by {
        assert(required_check(a)(it.required_interfaces[j]) is None);
    }
}

/// Errors and sizes of a stack of types with more types on top.
pub proof fn lemma_types_concat(a: ArchiveV, s: Seq<TypeV>, cs: Seq<TypeV>)
    ensures
        spec_types_error(a, s + cs) == or_else(spec_types_error(a, cs), spec_types_error(a, s)),
        types_size(s + cs) == types_size(s) + types_size(cs),
    decreases cs.len(),
{
    if cs.len() == 0 {
        assert(s + cs =~= s);
    } else {
        lemma_types_concat(a, s, cs.drop_last());
        assert((s + cs).drop_last() =~= s + cs.drop_last());
        assert((s + cs).last() == cs.last());
    }
}

/// The errors and size of fields are those of their types.
pub proof fn lemma_fields_as_types(a: ArchiveV, fs: Seq<FieldV>)
    ensures
        spec_fields_error(a, fs) == spec_types_error(a, field_types(fs)),
        fields_size(fs) == types_size(field_types(fs)),
    decreases fs.len(),
{
    if fs.len() > 0 {
        lemma_fields_as_types(a, fs.drop_last());
        assert(field_types(fs).drop_last() =~= field_types(fs.drop_last()));
    }
}

/// Errors and sizes of a stack of modules with more modules on top.
pub proof fn lemma_modules_concat(a: ArchiveV, s: Seq<ModuleV>, cs: Seq<ModuleV>)
    ensures
        spec_modules_error(a, s + cs) == or_else(spec_modules_error(a, cs), spec_modules_error(a, s)),
        modules_size(s + cs) == modules_size(s) + modules_size(cs),
    decreases cs.len(),
{
    if cs.len() == 0 {
        assert(s + cs =~= s);
    } else {
        lemma_modules_concat(a, s, cs.drop_last());
        assert((s + cs).drop_last() =~= s + cs.drop_last());
        assert((s + cs).last() == cs.last());
    }
}

/// Push references to `ts` on `stack`, in order.
fn push_types<'b>(stack: &mut Vec<&'b DamlType>, ts: &'b Vec<DamlType>)
    ensures
        refs_view(final(stack)@) == refs_view(old(stack)@) + types_view(ts@),
{
    proof {
        lemma_types_view_index(ts@);
    }
    let ghost base = refs_view(stack@);
    let mut k: usize = 0;
    while k < ts.len()
        invariant
            0 <= k <= ts.len(),
            types_view(ts@).len() == ts@.len(),
            forall|i: int| 0 <= i < ts@.len() ==> #[trigger] types_view(ts@)[i] == type_view(ts@[i]),
            refs_view(stack@) == base + types_view(ts@).take(k as int),
        decreases ts.len() - k,
    {
        let ghost before = stack@;
        stack.push(&ts[k]);
        assert(refs_view(stack@) =~= refs_view(before).push(type_view(ts@[k as int])));
        assert(types_view(ts@).take(k + 1) =~= types_view(ts@).take(k as int).push(types_view(ts@)[k as int]));
        k += 1;
    }
    assert(types_view(ts@).take(k as int) =~= types_view(ts@));
}

/// Push references to the types of `fs` on `stack`, in order.
fn push_field_types<'b>(stack: &mut Vec<&'b DamlType>, fs: &'b Vec<DamlField>)
    ensures
        refs_view(final(stack)@) == refs_view(old(stack)@) + field_types(fields_view(fs@)),
{
    proof {
        lemma_fields_view_index(fs@);
    }
    let ghost base = refs_view(stack@);
    let ghost tys = field_types(fields_view(fs@));
    let mut k: usize = 0;
    while k < fs.len()
        invariant
            0 <= k <= fs.len(),
            tys == field_types(fields_view(fs@)),
            tys.len() == fs@.len(),
            forall|i: int| 0 <= i < fs@.len() ==> #[trigger] tys[i] == type_view(fs@[i].ty),
            refs_view(stack@) == base + tys.take(k as int),
        decreases fs.len() - k,
    {
        let ghost before = stack@;
        stack.push(&fs[k].ty);
        assert(refs_view(stack@) =~= refs_view(before).push(type_view(fs@[k as int].ty)));
        assert(tys.take(k + 1) =~= tys.take(k as int).push(tys[k as int]));
        k += 1;
    }
    assert(tys.take(k as int) =~= tys);
}

impl DamlArchive {
    /// Check that a type-constructor name refers to a data type or an
    /// interface of this archive, and say which part is missing when not.
    pub fn validate_tycon_name(&self, name: &DamlTyConName) -> (r: DamlLfConvertResult<()>)
        ensures
            error_of(r) == spec_tycon_error(self@, name@),
    {
        if self.data_by_tycon_name(name).is_some() || self.interface_by_tycon_name(name).is_some() {
            return Ok(());
        }
        let (package_id, segments, data_name) = name.reference_parts();
        if self.package_by_id(package_id).is_none() {
            return Err(DamlLfConvertError::UnknownPackage(String::from_str(package_id)));
        }
        if self.module_at(package_id, segments).is_none() {
            let text = join(segments, ".");
            proof {
                reveal_strlit(".");
                assert("."@ =~= seq!['.']);
                assert(segments@.map_values(|s: String| s@) == names_view(segments@));
            }
            return Err(DamlLfConvertError::UnknownModule(text));
        }
        Err(DamlLfConvertError::UnknownData(String::from_str(data_name)))
    }

    /// Whether a type is a type constructor naming a record of this archive.
    pub fn resolves_to_record(&self, ty: &DamlType) -> (b: bool)
        ensures
            b == spec_resolves_to_record(self@, ty@),
    {
        match ty {
            DamlType::TyCon(c) => match self.data_by_tycon_name(&c.tycon) {
                Some(DamlData::Record(_)) => true,
                _ => false,
            },
            DamlType::BoxedTyCon(c) => match self.data_by_tycon_name(&c.tycon) {
                Some(DamlData::Record(_)) => true,
                _ => false,
            },
            _ => false,
        }
    }

    /// Check every type-constructor reference within a type, walking it with
    /// a work list so that deep types need no deep call stack.
    pub fn validate_type(&self, ty: &DamlType) -> (r: DamlLfConvertResult<()>)
        ensures
            error_of(r) == spec_type_error(self@, ty@),
    {
        let ghost a = self@;
        let mut stack: Vec<&DamlType> = Vec::new();
        stack.push(ty);
        assert(refs_view(stack@) =~= seq![ty@]);
        assert(seq![ty@].drop_last() =~= Seq::<TypeV>::empty());
        assert(spec_types_error(a, seq![ty@]) == or_else(spec_type_error(a, ty@), spec_types_error(a, Seq::empty())));
        while stack.len() > 0
            invariant
                a == self@,
                spec_types_error(a, refs_view(stack@)) == spec_type_error(a, ty@),
            decreases types_size(refs_view(stack@)),
        {
            let ghost s = refs_view(stack@);
            let t = stack.pop().unwrap();
            let ghost rest = refs_view(stack@);
            assert(rest =~= s.drop_last());
            assert(s.last() == t@);
            assert(spec_types_error(a, s) == or_else(spec_type_error(a, t@), spec_types_error(a, rest)));
            assert(types_size(s) == types_size(rest) + type_size(t@));
            match t {
                DamlType::TyCon(c) => {
                    let checked = self.validate_tycon_name(&c.tycon);
                    if checked.is_err() {
                        return checked;
                    }
                    push_types(&mut stack, &c.type_arguments);
                    proof {
                        lemma_types_concat(a, rest, types_view(c.type_arguments@));
                    }
                },
                DamlType::BoxedTyCon(c) => {
                    let checked = self.validate_tycon_name(&c.tycon);
                    if checked.is_err() {
                        return checked;
                    }
                    push_types(&mut stack, &c.type_arguments);
                    proof {
                        lemma_types_concat(a, rest, types_view(c.type_arguments@));
                    }
                },
                DamlType::ContractId(inner) => {
                    match inner {
                        Some(b) => {
                            stack.push(&**b);
                            assert(refs_view(stack@) =~= rest.push(type_view(**b)));
                            assert(refs_view(stack@).drop_last() =~= rest);
                        },
                        None => {},
                    }
                },
                DamlType::Numeric(args) => {
                    push_types(&mut stack, args);
                    proof {
                        lemma_types_concat(a, rest, types_view(args@));
                    }
                },
                DamlType::List(args) => {
                    push_types(&mut stack, args);
                    proof {
                        lemma_types_concat(a, rest, types_view(args@));
                    }
                },
                DamlType::TextMap(args) => {
                    push_types(&mut stack, args);
                    proof {
                        lemma_types_concat(a, rest, types_view(args@));
                    }
                },
                DamlType::GenMap(args) => {
                    push_types(&mut stack, args);
                    proof {
                        lemma_types_concat(a, rest, types_view(args@));
                    }
                },
                DamlType::Optional(args) => {
                    push_types(&mut stack, args);
                    proof {
                        lemma_types_concat(a, rest, types_view(args@));
                    }
                },
                DamlType::Var(v) => {
                    push_types(&mut stack, &v.type_arguments);
                    proof {
                        lemma_types_concat(a, rest, types_view(v.type_arguments@));
                    }
                },
                DamlType::Forall(f) => {
                    stack.push(&*f.body);
                    assert(refs_view(stack@) =~= rest.push(type_view(*f.body)));
                    assert(refs_view(stack@).drop_last() =~= rest);
                },
                DamlType::Struct(st) => {
                    push_field_types(&mut stack, &st.fields);
                    proof {
                        lemma_fields_as_types(a, fields_view(st.fields@));
                        lemma_types_concat(a, rest, field_types(fields_view(st.fields@)));
                    }
                },
                DamlType::Syn(sy) => {
                    push_types(&mut stack, &sy.args);
                    proof {
                        lemma_types_concat(a, rest, types_view(sy.args@));
                    }
                },
                _ => {},
            }
        }
        Ok(())
    }
}


impl DamlArchive {
    /// Check the types of some fields, in order.
    fn validate_fields(&self, fields: &Vec<DamlField>) -> (r: DamlLfConvertResult<()>)
        ensures
            error_of(r) == spec_field_list_error(self@, fields_view(fields@)),
    {
        let ghost a = self@;
        let ghost fs = fields_view(fields@);
        let ghost f = field_check(a);
        proof {
            lemma_fields_view_index(fields@);
        }
        let mut i: usize = 0;
        while i < fields.len()
            invariant
                0 <= i <= fields.len(),
                a == self@,
                fs == fields_view(fields@),
                f == field_check(a),
                fs.len() == fields@.len(),
                forall|j: int| 0 <= j < fs.len() ==> #[trigger] fs[j] == (FieldV { name: fields@[j].name@, ty: type_view(fields@[j].ty) }),
                forall|j: int| 0 <= j < i ==> f(#[trigger] fs[j]) is None,
            decreases fields.len() - i,
        {
            let checked = self.validate_type(&fields[i].ty);
            if checked.is_err() {
                proof {
                    lemma_first_error_at(fs, f, i as int);
                }
                return checked;
            }
            i += 1;
        }
        proof {
            lemma_first_error_none(fs, f);
        }
        Ok(())
    }

    /// Check a choice: its argument must be a record of this archive; then
    /// its argument and return types.
    fn validate_choice(&self, choice: &DamlChoice) -> (r: DamlLfConvertResult<()>)
        ensures
            error_of(r) == spec_choice_error(self@, choice@),
    {
        proof {
            lemma_fields_view_index(choice.fields@);
        }
        if choice.fields.len() == 0 || !self.resolves_to_record(&choice.fields[0].ty) {
            return Err(DamlLfConvertError::UnexpectedChoiceData);
        }
        let checked = self.validate_type(&choice.fields[0].ty);
        if checked.is_err() {
            return checked;
        }
        self.validate_type(&choice.return_type)
    }

    /// Check the choices of a template or interface, in order.
    fn validate_choices(&self, choices: &Vec<DamlChoice>) -> (r: DamlLfConvertResult<()>)
        ensures
            error_of(r) == first_error(choices@.map_values(|c: DamlChoice| c@), choice_check(self@)),
    {
        let ghost a = self@;
        let ghost cs = choices@.map_values(|c: DamlChoice| c@);
        let ghost f = choice_check(a);
        let mut i: usize = 0;
        while i < choices.len()
            invariant
                0 <= i <= choices.len(),
                a == self@,
                cs == choices@.map_values(|c: DamlChoice| c@),
                f == choice_check(a),
                forall|j: int| 0 <= j < i ==> f(#[trigger] cs[j]) is None,
            decreases choices.len() - i,
        {
            let checked = self.validate_choice(&choices[i]);
            if checked.is_err() {
                proof {
                    lemma_first_error_at(cs, f, i as int);
                }
                return checked;
            }
            i += 1;
        }
        proof {
            lemma_first_error_none(cs, f);
        }
        Ok(())
    }

    /// Check a template: its fields, its choices, then its key.
    fn validate_template(&self, template: &DamlTemplate) -> (r: DamlLfConvertResult<()>)
        ensures
            error_of(r) == spec_template_error(self@, template@),
    {
        let checked = self.validate_fields(&template.fields);
        if checked.is_err() {
            return checked;
        }
        let checked = self.validate_choices(&template.choices);
        if checked.is_err() {
            return checked;
        }
        let checked = match &template.key {
            Some(key) => self.validate_type(&key.ty),
            None => Ok(()),
        };
        if checked.is_err() {
            return checked;
        }
        self.validate_tycon_names(&template.implements)
    }

    /// Check that each of some names resolves, in order.
    fn validate_tycon_names(&self, names: &Vec<DamlTyConName>) -> (r: DamlLfConvertResult<()>)
        ensures
            error_of(r) == first_error(tycon_names_view(names@), required_check(self@)),
    {
        let ghost ns = tycon_names_view(names@);
        let ghost fr = required_check(self@);
        let mut k: usize = 0;
        while k < names.len()
            invariant
                0 <= k <= names.len(),
                ns == tycon_names_view(names@),
                ns.len() == names@.len(),
                fr == required_check(self@),
                forall|j: int| 0 <= j < k ==> fr(#[trigger] ns[j]) is None,
            decreases names.len() - k,
        {
            let checked = self.validate_tycon_name(&names[k]);
            if checked.is_err() {
                proof {
                    lemma_first_error_at(ns, fr, k as int);
                }
                return checked;
            }
            k += 1;
        }
        proof {
            lemma_first_error_none(ns, fr);
        }
        Ok(())
    }

    /// Check a data type.
    fn validate_data(&self, data: &DamlData) -> (r: DamlLfConvertResult<()>)
        ensures
            error_of(r) == spec_data_error(self@, data@),
    {
        match data {
            DamlData::Record(rec) => self.validate_fields(&rec.fields),
            DamlData::Variant(var) => self.validate_fields(&var.fields),
            DamlData::Enum(_) => Ok(()),
            DamlData::Template(tpl) => self.validate_template(tpl),
        }
    }

    /// Check an interface: its view must be a record of this archive; then
    /// its view type, methods, choices and required interfaces.
    fn validate_interface(&self, interface: &DamlInterface) -> (r: DamlLfConvertResult<()>)
        ensures
            error_of(r) == spec_interface_error(self@, interface_model(*interface)),
    {
        let ghost a = self@;
        let view = &interface.view;
        if !self.resolves_to_record(view) {
            let expected = String::from_str("Record");
            proof {
                reveal_strlit("Record");
                assert(expected@ =~= record_text());
            }
            return Err(DamlLfConvertError::UnexpectedType(expected, view.to_text()));
        }
        let checked = self.validate_type(view);
        if checked.is_err() {
            return checked;
        }
        let ghost ms = interface_model(*interface).methods;
        let ghost fm = method_check(a);
        let mut i: usize = 0;
        while i < interface.methods.len()
            invariant
                0 <= i <= interface.methods.len(),
                a == self@,
                ms == interface_model(*interface).methods,
                ms.len() == interface.methods@.len(),
                fm == method_check(a),
                spec_resolves_to_record(a, interface_model(*interface).view),
                spec_type_error(a, interface_model(*interface).view) is None,
                forall|j: int| 0 <= j < i ==> fm(#[trigger] ms[j]) is None,
            decreases interface.methods.len() - i,
        {
            let checked = self.validate_type(&interface.methods[i].ty);
            if checked.is_err() {
                proof {
                    lemma_first_error_at(ms, fm, i as int);
                }
                return checked;
            }
            i += 1;
        }
        proof {
            lemma_first_error_none(ms, fm);
        }
        let checked = self.validate_choices(&interface.choices);
        if checked.is_err() {
            return checked;
        }
        let ghost ns = interface_model(*interface).required_interfaces;
        let ghost fr = required_check(a);
        let mut k: usize = 0;
        while k < interface.required_interfaces.len()
            invariant
                0 <= k <= interface.required_interfaces.len(),
                a == self@,
                ns == interface_model(*interface).required_interfaces,
                ns.len() == interface.required_interfaces@.len(),
                fr == required_check(a),
                spec_resolves_to_record(a, interface_model(*interface).view),
                spec_type_error(a, interface_model(*interface).view) is None,
                ms == interface_model(*interface).methods,
                first_error(ms, method_check(a)) is None,
                first_error(interface_model(*interface).choices, choice_check(a)) is None,
                forall|j: int| 0 <= j < k ==> fr(#[trigger] ns[j]) is None,
            decreases interface.required_interfaces.len() - k,
        {
            let checked = self.validate_tycon_name(&interface.required_interfaces[k]);
            if checked.is_err() {
                proof {
                    lemma_first_error_at(ns, fr, k as int);
                }
                return checked;
            }
            k += 1;
        }
        proof {
            lemma_first_error_none(ns, fr);
        }
        Ok(())
    }
}

/// Push references to the children of `m` on `stack`, in order.
fn push_children<'b>(stack: &mut Vec<&'b DamlModule>, m: &'b DamlModule)
    ensures
        module_refs_view(final(stack)@) == module_refs_view(old(stack)@) + m@.children,
{
    proof {
        lemma_modules_view(m.child_modules@);
    }
    let ghost base = module_refs_view(stack@);
    let ghost cs = m@.children;
    let mut k: usize = 0;
    while k < m.child_modules.len()
        invariant
            0 <= k <= m.child_modules.len(),
            cs == m@.children,
            cs.len() == m.child_modules@.len(),
            forall|i: int| 0 <= i < cs.len() ==> #[trigger] cs[i] == m.child_modules@[i]@,
            module_refs_view(stack@) == base + cs.take(k as int),
        decreases m.child_modules.len() - k,
    {
        let ghost before = stack@;
        stack.push(&m.child_modules[k]);
        assert(module_refs_view(stack@) =~= module_refs_view(before).push(m.child_modules@[k as int]@));
        assert(cs.take(k + 1) =~= cs.take(k as int).push(cs[k as int]));
        k += 1;
    }
    assert(cs.take(k as int) =~= cs);
}

impl DamlArchive {
    /// Check the data types, then the interfaces, of one module.
    fn validate_module_own(&self, m: &DamlModule) -> (r: DamlLfConvertResult<()>)
        ensures
            error_of(r) == spec_module_own_error(self@, m@),
    {
        let ghost a = self@;
        let ghost ds = m@.data;
        let mut i: usize = 0;
        while i < m.data_types.len()
            invariant
                0 <= i <= m.data_types.len(),
                a == self@,
                ds == m@.data,
                ds.len() == m.data_types@.len(),
                forall|j: int| 0 <= j < i ==> data_check(a)(#[trigger] ds[j]) is None,
            decreases m.data_types.len() - i,
        {
            let checked = self.validate_data(&m.data_types[i]);
            if checked.is_err() {
                proof {
                    lemma_first_error_at(ds, data_check(a), i as int);
                }
                return checked;
            }
            i += 1;
        }
        proof {
            lemma_first_error_none(ds, data_check(a));
        }
        let ghost is = m@.interfaces;
        let mut k: usize = 0;
        while k < m.interfaces.len()
            invariant
                0 <= k <= m.interfaces.len(),
                a == self@,
                ds == m@.data,
                is == m@.interfaces,
                is.len() == m.interfaces@.len(),
                first_error(ds, data_check(a)) is None,
                forall|j: int| 0 <= j < k ==> interface_check(a)(#[trigger] is[j]) is None,
            decreases m.interfaces.len() - k,
        {
            let checked = self.validate_interface(&m.interfaces[k]);
            if checked.is_err() {
                proof {
                    lemma_first_error_at(is, interface_check(a), k as int);
                }
                return checked;
            }
            k += 1;
        }
        proof {
            lemma_first_error_none(is, interface_check(a));
        }
        Ok(())
    }

    /// Check every reference, choice and interface of the archive: walk the
    /// module trees of all packages with a work list, and answer the first
    /// violation found.
    pub fn validate(&self) -> (r: DamlLfConvertResult<()>)
        ensures
            error_of(r) == spec_archive_error(self@),
    {
        let ghost a = self@;
        let ghost rs = roots(packages_view(self.packages@));
        let mut stack: Vec<&DamlModule> = Vec::new();
        let mut i: usize = 0;
        while i < self.packages.len()
            invariant
                0 <= i <= self.packages.len(),
                a == self@,
                rs == roots(packages_view(self.packages@)),
                rs.len() == self.packages@.len(),
                module_refs_view(stack@) == rs.take(i as int),
            decreases self.packages.len() - i,
        {
            let ghost before = stack@;
            stack.push(&self.packages[i].root_module);
            assert(module_refs_view(stack@) =~= module_refs_view(before).push(rs[i as int]));
            assert(rs.take(i + 1) =~= rs.take(i as int).push(rs[i as int]));
            i += 1;
        }
        assert(rs.take(i as int) =~= rs);
        while stack.len() > 0
            invariant
                a == self@,
                spec_modules_error(a, module_refs_view(stack@)) == spec_archive_error(a),
            decreases modules_size(module_refs_view(stack@)),
        {
            let ghost s = module_refs_view(stack@);
            let m = stack.pop().unwrap();
            let ghost rest = module_refs_view(stack@);
            assert(rest =~= s.drop_last());
            assert(s.last() == m@);
            assert(spec_modules_error(a, s) == or_else(spec_module_error(a, m@), spec_modules_error(a, rest)));
            assert(modules_size(s) == modules_size(rest) + module_size(m@));
            let checked = self.validate_module_own(m);
            if checked.is_err() {
                return checked;
            }
            push_children(&mut stack, m);
            proof {
                lemma_modules_concat(a, rest, m@.children);
            }
        }
        Ok(())
    }
}

} // verus!
