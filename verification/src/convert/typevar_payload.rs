//! Converting LF2 kinds and kinded type variables.

use vstd::prelude::*;

use crate::convert::interned::{spec_resolve_string, PackageInternedResolver};
use crate::element::types::{kind_view, kinds_view, lemma_kinds_view_push, DamlArrow, DamlKind, DamlTypeVarWithKind, KindV, TypeVarV};
use crate::error::{ConvertErrorV, DamlLfConvertError, DamlLfConvertResult};
use crate::lf2;

verus! {

/// The text of the error for an interned reference that leads back to
/// itself, on which a conversion would never end.
pub open spec fn spec_cyclic_text(table: Seq<char>) -> Seq<char> {
    seq!['c', 'y', 'c', 'l', 'i', 'c', ' '] + table + seq![' ', 'r', 'e', 'f', 'e', 'r', 'e', 'n', 'c', 'e']
}

pub open spec fn interned_kind_table() -> Seq<char> {
    seq!['i', 'n', 't', 'e', 'r', 'n', 'e', 'd', '-', 'k', 'i', 'n', 'd']
}

pub fn cyclic_error(table: &str) -> (e: DamlLfConvertError)
    ensures
        e@ == ConvertErrorV::InternalError(spec_cyclic_text(table@)),
{
    let mut text = String::from_str("cyclic ");
    text.append(table);
    text.append(" reference");
    proof {
        reveal_strlit("cyclic ");
        reveal_strlit(" reference");
        assert(text@ =~= spec_cyclic_text(table@));
    }
    DamlLfConvertError::InternalError(text)
}

/// The element kind of an LF2 kind. An interned kind is looked up in
/// `table`; `fuel` bounds how many lookups may be chained, and a chain
/// longer than the table can only come from a cycle.
pub open spec fn spec_convert_kind(k: lf2::Kind, table: Seq<lf2::Kind>, fuel: nat) -> Result<KindV, ConvertErrorV>
    decreases fuel, k, 1int,
{
    match k.sum {
        None => Err(ConvertErrorV::MissingRequiredField),
        Some(lf2::KindSum::Star(_)) => Ok(KindV::Star),
        Some(lf2::KindSum::Nat(_)) => Ok(KindV::Nat),
        Some(lf2::KindSum::Arrow(arrow)) => match spec_convert_kinds(arrow.params@, table, fuel) {
            Err(e) => Err(e),
            Ok(params) => match arrow.result {
                None => Err(ConvertErrorV::MissingRequiredField),
                Some(result) => match spec_convert_kind(*result, table, fuel) {
                    Err(e) => Err(e),
                    Ok(r) => Ok(KindV::Arrow(params, Box::new(r))),
                },
            },
        },
        Some(lf2::KindSum::InternedKind(idx)) => if idx < 0 || idx >= table.len() {
            Err(ConvertErrorV::MissingRequiredField)
        } else if fuel == 0 {
            Err(ConvertErrorV::InternalError(spec_cyclic_text(interned_kind_table())))
        } else {
            spec_convert_kind(table[idx as int], table, (fuel - 1) as nat)
        },
    }
}

/// The element kinds of LF2 kinds, or the first failure.
pub open spec fn spec_convert_kinds(ks: Seq<lf2::Kind>, table: Seq<lf2::Kind>, fuel: nat) -> Result<
    Seq<KindV>,
    ConvertErrorV,
>
    decreases fuel, ks, 0int,
{
    if ks.len() == 0 {
        Ok(Seq::empty())
    } else {
        match spec_convert_kinds(ks.drop_last(), table, fuel) {
            Err(e) => Err(e),
            Ok(vs) => match spec_convert_kind(ks.last(), table, fuel) {
                Err(e) => Err(e),
                Ok(v) => Ok(vs.push(v)),
            },
        }
    }
}

/// The error of a chain of interned-kind lookups that runs out of lookups.
pub open spec fn cyclic_kind_error() -> ConvertErrorV {
    ConvertErrorV::InternalError(spec_cyclic_text(interned_kind_table()))
}

/// One more lookup changes nothing once a conversion has come to an end
/// without running out of lookups.
pub proof fn lemma_kind_more_fuel(k: lf2::Kind, table: Seq<lf2::Kind>, fuel: nat)
    requires
        spec_convert_kind(k, table, fuel) != Err::<KindV, ConvertErrorV>(cyclic_kind_error()),
    ensures
        spec_convert_kind(k, table, fuel + 1) == spec_convert_kind(k, table, fuel),
    decreases fuel, k, 1int,
{
    match k.sum {
        Some(lf2::KindSum::Arrow(arrow)) => {
            lemma_kinds_more_fuel(arrow.params@, table, fuel);
            if spec_convert_kinds(arrow.params@, table, fuel) is Ok {
                if let Some(result) = arrow.result {
                    lemma_kind_more_fuel(*result, table, fuel);
                }
            }
        },
        Some(lf2::KindSum::InternedKind(idx)) => {
            if 0 <= idx < table.len() && fuel > 0 {
                lemma_kind_more_fuel(table[idx as int], table, (fuel - 1) as nat);
            }
        },
        _ => {},
    }
}

/// One more lookup changes nothing once the conversion of a list of kinds
/// has come to an end without running out of lookups.
pub proof fn lemma_kinds_more_fuel(ks: Seq<lf2::Kind>, table: Seq<lf2::Kind>, fuel: nat)
    requires
        spec_convert_kinds(ks, table, fuel) != Err::<Seq<KindV>, ConvertErrorV>(cyclic_kind_error()),
    ensures
        spec_convert_kinds(ks, table, fuel + 1) == spec_convert_kinds(ks, table, fuel),
    decreases fuel, ks, 0int,
{
    if ks.len() > 0 {
        lemma_kinds_more_fuel(ks.drop_last(), table, fuel);
        if spec_convert_kinds(ks.drop_last(), table, fuel) is Ok {
            lemma_kind_more_fuel(ks.last(), table, fuel);
        }
    }
}

/// Whether every reference to an interned kind in `k` that lands in a table
/// of `len` entries names an entry whose rank is below `limit`.
pub open spec fn kind_refs_below(k: lf2::Kind, len: int, rank: spec_fn(int) -> nat, limit: nat) -> bool
    decreases k, 1int,
{
    match k.sum {
        Some(lf2::KindSum::Arrow(arrow)) => kinds_refs_below(arrow.params@, len, rank, limit) && match arrow.result {
            Some(result) => kind_refs_below(*result, len, rank, limit),
            None => true,
        },
        Some(lf2::KindSum::InternedKind(idx)) => 0 <= idx < len ==> rank(idx as int) < limit,
        _ => true,
    }
}

/// Whether every reference to an interned kind in `ks` that lands in a table
/// of `len` entries names an entry whose rank is below `limit`.
pub open spec fn kinds_refs_below(ks: Seq<lf2::Kind>, len: int, rank: spec_fn(int) -> nat, limit: nat) -> bool
    decreases ks, 0int,
{
    if ks.len() == 0 {
        true
    } else {
        kinds_refs_below(ks.drop_last(), len, rank, limit) && kind_refs_below(ks.last(), len, rank, limit)
    }
}

/// `rank` orders the table: each entry's rank is below the table's size, and
/// each entry refers only to entries of lower rank.
pub open spec fn ranks_table(table: Seq<lf2::Kind>, rank: spec_fn(int) -> nat) -> bool {
    forall|i: int|
        0 <= i < table.len() ==> rank(i) < table.len() && kind_refs_below(
            #[trigger] table[i],
            table.len() as int,
            rank,
            rank(i),
        )
}

/// A table of interned kinds holds no cycle of references: some ranking
/// orders it.
pub open spec fn kinds_acyclic(table: Seq<lf2::Kind>) -> bool {
    exists|rank: spec_fn(int) -> nat| ranks_table(table, rank)
}

proof fn lemma_kind_refs_weaken(k: lf2::Kind, len: int, rank: spec_fn(int) -> nat, a: nat, b: nat)
    requires
        kind_refs_below(k, len, rank, a),
        a <= b,
    ensures
        kind_refs_below(k, len, rank, b),
    decreases k, 1int,
{
    if let Some(lf2::KindSum::Arrow(arrow)) = k.sum {
        lemma_kinds_refs_weaken(arrow.params@, len, rank, a, b);
        if let Some(result) = arrow.result {
            lemma_kind_refs_weaken(*result, len, rank, a, b);
        }
    }
}

proof fn lemma_kinds_refs_weaken(ks: Seq<lf2::Kind>, len: int, rank: spec_fn(int) -> nat, a: nat, b: nat)
    requires
        kinds_refs_below(ks, len, rank, a),
        a <= b,
    ensures
        kinds_refs_below(ks, len, rank, b),
    decreases ks, 0int,
{
    if ks.len() > 0 {
        lemma_kinds_refs_weaken(ks.drop_last(), len, rank, a, b);
        lemma_kind_refs_weaken(ks.last(), len, rank, a, b);
    }
}

/// In an ordered table, a kind whose references all rank below `fuel` is
/// converted without running out of lookups.
proof fn lemma_ranked_kind_ends(k: lf2::Kind, table: Seq<lf2::Kind>, rank: spec_fn(int) -> nat, fuel: nat)
    requires
        ranks_table(table, rank),
        kind_refs_below(k, table.len() as int, rank, fuel),
    ensures
        spec_convert_kind(k, table, fuel) != Err::<KindV, ConvertErrorV>(cyclic_kind_error()),
    decreases fuel, k, 1int,
{
    match k.sum {
        Some(lf2::KindSum::Arrow(arrow)) => {
            lemma_ranked_kinds_end(arrow.params@, table, rank, fuel);
            if spec_convert_kinds(arrow.params@, table, fuel) is Ok {
                if let Some(result) = arrow.result {
                    lemma_ranked_kind_ends(*result, table, rank, fuel);
                }
            }
        },
        Some(lf2::KindSum::InternedKind(idx)) => {
            if 0 <= idx < table.len() {
                let j = idx as int;
                assert(rank(j) < table.len() && kind_refs_below(table[j], table.len() as int, rank, rank(j)));
                lemma_kind_refs_weaken(table[j], table.len() as int, rank, rank(j), (fuel - 1) as nat);
                lemma_ranked_kind_ends(table[j], table, rank, (fuel - 1) as nat);
            }
        },
        _ => {},
    }
}

proof fn lemma_ranked_kinds_end(ks: Seq<lf2::Kind>, table: Seq<lf2::Kind>, rank: spec_fn(int) -> nat, fuel: nat)
    requires
        ranks_table(table, rank),
        kinds_refs_below(ks, table.len() as int, rank, fuel),
    ensures
        spec_convert_kinds(ks, table, fuel) != Err::<Seq<KindV>, ConvertErrorV>(cyclic_kind_error()),
    decreases fuel, ks, 0int,
{
    if ks.len() > 0 {
        lemma_ranked_kinds_end(ks.drop_last(), table, rank, fuel);
        if spec_convert_kinds(ks.drop_last(), table, fuel) is Ok {
            lemma_ranked_kind_ends(ks.last(), table, rank, fuel);
        }
    }
}

/// Any number of further lookups changes nothing once a conversion has come
/// to an end without running out of them.
proof fn lemma_kind_fuel_at_least(k: lf2::Kind, table: Seq<lf2::Kind>, fuel: nat, more: nat)
    requires
        spec_convert_kind(k, table, fuel) != Err::<KindV, ConvertErrorV>(cyclic_kind_error()),
        fuel <= more,
    ensures
        spec_convert_kind(k, table, more) == spec_convert_kind(k, table, fuel),
    decreases more - fuel,
{
    if fuel < more {
        lemma_kind_more_fuel(k, table, fuel);
        lemma_kind_fuel_at_least(k, table, fuel + 1, more);
    }
}

/// In a table of interned kinds that holds no cycle of references, a
/// reference to an entry converts as that entry does, with as many lookups
/// as the table has entries or more; a reference outside the table is a
/// missing field.
pub proof fn law_interned_kind_reference(kind: lf2::Kind, table: Seq<lf2::Kind>, i: i32)
    requires
        kind.sum == Some(lf2::KindSum::InternedKind(i)),
        kinds_acyclic(table),
    ensures
        !(0 <= i < table.len()) ==> forall|fuel: nat|
            #[trigger] spec_convert_kind(kind, table, fuel) == Err::<KindV, ConvertErrorV>(
                ConvertErrorV::MissingRequiredField,
            ),
        0 <= i < table.len() ==> spec_convert_kind(kind, table, table.len()) == spec_convert_kind(
            table[i as int],
            table,
            table.len(),
        ),
        0 <= i < table.len() ==> forall|fuel: nat|
            fuel >= table.len() ==> #[trigger] spec_convert_kind(kind, table, fuel) == spec_convert_kind(
                table[i as int],
                table,
                table.len(),
            ),
{
    if 0 <= i < table.len() {
        let rank = choose|rank: spec_fn(int) -> nat| ranks_table(table, rank);
        let j = i as int;
        let n = table.len();
        assert(rank(j) < n && kind_refs_below(table[j], n as int, rank, rank(j)));
        lemma_kind_refs_weaken(table[j], n as int, rank, rank(j), (n - 1) as nat);
        lemma_ranked_kind_ends(table[j], table, rank, (n - 1) as nat);
        assert forall|fuel: nat| fuel >= n implies #[trigger] spec_convert_kind(kind, table, fuel)
            == spec_convert_kind(table[j], table, n) by {
            lemma_kind_fuel_at_least(table[j], table, (n - 1) as nat, (fuel - 1) as nat);
            lemma_kind_fuel_at_least(table[j], table, (n - 1) as nat, n);
        }
    }
}

/// The model of a kind result.
pub open spec fn kind_result_view(r: DamlLfConvertResult<DamlKind>) -> Result<KindV, ConvertErrorV> {
    match r {
        Ok(k) => Ok(kind_view(k)),
        Err(e) => Err(e@),
    }
}

/// Convert an LF2 kind into an element kind, looking interned kinds up in
/// `interned_kinds`.
pub fn convert_kind(kind: &lf2::Kind, interned_kinds: &[lf2::Kind]) -> (r: DamlLfConvertResult<DamlKind>)
    ensures
        kind_result_view(r) == spec_convert_kind(*kind, interned_kinds@, interned_kinds@.len()),
{
    convert_kind_with_fuel(kind, interned_kinds, interned_kinds.len())
}

fn convert_kind_with_fuel(kind: &lf2::Kind, interned_kinds: &[lf2::Kind], fuel: usize) -> (r: DamlLfConvertResult<
    DamlKind,
>)
    ensures
        kind_result_view(r) == spec_convert_kind(*kind, interned_kinds@, fuel as nat),
    decreases fuel, *kind, 1int,
{
    match &kind.sum {
        None => Err(DamlLfConvertError::MissingRequiredField),
        Some(lf2::KindSum::Star(_)) => Ok(DamlKind::Star),
        Some(lf2::KindSum::Nat(_)) => Ok(DamlKind::Nat),
        Some(lf2::KindSum::Arrow(arrow)) => {
            let params = convert_kinds_with_fuel(&arrow.params, interned_kinds, fuel)?;
            let result = match &arrow.result {
                None => return Err(DamlLfConvertError::MissingRequiredField),
                Some(result) => convert_kind_with_fuel(result, interned_kinds, fuel)?,
            };
            Ok(DamlKind::Arrow(Box::new(DamlArrow::new(params, result))))
        },
        Some(lf2::KindSum::InternedKind(idx)) => {
            if *idx < 0 || *idx as usize >= interned_kinds.len() {
                return Err(DamlLfConvertError::MissingRequiredField);
            }
            if fuel == 0 {
                proof {
                    reveal_strlit("interned-kind");
                    assert("interned-kind"@ =~= interned_kind_table());
                }
                return Err(cyclic_error("interned-kind"));
            }
            convert_kind_with_fuel(&interned_kinds[*idx as usize], interned_kinds, fuel - 1)
        },
    }
}

fn convert_kinds_with_fuel(kinds: &Vec<lf2::Kind>, interned_kinds: &[lf2::Kind], fuel: usize) -> (r:
    DamlLfConvertResult<Vec<DamlKind>>)
    ensures
        match r {
            Ok(ks) => spec_convert_kinds(kinds@, interned_kinds@, fuel as nat) == Ok::<Seq<KindV>, ConvertErrorV>(
                kinds_view(ks@),
            ),
            Err(e) => spec_convert_kinds(kinds@, interned_kinds@, fuel as nat) == Err::<Seq<KindV>, ConvertErrorV>(
                e@,
            ),
        },
    decreases fuel, kinds@, 0int,
{
    let mut out: Vec<DamlKind> = Vec::new();
    let mut i: usize = 0;
    assert(kinds@.take(0) =~= Seq::<lf2::Kind>::empty());
    while i < kinds.len()
        invariant
            0 <= i <= kinds.len(),
            spec_convert_kinds(kinds@.take(i as int), interned_kinds@, fuel as nat) == Ok::<
                Seq<KindV>,
                ConvertErrorV,
            >(kinds_view(out@)),
        decreases kinds.len() - i,
    {
        assert(kinds@.take(i + 1).drop_last() =~= kinds@.take(i as int));
        assert(kinds@.take(i + 1).last() == kinds@[i as int]);
        let k = convert_kind_with_fuel(&kinds[i], interned_kinds, fuel);
        match k {
            Ok(k) => {
                let ghost before = out@;
                out.push(k);
                proof {
                    lemma_kinds_view_push(before, k);
                }
            },
            Err(e) => {
                proof {
                    lemma_kinds_err_prefix(kinds@, interned_kinds@, fuel as nat, i as int + 1);
                }
                return Err(e);
            },
        }
        i += 1;
    }
    assert(kinds@.take(kinds.len() as int) =~= kinds@);
    Ok(out)
}

proof fn lemma_kinds_err_prefix(ks: Seq<lf2::Kind>, table: Seq<lf2::Kind>, fuel: nat, i: int)
    requires
        0 <= i <= ks.len(),
        spec_convert_kinds(ks.take(i), table, fuel) is Err,
    ensures
        spec_convert_kinds(ks, table, fuel) == spec_convert_kinds(ks.take(i), table, fuel),
    decreases ks.len() - i,
{
    if i == ks.len() {
        assert(ks.take(i) =~= ks);
    } else {
        assert(ks.take(i + 1).drop_last() =~= ks.take(i));
        lemma_kinds_err_prefix(ks, table, fuel, i + 1);
    }
}

/// The model of a kinded type variable result.
pub open spec fn typevar_result_view(r: DamlLfConvertResult<DamlTypeVarWithKind>) -> Result<TypeVarV, ConvertErrorV> {
    match r {
        Ok(v) => Ok(v@),
        Err(e) => Err(e@),
    }
}

/// The element form of an LF2 kinded type variable.
pub open spec fn spec_convert_typevar(proto: lf2::TypeVarWithKind, strings: Seq<String>, table: Seq<lf2::Kind>) -> Result<
    TypeVarV,
    ConvertErrorV,
> {
    match spec_resolve_string(strings, proto.var_interned_str as int) {
        Err(e) => Err(e),
        Ok(var) => match proto.kind {
            None => Err(ConvertErrorV::MissingRequiredField),
            Some(k) => match spec_convert_kind(k, table, table.len()) {
                Err(e) => Err(e),
                Ok(kind) => Ok(TypeVarV { var, kind }),
            },
        },
    }
}

/// Convert an LF2 kinded type variable.
pub fn convert_typevar_with_kind<R: PackageInternedResolver>(
    proto: &lf2::TypeVarWithKind,
    resolver: &R,
    interned_kinds: &[lf2::Kind],
) -> (r: DamlLfConvertResult<DamlTypeVarWithKind>)
    ensures
        typevar_result_view(r) == spec_convert_typevar(*proto, resolver.spec_strings(), interned_kinds@),
{
    let var = resolver.resolve_string(proto.var_interned_str)?;
    let kind = match &proto.kind {
        None => return Err(DamlLfConvertError::MissingRequiredField),
        Some(k) => convert_kind(k, interned_kinds)?,
    };
    Ok(DamlTypeVarWithKind::new(var, kind))
}

} // verus!
