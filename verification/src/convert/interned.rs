//! Resolving indices into a package's interning tables.

use vstd::prelude::*;

use crate::element::types::names_view;
use crate::error::{
    negative_index_error, out_of_range_error, result_view, spec_negative_index_text,
    spec_out_of_range_text, ConvertErrorV, DamlLfConvertError, DamlLfConvertResult,
};
use crate::lf2::InternedDottedName;
use crate::results::{collect_seq, lemma_collect_err_prefix, lemma_collect_step};
use crate::version::LanguageVersion;

verus! {

/// Each dotted name as the interned-string indices of its segments.
pub open spec fn dotted_view(d: Seq<InternedDottedName>) -> Seq<Seq<i32>> {
    d.map_values(|n: InternedDottedName| n.segments_interned_str@)
}

pub open spec fn interned_string_table() -> Seq<char> {
    seq!['i', 'n', 't', 'e', 'r', 'n', 'e', 'd', '-', 's', 't', 'r', 'i', 'n', 'g']
}

pub open spec fn interned_dotted_name_table() -> Seq<char> {
    seq!['i', 'n', 't', 'e', 'r', 'n', 'e', 'd', '-', 'd', 'o', 't', 't', 'e', 'd', '-', 'n', 'a', 'm', 'e']
}

/// The interned string at `index`.
pub open spec fn spec_resolve_string(strings: Seq<String>, index: int) -> Result<Seq<char>, ConvertErrorV> {
    if index < 0 {
        Err(ConvertErrorV::InternalError(spec_negative_index_text(interned_string_table(), index)))
    } else if index >= strings.len() {
        Err(ConvertErrorV::InternalError(spec_out_of_range_text(interned_string_table(), index)))
    } else {
        Ok(strings[index]@)
    }
}

/// The interned strings at each of `indices`, or the first failure.
pub open spec fn spec_resolve_strings(strings: Seq<String>, indices: Seq<i32>) -> Result<
    Seq<Seq<char>>,
    ConvertErrorV,
> {
    collect_seq(indices.map_values(|i: i32| spec_resolve_string(strings, i as int)))
}

/// The segment indices of the dotted name at `index`.
pub open spec fn spec_resolve_dotted_to_indices(dotted: Seq<Seq<i32>>, index: int) -> Result<
    Seq<i32>,
    ConvertErrorV,
> {
    if index < 0 {
        Err(ConvertErrorV::InternalError(spec_negative_index_text(interned_dotted_name_table(), index)))
    } else if index >= dotted.len() {
        Err(ConvertErrorV::InternalError(spec_out_of_range_text(interned_dotted_name_table(), index)))
    } else {
        Ok(dotted[index])
    }
}

/// The segments of the dotted name at `index`.
pub open spec fn spec_resolve_dotted(strings: Seq<String>, dotted: Seq<Seq<i32>>, index: int) -> Result<
    Seq<Seq<char>>,
    ConvertErrorV,
> {
    match spec_resolve_dotted_to_indices(dotted, index) {
        Err(e) => Err(e),
        Ok(indices) => spec_resolve_strings(strings, indices),
    }
}

/// The model of a result holding a list of names.
pub open spec fn names_result_view(r: DamlLfConvertResult<Vec<String>>) -> Result<
    Seq<Seq<char>>,
    ConvertErrorV,
> {
    match r {
        Ok(v) => Ok(names_view(v@)),
        Err(e) => Err(e@),
    }
}

/// Resolves indices into a package's interning tables.
///
/// LF2 interns every string and dotted name, so resolution has no
/// language-version gating and no literal fall-back.
pub trait PackageInternedResolver {
    spec fn spec_package_id(&self) -> Seq<char>;

    spec fn spec_language_version(&self) -> LanguageVersion;

    spec fn spec_strings(&self) -> Seq<String>;

    spec fn spec_dotted(&self) -> Seq<Seq<i32>>;

    fn package_id(&self) -> (id: &str)
        ensures
            id@ == self.spec_package_id(),
    ;

    /// The archive's declared LF language version.
    fn language_version(&self) -> (version: LanguageVersion)
        ensures
            version == self.spec_language_version(),
    ;

    fn interned_strings(&self) -> (strings: &[String])
        ensures
            strings@ == self.spec_strings(),
    ;

    /// Each entry lists the interned-string indices that compose one
    /// dotted name.
    fn interned_dotted_names(&self) -> (names: &[InternedDottedName])
        ensures
            dotted_view(names@) == self.spec_dotted(),
    ;

    /// Resolve a single interned-string index.
    fn resolve_string(&self, index: i32) -> (r: DamlLfConvertResult<String>)
        ensures
            result_view(r) == spec_resolve_string(self.spec_strings(), index as int),
    {
        resolve_string_in(self.interned_strings(), index)
    }

    /// Resolve a sequence of interned-string indices.
    fn resolve_strings(&self, indices: &[i32]) -> (r: DamlLfConvertResult<Vec<String>>)
        ensures
            names_result_view(r) == spec_resolve_strings(self.spec_strings(), indices@),
    {
        resolve_strings_in(self.interned_strings(), indices)
    }

    /// The interned-string indices of the dotted name at `index`.
    fn resolve_dotted_to_indices(&self, index: i32) -> (r: DamlLfConvertResult<&[i32]>)
        ensures
            match r {
                Ok(ix) => spec_resolve_dotted_to_indices(self.spec_dotted(), index as int) == Ok::<
                    Seq<i32>,
                    ConvertErrorV,
                >(ix@),
                Err(e) => spec_resolve_dotted_to_indices(self.spec_dotted(), index as int) == Err::<
                    Seq<i32>,
                    ConvertErrorV,
                >(e@),
            },
    {
        resolve_dotted_to_indices_in(self.interned_dotted_names(), index)
    }

    /// The segments of the dotted name at `index`, e.g. `["Foo", "Bar"]`.
    fn resolve_dotted(&self, index: i32) -> (r: DamlLfConvertResult<Vec<String>>)
        ensures
            names_result_view(r) == spec_resolve_dotted(self.spec_strings(), self.spec_dotted(), index as int),
    {
        resolve_dotted_in(self.interned_strings(), self.interned_dotted_names(), index)
    }
}

/// Resolve a single interned-string index.
pub fn resolve_string_in(strings: &[String], index: i32) -> (r: DamlLfConvertResult<String>)
    ensures
        result_view(r) == spec_resolve_string(strings@, index as int),
{
    if index < 0 {
        proof {
            reveal_strlit("interned-string");
            assert("interned-string"@ =~= interned_string_table());
        }
        return Err(negative_index_error("interned-string", index as i64));
    }
    let idx = index as usize;
    if idx < strings.len() {
        Ok(strings[idx].clone())
    } else {
        proof {
            reveal_strlit("interned-string");
            assert("interned-string"@ =~= interned_string_table());
        }
        Err(out_of_range_error("interned-string", idx as i64))
    }
}

/// Resolve a sequence of interned-string indices.
pub fn resolve_strings_in(strings: &[String], indices: &[i32]) -> (r: DamlLfConvertResult<Vec<String>>)
    ensures
        names_result_view(r) == spec_resolve_strings(strings@, indices@),
{
    let ghost rs = indices@.map_values(|i: i32| spec_resolve_string(strings@, i as int));
    let mut out: Vec<String> = Vec::new();
    let mut k: usize = 0;
    assert(names_view(out@) =~= Seq::<Seq<char>>::empty());
    assert(rs.take(0) =~= Seq::<Result<Seq<char>, ConvertErrorV>>::empty());
    while k < indices.len()
        invariant
            0 <= k <= indices.len(),
            rs == indices@.map_values(|i: i32| spec_resolve_string(strings@, i as int)),
            collect_seq(rs.take(k as int)) == Ok::<Seq<Seq<char>>, ConvertErrorV>(names_view(out@)),
        decreases indices.len() - k,
    {
        proof {
            lemma_collect_step(rs, k as int);
            assert(rs[k as int] == spec_resolve_string(strings@, indices@[k as int] as int));
        }
        let ghost before = out@;
        match resolve_string_in(strings, indices[k]) {
            Ok(s) => {
                out.push(s);
                assert(names_view(out@) =~= names_view(before).push(s@));
            },
            Err(e) => {
                proof {
                    lemma_collect_err_prefix(rs, k + 1);
                }
                return Err(e);
            },
        }
        k += 1;
    }
    assert(rs.take(indices.len() as int) =~= rs);
    Ok(out)
}

/// The interned-string indices of the dotted name at `index`.
pub fn resolve_dotted_to_indices_in(names: &[InternedDottedName], index: i32) -> (r: DamlLfConvertResult<&[i32]>)
    ensures
        match r {
            Ok(ix) => spec_resolve_dotted_to_indices(dotted_view(names@), index as int) == Ok::<
                Seq<i32>,
                ConvertErrorV,
            >(ix@),
            Err(e) => spec_resolve_dotted_to_indices(dotted_view(names@), index as int) == Err::<
                Seq<i32>,
                ConvertErrorV,
            >(e@),
        },
{
    if index < 0 {
        proof {
            reveal_strlit("interned-dotted-name");
            assert("interned-dotted-name"@ =~= interned_dotted_name_table());
        }
        return Err(negative_index_error("interned-dotted-name", index as i64));
    }
    let idx = index as usize;
    if idx < names.len() {
        Ok(names[idx].segments_interned_str.as_slice())
    } else {
        proof {
            reveal_strlit("interned-dotted-name");
            assert("interned-dotted-name"@ =~= interned_dotted_name_table());
        }
        Err(out_of_range_error("interned-dotted-name", idx as i64))
    }
}

/// The segments of the dotted name at `index`, e.g. `["Foo", "Bar"]`.
pub fn resolve_dotted_in(strings: &[String], names: &[InternedDottedName], index: i32) -> (r: DamlLfConvertResult<Vec<String>>)
    ensures
        names_result_view(r) == spec_resolve_dotted(strings@, dotted_view(names@), index as int),
{
    let indices = resolve_dotted_to_indices_in(names, index)?;
    resolve_strings_in(strings, indices)
}

} // verus!
