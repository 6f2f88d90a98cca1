//! Collecting a sequence of conversion results: all values, or the first
//! error.

use vstd::prelude::*;

use crate::error::ConvertErrorV;

verus! {

/// All values of `rs` when each is `Ok`, otherwise the first error.
pub open spec fn collect_seq<B>(rs: Seq<Result<B, ConvertErrorV>>) -> Result<Seq<B>, ConvertErrorV>
    decreases rs.len(),
{
    if rs.len() == 0 {
        Ok(Seq::empty())
    } else {
        match collect_seq(rs.drop_last()) {
            Err(e) => Err(e),
            Ok(bs) => match rs.last() {
                Ok(b) => Ok(bs.push(b)),
                Err(e) => Err(e),
            },
        }
    }
}

/// One more result extends the collection of a prefix.
pub proof fn lemma_collect_step<B>(rs: Seq<Result<B, ConvertErrorV>>, i: int)
    requires
        0 <= i < rs.len(),
    ensures
        collect_seq(rs.take(i + 1)) == (match collect_seq(rs.take(i)) {
            Err(e) => Err(e),
            Ok(bs) => match rs[i] {
                Ok(b) => Ok(bs.push(b)),
                Err(e) => Err(e),
            },
        }),
{
    assert(rs.take(i + 1).drop_last() =~= rs.take(i));
}

/// Once a prefix has failed, the whole sequence fails with the same error.
pub proof fn lemma_collect_err_prefix<B>(rs: Seq<Result<B, ConvertErrorV>>, i: int)
    requires
        0 <= i <= rs.len(),
        collect_seq(rs.take(i)) is Err,
    ensures
        collect_seq(rs) == collect_seq(rs.take(i)),
    decreases rs.len() - i,
{
    if i == rs.len() {
        assert(rs.take(i) =~= rs);
    } else {
        lemma_collect_step(rs, i);
        lemma_collect_err_prefix(rs, i + 1);
    }
}

/// A sequence collects to all its values exactly when each is `Ok`.
pub proof fn lemma_collect_all_ok<B>(rs: Seq<Result<B, ConvertErrorV>>)
    ensures
        collect_seq(rs) is Ok <==> forall|j: int| 0 <= j < rs.len() ==> rs[j] is Ok,
        collect_seq(rs) is Ok ==> collect_seq(rs)->Ok_0.len() == rs.len() && forall|j: int|
            0 <= j < rs.len() ==> rs[j] == Ok::<B, ConvertErrorV>(#[trigger] collect_seq(rs)->Ok_0[j]),
    decreases rs.len(),
{
    if rs.len() > 0 {
        lemma_collect_all_ok(rs.drop_last());
        if collect_seq(rs) is Ok {
            assert forall|j: int| 0 <= j < rs.len() implies rs[j] is Ok by {
                if j < rs.len() - 1 {
                    assert(rs.drop_last()[j] == rs[j]);
                }
            }
        }
        if forall|j: int| 0 <= j < rs.len() ==> rs[j] is Ok {
            assert forall|j: int| 0 <= j < rs.drop_last().len() implies rs.drop_last()[j] is Ok by {
                assert(rs.drop_last()[j] == rs[j]);
            }
        }
    }
}

} // verus!

verus! {

/// `f` applied to each element of `s`: all values, or the first error.
pub open spec fn map_convert<A, B>(s: Seq<A>, f: spec_fn(A) -> Result<B, ConvertErrorV>) -> Result<
    Seq<B>,
    ConvertErrorV,
>
    decreases s.len(),
{
    if s.len() == 0 {
        Ok(Seq::empty())
    } else {
        match map_convert(s.drop_last(), f) {
            Err(e) => Err(e),
            Ok(bs) => match f(s.last()) {
                Err(e) => Err(e),
                Ok(b) => Ok(bs.push(b)),
            },
        }
    }
}

/// Converting one more element extends the conversion of a prefix.
pub proof fn lemma_map_convert_step<A, B>(s: Seq<A>, f: spec_fn(A) -> Result<B, ConvertErrorV>, i: int)
    requires
        0 <= i < s.len(),
    ensures
        map_convert(s.take(i + 1), f) == (match map_convert(s.take(i), f) {
            Err(e) => Err(e),
            Ok(bs) => match f(s[i]) {
                Err(e) => Err(e),
                Ok(b) => Ok(bs.push(b)),
            },
        }),
{
    assert(s.take(i + 1).drop_last() =~= s.take(i));
    assert(s.take(i + 1).last() == s[i]);
}

/// Once a prefix fails to convert, the whole sequence fails the same way.
pub proof fn lemma_map_convert_err_prefix<A, B>(s: Seq<A>, f: spec_fn(A) -> Result<B, ConvertErrorV>, i: int)
    requires
        0 <= i <= s.len(),
        map_convert(s.take(i), f) is Err,
    ensures
        map_convert(s, f) == map_convert(s.take(i), f),
    decreases s.len() - i,
{
    if i == s.len() {
        assert(s.take(i) =~= s);
    } else {
        lemma_map_convert_step(s, f, i);
        lemma_map_convert_err_prefix(s, f, i + 1);
    }
}

/// Converting a single element.
pub proof fn lemma_map_convert_single<A, B>(x: A, f: spec_fn(A) -> Result<B, ConvertErrorV>)
    ensures
        map_convert(seq![x], f) == (match f(x) {
            Err(e) => Err(e),
            Ok(b) => Ok(seq![b]),
        }),
{
    assert(seq![x].drop_last() =~= Seq::<A>::empty());
    assert(seq![x].last() == x);
    assert(map_convert(Seq::<A>::empty(), f) == Ok::<Seq<B>, ConvertErrorV>(Seq::empty()));
    assert(Seq::<B>::empty().push(f(x)->Ok_0) =~= seq![f(x)->Ok_0]);
}

/// Converting all of a sequence is converting its full prefix.
pub proof fn lemma_map_convert_full<A, B>(s: Seq<A>, f: spec_fn(A) -> Result<B, ConvertErrorV>)
    ensures
        map_convert(s.take(s.len() as int), f) == map_convert(s, f),
        map_convert(s.take(0), f) == Ok::<Seq<B>, ConvertErrorV>(Seq::empty()),
{
    assert(s.take(s.len() as int) =~= s);
    assert(s.take(0) =~= Seq::<A>::empty());
}

/// Converting a list element by element: on success one value per element,
/// in order, each the one its element gives; otherwise the error of the
/// first element that fails, every element before it having converted.
pub proof fn lemma_map_convert_elementwise<A, B>(s: Seq<A>, f: spec_fn(A) -> Result<B, ConvertErrorV>)
    ensures
        match map_convert(s, f) {
            Ok(bs) => bs.len() == s.len() && forall|j: int|
                0 <= j < s.len() ==> f(s[j]) == Ok::<B, ConvertErrorV>(#[trigger] bs[j]),
            Err(e) => exists|k: int|
                0 <= k < s.len() && f(#[trigger] s[k]) == Err::<B, ConvertErrorV>(e) && forall|j: int|
                    0 <= j < k ==> (#[trigger] f(s[j])) is Ok,
        },
    decreases s.len(),
{
    if s.len() > 0 {
        let init = s.drop_last();
        lemma_map_convert_elementwise(init, f);
        match map_convert(init, f) {
            Ok(bs) => {
                assert forall|j: int| 0 <= j < s.len() - 1 implies (#[trigger] f(s[j])) is Ok by {
                    assert(init[j] == s[j]);
                    assert(f(init[j]) == Ok::<B, ConvertErrorV>(bs[j]));
                }
                match f(s.last()) {
                    Ok(b) => {
                        let all = bs.push(b);
                        assert forall|j: int| 0 <= j < s.len() implies f(s[j]) == Ok::<B, ConvertErrorV>(
                            #[trigger] all[j],
                        ) by {
                            if j < s.len() - 1 {
                                assert(init[j] == s[j]);
                                assert(f(init[j]) == Ok::<B, ConvertErrorV>(bs[j]));
                            }
                        }
                    },
                    Err(e) => {
                        let k = s.len() - 1;
                        assert(f(s[k]) == Err::<B, ConvertErrorV>(e));
                    },
                }
            },
            Err(e) => {
                let k = choose|k: int|
                    0 <= k < init.len() && f(#[trigger] init[k]) == Err::<B, ConvertErrorV>(e) && forall|j: int|
                        0 <= j < k ==> (#[trigger] f(init[j])) is Ok;
                assert(init[k] == s[k]);
                assert forall|j: int| 0 <= j < k implies (#[trigger] f(s[j])) is Ok by {
                    assert(init[j] == s[j]);
                    assert(f(init[j]) is Ok);
                }
                assert(f(s[k]) == Err::<B, ConvertErrorV>(e));
            },
        }
    }
}

/// `a` if it holds an error, else `b`.
pub open spec fn or_else<E>(a: Option<E>, b: Option<E>) -> Option<E> {
    match a {
        Some(_) => a,
        None => b,
    }
}

/// The first error that `f` finds among `s`, in order.
pub open spec fn first_error<T, E>(s: Seq<T>, f: spec_fn(T) -> Option<E>) -> Option<E>
    decreases s.len(),
{
    if s.len() == 0 {
        None
    } else {
        or_else(f(s[0]), first_error(s.drop_first(), f))
    }
}

/// Choosing the first error of a prefix with none skips it.
pub proof fn lemma_first_error_skip<T, E>(s: Seq<T>, f: spec_fn(T) -> Option<E>, i: int)
    requires
        0 <= i <= s.len(),
        forall|j: int| 0 <= j < i ==> f(#[trigger] s[j]) is None,
    ensures
        first_error(s, f) == first_error(s.skip(i), f),
    decreases i,
{
    if i > 0 {
        assert forall|j: int| 0 <= j < i - 1 implies f(#[trigger] s.drop_first()[j]) is None by {
            assert(s.drop_first()[j] == s[j + 1]);
        }
        lemma_first_error_skip(s.drop_first(), f, i - 1);
        assert(s.drop_first().skip(i - 1) =~= s.skip(i));
    } else {
        assert(s.skip(0) =~= s);
    }
}

/// The first error is that of the first entry with one.
pub proof fn lemma_first_error_at<T, E>(s: Seq<T>, f: spec_fn(T) -> Option<E>, i: int)
    requires
        0 <= i < s.len(),
        forall|j: int| 0 <= j < i ==> f(#[trigger] s[j]) is None,
        f(s[i]) is Some,
    ensures
        first_error(s, f) == f(s[i]),
{
    lemma_first_error_skip(s, f, i);
    assert(s.skip(i)[0] == s[i]);
}

/// With no error in any entry there is no first error.
pub proof fn lemma_first_error_none<T, E>(s: Seq<T>, f: spec_fn(T) -> Option<E>)
    requires
        forall|j: int| 0 <= j < s.len() ==> f(#[trigger] s[j]) is None,
    ensures
        first_error(s, f) is None,
{
    lemma_first_error_skip(s, f, s.len() as int);
}

/// With no first error, no entry has an error.
pub proof fn lemma_first_error_none_all<T, E>(s: Seq<T>, f: spec_fn(T) -> Option<E>)
    requires
        first_error(s, f) is None,
    ensures
        forall|j: int| 0 <= j < s.len() ==> f(#[trigger] s[j]) is None,
    decreases s.len(),
{
    if s.len() > 0 {
        lemma_first_error_none_all(s.drop_first(), f);
        assert forall|j: int| 0 <= j < s.len() implies f(#[trigger] s[j]) is None by {
            if j > 0 {
                assert(s[j] == s.drop_first()[j - 1]);
            }
        }
    }
}

} // verus!
