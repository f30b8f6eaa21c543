//! Reading the children of an entry one after the other.

use crate::error::Failure;
use vstd::prelude::*;

verus! {

/// What the first `n` of `items` yield when each is read with `f`, in
/// their order: an item may yield a value or nothing, and the first that
/// cannot be read ends the reading with its failure.
pub open spec fn collect<T>(
    items: Seq<usize>,
    f: spec_fn(usize) -> Result<Option<T>, Failure>,
    n: int,
) -> Result<Seq<T>, Failure>
    decreases n,
{
    if n <= 0 {
        Ok(Seq::empty())
    } else {
        match collect(items, f, n - 1) {
            Err(e) => Err(e),
            Ok(found) => match f(items[n - 1]) {
                Err(e) => Err(e),
                Ok(None) => Ok(found),
                Ok(Some(item)) => Ok(found.push(item)),
            },
        }
    }
}

/// What all of `items` yield.
pub open spec fn collect_all<T>(
    items: Seq<usize>,
    f: spec_fn(usize) -> Result<Option<T>, Failure>,
) -> Result<Seq<T>, Failure> {
    collect(items, f, items.len() as int)
}

/// Once reading has failed, reading further fails in the same way.
pub proof fn lemma_collect_fails<T>(
    items: Seq<usize>,
    f: spec_fn(usize) -> Result<Option<T>, Failure>,
    k: int,
    n: int,
)
    requires
        0 <= k <= n,
        collect(items, f, k) is Err,
    ensures
        collect(items, f, n) == collect(items, f, k),
    decreases n - k,
{
    if k < n {
        lemma_collect_fails(items, f, k, n - 1);
    }
}

/// Reading succeeds only if every item can be read.
pub proof fn lemma_collect_reads_all<T>(
    items: Seq<usize>,
    f: spec_fn(usize) -> Result<Option<T>, Failure>,
    n: int,
)
    requires
        collect(items, f, n) is Ok,
    ensures
        forall|i: int| 0 <= i < n ==> (#[trigger] f(items[i])) is Ok,
    decreases n,
{
    if n > 0 {
        lemma_collect_reads_all(items, f, n - 1);
    }
}

/// Reading fails with the failure of the first item that cannot be read.
pub proof fn lemma_collect_first_failure<T>(
    items: Seq<usize>,
    f: spec_fn(usize) -> Result<Option<T>, Failure>,
    n: int,
)
    requires
        collect(items, f, n) is Err,
    ensures
        exists|i: int|
            0 <= i < n && #[trigger] f(items[i]) is Err && f(items[i])->Err_0 == collect(
                items,
                f,
                n,
            )->Err_0 && forall|j: int| 0 <= j < i ==> (#[trigger] f(items[j])) is Ok,
    decreases n,
{
    if n > 0 {
        if collect(items, f, n - 1) is Err {
            lemma_collect_first_failure(items, f, n - 1);
            let i = choose|i: int|
                0 <= i < n - 1 && #[trigger] f(items[i]) is Err && f(items[i])->Err_0 == collect(
                    items,
                    f,
                    n - 1,
                )->Err_0 && forall|j: int| 0 <= j < i ==> (#[trigger] f(items[j])) is Ok;
            assert(0 <= i < n && f(items[i]) is Err && f(items[i])->Err_0 == collect(
                items,
                f,
                n,
            )->Err_0 && forall|j: int| 0 <= j < i ==> (#[trigger] f(items[j])) is Ok);
        } else {
            lemma_collect_reads_all(items, f, n - 1);
            let i = n - 1;
            assert(0 <= i < n && f(items[i]) is Err && f(items[i])->Err_0 == collect(
                items,
                f,
                n,
            )->Err_0 && forall|j: int| 0 <= j < i ==> (#[trigger] f(items[j])) is Ok);
        }
    }
}

/// Whether `s` begins with `prefix`.
pub open spec fn spec_starts_with(s: Seq<char>, prefix: Seq<char>) -> bool {
    prefix.len() <= s.len() && s.subrange(0, prefix.len() as int) == prefix
}

/// Whether `s` begins with `prefix`.
pub fn starts_with(s: &str, prefix: &str) -> (r: bool)
    ensures
        r == spec_starts_with(s@, prefix@),
{
    let n = prefix.unicode_len();
    if s.unicode_len() < n {
        return false;
    }
    let mut i: usize = 0;
    while i < n
        invariant
            i <= n,
            n == prefix@.len(),
            n <= s@.len(),
            s@.subrange(0, i as int) == prefix@.subrange(0, i as int),
        decreases n - i,
    {
        if s.get_char(i) != prefix.get_char(i) {
            assert(s@.subrange(0, n as int)[i as int] != prefix@[i as int]);
            return false;
        }
        assert(s@.subrange(0, i + 1) == s@.subrange(0, i as int).push(s@[i as int]));
        assert(prefix@.subrange(0, i + 1) == prefix@.subrange(0, i as int).push(prefix@[i as int]));
        i += 1;
    }
    assert(prefix@.subrange(0, n as int) == prefix@);
    true
}

/// Whether the two strings are the same.
pub fn same(a: &str, b: &str) -> (r: bool)
    ensures
        r == (a@ == b@),
{
    if a.unicode_len() != b.unicode_len() {
        return false;
    }
    let r = starts_with(a, b);
    assert(a@.subrange(0, a@.len() as int) == a@);
    r
}

} // verus!
