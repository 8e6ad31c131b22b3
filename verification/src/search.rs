use vstd::prelude::*;

verus! {

/// The lowercase form of a sequence of characters, as `str::to_lowercase`
/// computes it. The result depends on the characters alone.
pub uninterp spec fn lower_of(s: Seq<char>) -> Seq<char>;

/// `needle` occurs as a contiguous run inside `hay`.
pub open spec fn contains_seq(hay: Seq<char>, needle: Seq<char>) -> bool {
    exists|i: int|
        0 <= i && i + needle.len() <= hay.len() && #[trigger] hay.subrange(i, i + needle.len())
            == needle
}

/// A name passes the filter when its lowercase form contains the lowercase
/// form of the search string.
pub open spec fn matches_name(name: Seq<char>, search: Seq<char>) -> bool {
    contains_seq(lower_of(name), lower_of(search))
}

/// The names among `names` that match `search`, in their original order.
pub open spec fn filter_spec(names: Seq<Seq<char>>, search: Seq<char>) -> Seq<Seq<char>> {
    names.filter(|n: Seq<char>| matches_name(n, search))
}

/// Relies on `str::to_lowercase`: the result is the lowercase form of the
/// input, and depends on the input's characters alone; an empty input stays
/// empty.
#[verifier::external_body]
fn to_lower(s: &str) -> (r: String)
    ensures
        r@ == lower_of(s@),
        s@.len() == 0 ==> r@.len() == 0,
{
    s.to_lowercase()
}

/// Relies on `str::contains` with a `&str` pattern: it reports whether the
/// needle occurs as a contiguous substring of the haystack.
#[verifier::external_body]
fn str_contains(hay: &str, needle: &str) -> (r: bool)
    ensures
        r == contains_seq(hay@, needle@),
{
    hay.contains(needle)
}

/// The names of `source` whose lowercase form contains the lowercase form of
/// `search`, in their original order. The result is a function of the two
/// arguments alone, and `source` itself is left untouched.
pub fn filter_names(source: &Vec<String>, search: &str) -> (out: Vec<String>)
    ensures
        out.deep_view() == filter_spec(source.deep_view(), search@),
{
    let needle = to_lower(search);
    let mut out: Vec<String> = Vec::new();
    let mut i: usize = 0;
    while i < source.len()
        invariant
            i <= source.len(),
            needle@ == lower_of(search@),
            out.deep_view() == filter_spec(source.deep_view().take(i as int), search@),
        decreases source.len() - i,
    {
        let ghost pre = out.deep_view();
        let low = to_lower(source[i].as_str());
        let keep = str_contains(low.as_str(), needle.as_str());
        if keep {
            out.push(source[i].clone());
        }
        proof {
            lemma_filter_take_step(source.deep_view(), search@, i as int);
            if keep {
                assert(out.deep_view() =~= pre.push(source.deep_view()[i as int]));
            }
        }
        i += 1;
    }
    proof {
        assert(source.deep_view().take(source.len() as int) =~= source.deep_view());
    }
    out
}

/// One step of `filter_spec` over a growing prefix of `names`.
proof fn lemma_filter_take_step(names: Seq<Seq<char>>, search: Seq<char>, i: int)
    requires
        0 <= i < names.len(),
    ensures
        filter_spec(names.take(i + 1), search) == if matches_name(names[i], search) {
            filter_spec(names.take(i), search).push(names[i])
        } else {
            filter_spec(names.take(i), search)
        },
{
    reveal(Seq::filter);
    assert(names.take(i + 1).drop_last() =~= names.take(i));
    assert(names.take(i + 1).last() == names[i]);
}

/// Containment of character runs is transitive.
proof fn lemma_contains_trans(a: Seq<char>, b: Seq<char>, c: Seq<char>)
    requires
        contains_seq(a, b),
        contains_seq(b, c),
    ensures
        contains_seq(a, c),
{
    let i = choose|i: int|
        0 <= i && i + b.len() <= a.len() && #[trigger] a.subrange(i, i + b.len()) == b;
    let j = choose|j: int|
        0 <= j && j + c.len() <= b.len() && #[trigger] b.subrange(j, j + c.len()) == c;
    assert(a.subrange(i + j, i + j + c.len()) =~= c) by {
        assert forall|k: int| 0 <= k < c.len() implies a[i + j + k] == c[k] by {
            assert(b[j + k] == a.subrange(i, i + b.len())[j + k]);
            assert(c[k] == b.subrange(j, j + c.len())[k]);
        };
    };
    assert(0 <= i + j && (i + j) + c.len() <= a.len());
}

/// A filter under `s2` shows a subset of the names that a filter under `s1`
/// shows, whenever every name matching `s2` also matches `s1`.
proof fn lemma_filter_subset_of(names: Seq<Seq<char>>, s1: Seq<char>, s2: Seq<char>)
    requires
        forall|n: Seq<char>| matches_name(n, s2) ==> matches_name(n, s1),
    ensures
        forall|x: Seq<char>|
            filter_spec(names, s2).contains(x) ==> filter_spec(names, s1).contains(x),
    decreases names.len(),
{
    reveal(Seq::filter);
    if names.len() == 0 {
    } else {
        let rest = names.drop_last();
        let last = names.last();
        lemma_filter_subset_of(rest, s1, s2);
        assert forall|x: Seq<char>|
            filter_spec(names, s2).contains(x) implies filter_spec(names, s1).contains(x) by {
            if filter_spec(rest, s2).contains(x) {
                let k = choose|k: int|
                    0 <= k < filter_spec(rest, s1).len() && filter_spec(rest, s1)[k] == x;
                if matches_name(last, s1) {
                    assert(filter_spec(names, s1)[k] == x);
                } else {
                    assert(filter_spec(names, s1)[k] == x);
                }
            } else {
                assert(x == last);
                assert(matches_name(last, s1));
                assert(filter_spec(names, s1).last() == x);
            }
        };
    }
}

/// Filtering is a pure function of the source names and the search string:
/// two filtered lists computed from the same inputs are the same list.
pub proof fn lemma_filter_pure(
    names: Seq<Seq<char>>,
    search: Seq<char>,
    f1: Seq<Seq<char>>,
    f2: Seq<Seq<char>>,
)
    requires
        f1 == filter_spec(names, search),
        f2 == filter_spec(names, search),
    ensures
        f1 == f2,
{
}

/// Filtering never hides a name that a longer search still shows: every name
/// shown under the search `s` with `c` appended is also shown under `s`
/// alone. This holds whenever the lowercase form of `s` still occurs inside
/// the lowercase form of `s` with `c` appended, which the hypothesis states;
/// lowercasing a longer string does not otherwise relate to lowercasing its
/// prefix.
pub proof fn lemma_search_delete_superset(names: Seq<Seq<char>>, s: Seq<char>, c: char)
    requires
        contains_seq(lower_of(s.push(c)), lower_of(s)),
    ensures
        forall|x: Seq<char>|
            filter_spec(names, s.push(c)).contains(x) ==> filter_spec(names, s).contains(x),
{
    assert forall|n: Seq<char>| matches_name(n, s.push(c)) implies matches_name(n, s) by {
        lemma_contains_trans(lower_of(n), lower_of(s.push(c)), lower_of(s));
    };
    lemma_filter_subset_of(names, s, s.push(c));
}

} // verus!
