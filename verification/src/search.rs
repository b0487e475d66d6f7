use vstd::prelude::*;
use crate::project::Project;
use crate::text::contains_seq;
use crate::text::contains_substr;
use crate::text::lemma_contains_empty;
use crate::text::lower_of;
use crate::text::lowercase;

verus! {

/// The project name, lowercased, contains the (already lowercased) query `q`.
pub open spec fn name_matches(name: Seq<char>, q: Seq<char>) -> bool {
    contains_seq(lower_of(name), q)
}

/// The filter predicate for a lowercased query `q`, as one shared term.
pub open spec fn match_pred(q: Seq<char>) -> spec_fn(Project) -> bool {
    |p: Project| name_matches(p.name@, q)
}

/// What filtering returns for a lowercased query `q`: the whole list when the
/// query is empty, else the subsequence whose lowercased names contain `q`,
/// in their original relative order.
pub open spec fn filter_spec(s: Seq<Project>, q: Seq<char>) -> Seq<Project> {
    if q.len() == 0 {
        s
    } else {
        s.filter(match_pred(q))
    }
}

/// A fresh copy of the project list, equal element for element.
pub fn clone_projects(v: &Vec<Project>) -> (r: Vec<Project>)
    ensures
        r@ == v@,
{
    let mut r: Vec<Project> = Vec::new();
    let mut i: usize = 0;
    while i < v.len()
        invariant
            i <= v@.len(),
            r@ == v@.take(i as int),
        decreases v@.len() - i,
    {
        r.push(v[i].clone());
        proof {
            assert(v@.take(i + 1) =~= v@.take(i as int).push(v@[i as int]));
        }
        i += 1;
    }
    proof {
        assert(v@.take(v@.len() as int) =~= v@);
    }
    r
}

/// Case-insensitive substring filtering: lowercases the query once, then keeps
/// exactly the projects whose lowercased name contains it. An empty query
/// returns the whole list as a fresh copy.
pub fn filter_projects(all: &Vec<Project>, query: &str) -> (r: Vec<Project>)
    ensures
        r@ == filter_spec(all@, lower_of(query@)),
        query@.len() == 0 ==> r@ == all@,
{
    let q = lowercase(query);
    if q.unicode_len() == 0 {
        clone_projects(all)
    } else {
        let mut r: Vec<Project> = Vec::new();
        let mut i: usize = 0;
        while i < all.len()
            invariant
                i <= all@.len(),
                q@ == lower_of(query@),
                q@.len() > 0,
                r@ == filter_spec(all@.take(i as int), q@),
            decreases all@.len() - i,
        {
            let low_name = lowercase(all[i].name.as_str());
            if contains_substr(low_name.as_str(), q.as_str()) {
                r.push(all[i].clone());
            }
            proof {
                all@.take(i as int).lemma_filter_push(all@[i as int], match_pred(q@));
                assert(all@.take(i + 1) =~= all@.take(i as int).push(all@[i as int]));
            }
            i += 1;
        }
        proof {
            assert(all@.take(all@.len() as int) =~= all@);
        }
        r
    }
}

/// Every element of a sequence whose lowercased names all contain `q` survives
/// the filter, so the filter returns the sequence itself.
proof fn lemma_filter_of_matching(s: Seq<Project>, q: Seq<char>)
    requires
        forall|i: int| 0 <= i < s.len() ==> name_matches((#[trigger] s[i]).name@, q),
    ensures
        s.filter(match_pred(q)) == s,
    decreases s.len(),
{
    reveal(Seq::filter);
    if s.len() == 0 {
        assert(s.filter(match_pred(q)) =~= s);
    } else {
        lemma_filter_of_matching(s.drop_last(), q);
        assert(name_matches(s[s.len() - 1].name@, q));
        assert(s.drop_last().push(s.last()) =~= s);
    }
}

/// Law: filtering is idempotent — filtering an already-filtered list again
/// with the same query changes nothing.
pub proof fn lemma_filter_idempotent(s: Seq<Project>, q: Seq<char>)
    ensures
        filter_spec(filter_spec(s, q), q) == filter_spec(s, q),
{
    if q.len() > 0 {
        let f = s.filter(match_pred(q));
        assert forall|i: int| 0 <= i < f.len() implies name_matches(
            (#[trigger] f[i]).name@,
            q,
        ) by {
            s.lemma_filter_pred(match_pred(q), i);
        }
        lemma_filter_of_matching(f, q);
    }
}

/// Law: filtering never grows the list, and every element of the result is an
/// element of the input whose lowercased name contains the query.
pub proof fn lemma_filter_sound(s: Seq<Project>, q: Seq<char>)
    ensures
        filter_spec(s, q).len() <= s.len(),
        forall|i: int| 0 <= i < filter_spec(s, q).len() ==> s.contains(
            #[trigger] filter_spec(s, q)[i],
        ) && name_matches(filter_spec(s, q)[i].name@, q),
{
    let f = filter_spec(s, q);
    if q.len() == 0 {
        assert forall|i: int| 0 <= i < f.len() implies s.contains(#[trigger] f[i])
            && name_matches(f[i].name@, q) by {
            assert(s[i] == f[i]);
            lemma_contains_empty(lower_of(f[i].name@), q);
        }
    } else {
        s.lemma_filter_len(match_pred(q));
        assert forall|i: int| 0 <= i < f.len() implies s.contains(#[trigger] f[i])
            && name_matches(f[i].name@, q) by {
            s.lemma_filter_pred(match_pred(q), i);
            assert(f.contains(f[i]));
            s.lemma_filter_contains_rev(match_pred(q), f[i]);
        }
    }
}

} // verus!
