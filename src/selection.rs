//! The selection of query parameters that criteria build.

use vstd::prelude::*;
use vstd::string::*;
use crate::criteria::{ActivityCriterion, CriterionValue};

verus! {

/// The mapping that a list of (name, value) pairs holds, later pairs
/// overriding earlier ones.
pub open spec fn pairs_map(s: Seq<(String, String)>) -> Map<Seq<char>, Seq<char>>
    decreases s.len(),
{
    if s.len() == 0 {
        Map::empty()
    } else {
        pairs_map(s.drop_last()).insert(s.last().0@, s.last().1@)
    }
}

/// No name occurs twice in the list.
pub open spec fn names_unique(s: Seq<(String, String)>) -> bool {
    forall|i: int, j: int| 0 <= i < j < s.len() ==> #[trigger] s[i].0@ != #[trigger] s[j].0@
}

/// The map after a criterion is set to a value.
pub open spec fn with_criterion<T: CriterionValue>(
    m: Map<Seq<char>, Seq<char>>,
    criterion: ActivityCriterion<T>,
    value: T,
) -> Map<Seq<char>, Seq<char>> {
    m.insert(criterion.name@, value.wire())
}

proof fn lemma_pairs_map_domain(s: Seq<(String, String)>, k: Seq<char>)
    ensures
        pairs_map(s).contains_key(k) <==> exists|i: int| 0 <= i < s.len() && #[trigger] s[i].0@ == k,
    decreases s.len(),
{
    if s.len() > 0 {
        let d = s.drop_last();
        lemma_pairs_map_domain(d, k);
        if pairs_map(s).contains_key(k) && s.last().0@ != k {
            let i = choose|i: int| 0 <= i < d.len() && #[trigger] d[i].0@ == k;
            assert(s[i] == d[i]);
        }
        if exists|i: int| 0 <= i < s.len() && #[trigger] s[i].0@ == k {
            let i = choose|i: int| 0 <= i < s.len() && #[trigger] s[i].0@ == k;
            if i < d.len() {
                assert(d[i] == s[i]);
            }
        }
    }
}

proof fn lemma_pairs_map_update(s: Seq<(String, String)>, i: int, p: (String, String))
    requires
        names_unique(s),
        0 <= i < s.len(),
        s[i].0@ == p.0@,
    ensures
        pairs_map(s.update(i, p)) == pairs_map(s).insert(p.0@, p.1@),
        names_unique(s.update(i, p)),
    decreases s.len(),
{
    let t = s.update(i, p);
    let d = s.drop_last();
    assert(t.drop_last() =~= if i == s.len() - 1 { d } else { d.update(i, p) });
    if i < s.len() - 1 {
        lemma_pairs_map_update(d, i, p);
        assert(s.last().0@ != p.0@);
        assert(pairs_map(t) =~= pairs_map(s).insert(p.0@, p.1@));
    } else {
        assert(pairs_map(t) =~= pairs_map(s).insert(p.0@, p.1@));
    }
    assert forall|a: int, b: int| 0 <= a < b < t.len() implies #[trigger] t[a].0@
        != #[trigger] t[b].0@ by {
        assert(s[a].0@ != s[b].0@);
    }
}

/// Two lists whose pairs hold the same texts hold the same mapping.
proof fn lemma_pairs_map_same_texts(s: Seq<(String, String)>, t: Seq<(String, String)>)
    requires
        s.len() == t.len(),
        forall|i: int| 0 <= i < s.len() ==> #[trigger] s[i].0@ == t[i].0@ && s[i].1@ == t[i].1@,
    ensures
        pairs_map(s) == pairs_map(t),
    decreases s.len(),
{
    if s.len() > 0 {
        let (ds, dt) = (s.drop_last(), t.drop_last());
        assert forall|i: int| 0 <= i < ds.len() implies #[trigger] ds[i].0@ == dt[i].0@ && ds[i].1@
            == dt[i].1@ by {
            assert(s[i].0@ == t[i].0@);
        }
        lemma_pairs_map_same_texts(ds, dt);
        assert(s[s.len() - 1].0@ == t[t.len() - 1].0@);
    }
}

/// Where requests for activities go.
pub const SERVICE_URL: &'static str = "http://www.boredapi.com/api/activity";

/// Query parameters: at most one value for each wire name.
#[derive(Debug)]
pub struct CriteriaSelection {
    parameters: Vec<(String, String)>,
}

impl View for CriteriaSelection {
    type V = Map<Seq<char>, Seq<char>>;

    closed spec fn view(&self) -> Map<Seq<char>, Seq<char>> {
        pairs_map(self.parameters@)
    }
}

impl Default for CriteriaSelection {
    fn default() -> (r: Self)
        ensures
            r@ == Map::<Seq<char>, Seq<char>>::empty(),
    {
        CriteriaSelection::new()
    }
}

impl Clone for CriteriaSelection {
    fn clone(&self) -> (r: Self)
        ensures
            r@ == self@,
    {
        proof {
            use_type_invariant(self);
        }
        let n = self.parameters.len();
        let mut parameters: Vec<(String, String)> = Vec::new();
        let mut i: usize = 0;
        while i < n
            invariant
                i <= n == self.parameters@.len(),
                parameters@.len() == i,
                names_unique(self.parameters@),
                forall|j: int| 0 <= j < i ==> #[trigger] parameters@[j].0@ == self.parameters@[j].0@
                    && parameters@[j].1@ == self.parameters@[j].1@,
            decreases n - i,
        {
            let name = self.parameters[i].0.clone();
            let wire = self.parameters[i].1.clone();
            parameters.push((name, wire));
            i = i + 1;
        }
        proof {
            lemma_pairs_map_same_texts(parameters@, self.parameters@);
            assert forall|a: int, b: int| 0 <= a < b < parameters@.len() implies #[trigger] parameters@[a].0@
                != #[trigger] parameters@[b].0@ by {
                assert(self.parameters@[a].0@ != self.parameters@[b].0@);
            }
        }
        CriteriaSelection { parameters }
    }
}

impl CriteriaSelection {
    #[verifier::type_invariant]
    closed spec fn inv(&self) -> bool {
        names_unique(self.parameters@)
    }

    /// The empty selection, which asks for any activity.
    pub fn new() -> (r: Self)
        ensures
            r@ == Map::<Seq<char>, Seq<char>>::empty(),
    {
        let r = CriteriaSelection { parameters: Vec::new() };
        assert(r@ =~= Map::<Seq<char>, Seq<char>>::empty());
        r
    }

    /// Binds the criterion's wire name to the value's wire text, replacing
    /// any value bound to that name before. The value is not checked
    /// against the criterion's rule (see `ActivityCriterion::validate`):
    /// a value out of range is left for the service to refuse.
    pub fn set<T: CriterionValue>(self, criterion: ActivityCriterion<T>, value: T) -> (r: Self)
        ensures
            r@ == with_criterion(self@, criterion, value),
    {
        proof {
            use_type_invariant(&self);
        }
        let name = String::from_str(criterion.name);
        let wire = value.to_wire();
        let mut parameters = self.parameters;
        let ghost before = parameters@;
        let n = parameters.len();
        let mut i: usize = 0;
        while i < n
            invariant
                i <= n == parameters@.len(),
                parameters@ == before,
                before == self.parameters@,
                names_unique(before),
                name@ == criterion.name@,
                wire@ == value.wire(),
                forall|j: int| 0 <= j < i ==> #[trigger] parameters@[j].0@ != name@,
            decreases n - i,
        {
            if parameters[i].0 == name {
                proof {
                    lemma_pairs_map_update(before, i as int, (name, wire));
                }
                parameters.set(i, (name, wire));
                return CriteriaSelection { parameters };
            }
            i = i + 1;
        }
        proof {
            lemma_pairs_map_domain(before, name@);
        }
        parameters.push((name, wire));
        assert(parameters@.drop_last() =~= before);
        assert forall|a: int, b: int| 0 <= a < b < parameters@.len() implies #[trigger] parameters@[a].0@
            != #[trigger] parameters@[b].0@ by {
            if b < n {
                assert(before[a].0@ != before[b].0@);
            }
        }
        CriteriaSelection { parameters }
    }

    /// The (name, value) pairs, each name once.
    pub fn parameters(&self) -> (r: &Vec<(String, String)>)
        ensures
            pairs_map(r@) == self@,
            names_unique(r@),
    {
        proof {
            use_type_invariant(self);
        }
        &self.parameters
    }
}

/// Setting the same criterion twice keeps only the second value: the
/// parameter is replaced, not repeated.
pub proof fn lemma_set_overwrites<T: CriterionValue>(
    m: Map<Seq<char>, Seq<char>>,
    criterion: ActivityCriterion<T>,
    first: T,
    second: T,
)
    ensures
        with_criterion(with_criterion(m, criterion, first), criterion, second) == with_criterion(
            m,
            criterion,
            second,
        ),
        with_criterion(with_criterion(m, criterion, first), criterion, second).dom() == m.dom().insert(
            criterion.name@,
        ),
{
    assert(with_criterion(with_criterion(m, criterion, first), criterion, second) =~= with_criterion(
        m,
        criterion,
        second,
    ));
    assert(with_criterion(m, criterion, second).dom() =~= m.dom().insert(criterion.name@));
}

/// The selection that a caller's transformation makes of a fresh, empty
/// selection: the parameters of a request for an activity.
pub fn criteria_for<F: FnOnce(CriteriaSelection) -> CriteriaSelection>(selection: F) -> (r:
    CriteriaSelection)
    requires
        forall|s: CriteriaSelection| #[trigger] selection.requires((s,)),
    ensures
        exists|s: CriteriaSelection|
            s@ == Map::<Seq<char>, Seq<char>>::empty() && #[trigger] selection.ensures((s,), r),
{
    let fresh = CriteriaSelection::new();
    selection(fresh)
}

/// The parameters of a request for any activity: `criteria_for` with the
/// identity transformation, which leaves the selection empty.
pub fn random_criteria() -> (r: CriteriaSelection)
    ensures
        r@ == Map::<Seq<char>, Seq<char>>::empty(),
{
    let r = criteria_for(|s: CriteriaSelection| -> (t: CriteriaSelection)
        ensures
            t == s,
        { s });
    r
}

} // verus!
