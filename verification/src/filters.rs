//! Filter translation: a caller-supplied filter specification becomes three
//! ordered lists of equality-match conditions (must / must-not / should) for
//! the vector-search boundary.

use vstd::prelude::*;

verus! {

/// One equality-match constraint on a payload field: the field named `key`
/// must equal `value`. No negation, range, or nested logic exists at this
/// layer; negation is expressed purely by which output list a condition
/// lands in.
pub struct Condition {
    pub key: String,
    pub value: String,
}

/// A caller-supplied filter specification: three ordered lists of constraint
/// groups, each group an ordered list of field/value pairs.
pub struct FilterConditions {
    pub must: Vec<Vec<(String, String)>>,
    pub must_not: Vec<Vec<(String, String)>>,
    pub should: Vec<Vec<(String, String)>>,
}

/// The view of a list of field/value pairs: the sequence of their
/// (field, value) character sequences, in order.
pub open spec fn pairs_view(ps: Seq<(String, String)>) -> Seq<(Seq<char>, Seq<char>)> {
    ps.map(|i: int, p: (String, String)| (p.0@, p.1@))
}

/// The view of a list of constraint groups: the pairs of every group,
/// group order and in-group order both preserved.
pub open spec fn groups_view(gs: Seq<Vec<(String, String)>>) -> Seq<(Seq<char>, Seq<char>)>
    decreases gs.len(),
{
    if gs.len() == 0 {
        Seq::empty()
    } else {
        groups_view(gs.drop_last()) + pairs_view(gs.last()@)
    }
}

/// The view of a list of translated conditions.
pub open spec fn conds_view(cs: Seq<Condition>) -> Seq<(Seq<char>, Seq<char>)> {
    cs.map(|i: int, c: Condition| (c.key@, c.value@))
}

/// What the translator returns for a filter specification: the flattened
/// must, must-not and should groups; three empty lists when the
/// specification is absent.
pub open spec fn translated_filters(filters: Option<FilterConditions>) -> (
    Seq<(Seq<char>, Seq<char>)>,
    Seq<(Seq<char>, Seq<char>)>,
    Seq<(Seq<char>, Seq<char>)>,
) {
    match filters {
        None => (Seq::empty(), Seq::empty(), Seq::empty()),
        Some(f) => (groups_view(f.must@), groups_view(f.must_not@), groups_view(f.should@)),
    }
}

/// Appends one translated condition per field/value pair of every group of
/// `groups` to `target`, in order.
fn process_filters(groups: &Vec<Vec<(String, String)>>, target: &mut Vec<Condition>)
    ensures
        conds_view(final(target)@) == conds_view(old(target)@) + groups_view(groups@),
{
    let mut gi: usize = 0;
    while gi < groups.len()
        invariant
            gi <= groups.len(),
            conds_view(target@) == conds_view(old(target)@) + groups_view(groups@.take(gi as int)),
        decreases groups.len() - gi,
    {
        let group: &Vec<(String, String)> = &groups[gi];
        let mut pi: usize = 0;
        while pi < group.len()
            invariant
                gi < groups.len(),
                group@ == groups@[gi as int]@,
                pi <= group.len(),
                conds_view(target@) == conds_view(old(target)@) + groups_view(
                    groups@.take(gi as int),
                ) + pairs_view(group@.take(pi as int)),
            decreases group.len() - pi,
        {
            let pair: &(String, String) = &group[pi];
            let cond = Condition { key: pair.0.clone(), value: pair.1.clone() };
            let ghost c = cond;
            let ghost before = target@;
            target.push(cond);
            proof {
                assert(target@ == before.push(c));
                assert(conds_view(before.push(c)) =~~= conds_view(before).push(
                    (c.key@, c.value@),
                ));
                assert(pairs_view(group@.take(pi as int + 1)) =~~= pairs_view(
                    group@.take(pi as int),
                ).push((pair.0@, pair.1@)));
                assert(conds_view(target@) =~~= conds_view(old(target)@) + groups_view(
                    groups@.take(gi as int),
                ) + pairs_view(group@.take(pi as int + 1)));
            }
            pi = pi + 1;
        }
        proof {
            assert(group@.take(group@.len() as int) =~~= group@);
            assert(groups@.take(gi as int + 1).drop_last() =~~= groups@.take(gi as int));
            assert(groups@.take(gi as int + 1).last()@ == groups@[gi as int]@);
            assert(conds_view(target@) =~~= conds_view(old(target)@) + groups_view(
                groups@.take(gi as int + 1),
            ));
        }
        gi = gi + 1;
    }
    proof {
        assert(groups@.take(groups@.len() as int) =~~= groups@);
    }
}

/// Translates an optional filter specification into the three condition
/// lists the vector-search boundary consumes. An absent specification
/// yields three empty lists: an unconstrained query, never an always-false
/// one.
pub fn convert_hashmap_to_filters(filters: &Option<FilterConditions>) -> (r: (
    Vec<Condition>,
    Vec<Condition>,
    Vec<Condition>,
))
    ensures
        conds_view(r.0@) == translated_filters(*filters).0,
        conds_view(r.1@) == translated_filters(*filters).1,
        conds_view(r.2@) == translated_filters(*filters).2,
{
    let mut must_vec: Vec<Condition> = Vec::new();
    let mut must_not_vec: Vec<Condition> = Vec::new();
    let mut should_vec: Vec<Condition> = Vec::new();

    if let Some(f) = filters {
        process_filters(&f.must, &mut must_vec);
        process_filters(&f.must_not, &mut must_not_vec);
        process_filters(&f.should, &mut should_vec);
    }
    proof {
        assert(conds_view(must_vec@) =~~= translated_filters(*filters).0);
        assert(conds_view(must_not_vec@) =~~= translated_filters(*filters).1);
        assert(conds_view(should_vec@) =~~= translated_filters(*filters).2);
    }
    (must_vec, must_not_vec, should_vec)
}

/// A filter specification whose three group lists are all empty translates
/// to three empty condition lists, as an absent specification does: both
/// yield an unconstrained query.
pub proof fn lemma_empty_filters_translate_to_empty(filters: Option<FilterConditions>)
    requires
        filters matches Some(f) ==> f.must@.len() == 0 && f.must_not@.len() == 0
            && f.should@.len() == 0,
    ensures
        translated_filters(filters).0 == Seq::<(Seq<char>, Seq<char>)>::empty(),
        translated_filters(filters).1 == Seq::<(Seq<char>, Seq<char>)>::empty(),
        translated_filters(filters).2 == Seq::<(Seq<char>, Seq<char>)>::empty(),
{
}

/// A filter specification holding exactly one field/value pair, in one
/// group of the must list, with must-not and should empty, translates to
/// exactly one must condition carrying that field and value, and empty
/// must-not and should lists.
pub proof fn lemma_single_must_pair_translates_to_one_condition(f: FilterConditions)
    requires
        f.must@.len() == 1,
        f.must@[0]@.len() == 1,
        f.must_not@.len() == 0,
        f.should@.len() == 0,
    ensures
        translated_filters(Some(f)).0 == seq![(f.must@[0]@[0].0@, f.must@[0]@[0].1@)],
        translated_filters(Some(f)).1 == Seq::<(Seq<char>, Seq<char>)>::empty(),
        translated_filters(Some(f)).2 == Seq::<(Seq<char>, Seq<char>)>::empty(),
{
    reveal_with_fuel(groups_view, 2);
    assert(f.must@.drop_last() =~~= Seq::<Vec<(String, String)>>::empty());
    assert(translated_filters(Some(f)).0 =~~= seq![(f.must@[0]@[0].0@, f.must@[0]@[0].1@)]);
}

} // verus!
