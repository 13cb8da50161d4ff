//! The JSON document model the schema reader works on. A schema file is
//! loaded and decoded outside the library and handed over as a `JsonValue`
//! tree; object members keep the order in which the document gave them.

use vstd::prelude::*;
use vstd::multiset::Multiset;
use crate::text::{lex_le, str_le, lemma_lex_le_total, lemma_lex_le_trans, lemma_lex_le_refl};

verus! {

/// One JSON value. Schemas never read numeric payloads, so a number is
/// carried as a bare marker.
#[derive(Debug)]
pub enum JsonValue {
    Null,
    Bool(bool),
    Number,
    Str(String),
    Array(Vec<JsonValue>),
    Object(Vec<(String, JsonValue)>),
}

/// Mathematical mirror of `JsonValue`.
pub enum JsonView {
    Null,
    Bool(bool),
    Number,
    Str(Seq<char>),
    Array(Seq<JsonView>),
    Object(Seq<(Seq<char>, JsonView)>),
}

/// View of one value.
pub open spec fn jv_view(v: JsonValue) -> JsonView
    decreases v,
{
    match v {
        JsonValue::Null => JsonView::Null,
        JsonValue::Bool(b) => JsonView::Bool(b),
        JsonValue::Number => JsonView::Number,
        JsonValue::Str(s) => JsonView::Str(s@),
        JsonValue::Array(items) => JsonView::Array(jvs_view(items@)),
        JsonValue::Object(pairs) => JsonView::Object(jps_view(pairs@)),
    }
}

/// View of a list of values.
pub open spec fn jvs_view(items: Seq<JsonValue>) -> Seq<JsonView>
    decreases items,
{
    if items.len() == 0 {
        Seq::empty()
    } else {
        seq![jv_view(items[0])] + jvs_view(items.drop_first())
    }
}

/// View of a list of object members.
pub open spec fn jps_view(pairs: Seq<(String, JsonValue)>) -> Seq<(Seq<char>, JsonView)>
    decreases pairs,
{
    if pairs.len() == 0 {
        Seq::empty()
    } else {
        seq![(pairs[0].0@, jv_view(pairs[0].1))] + jps_view(pairs.drop_first())
    }
}

impl View for JsonValue {
    type V = JsonView;

    open spec fn view(&self) -> JsonView {
        jv_view(*self)
    }
}

/// The two list views are pointwise.
pub proof fn lemma_jvs_view(items: Seq<JsonValue>)
    ensures
        jvs_view(items).len() == items.len(),
        forall|i: int| 0 <= i < items.len() ==> jvs_view(items)[i] == jv_view(items[i]),
    decreases items,
{
    if items.len() > 0 {
        lemma_jvs_view(items.drop_first());
    }
}

/// The member-list view is pointwise.
pub proof fn lemma_jps_view(pairs: Seq<(String, JsonValue)>)
    ensures
        jps_view(pairs).len() == pairs.len(),
        forall|i: int| 0 <= i < pairs.len() ==> jps_view(pairs)[i]
            == (pairs[i].0@, jv_view(pairs[i].1)),
    decreases pairs,
{
    if pairs.len() > 0 {
        lemma_jps_view(pairs.drop_first());
    }
}

/// One object member, in the mirror.
pub type MemberView = (Seq<char>, JsonView);

/// Whether `p` is one of the members of `l`.
pub open spec fn member_of(p: MemberView, l: Seq<MemberView>) -> bool {
    exists|j: int| 0 <= j < l.len() && l[j] == p
}

/// Whether every member of `w` is a member of `l`.
pub open spec fn members_within(w: Seq<MemberView>, l: Seq<MemberView>) -> bool {
    forall|i: int| 0 <= i < w.len() ==> member_of(#[trigger] w[i], l)
}

/// Insertion of a member into a key-sorted member list.
pub open spec fn insert_sorted(p: MemberView, l: Seq<MemberView>) -> Seq<MemberView>
    decreases l.len(),
{
    if l.len() == 0 {
        seq![p]
    } else if lex_le(p.0, l[0].0) {
        seq![p] + l
    } else {
        seq![l[0]] + insert_sorted(p, l.drop_first())
    }
}

/// Key-sorting of a member list by repeated insertion; stable for equal keys.
pub open spec fn sort_members(l: Seq<MemberView>) -> Seq<MemberView>
    decreases l.len(),
{
    if l.len() == 0 {
        Seq::empty()
    } else {
        insert_sorted(l[0], sort_members(l.drop_first()))
    }
}

/// Whether a member list is ordered by key.
pub open spec fn keys_sorted(l: Seq<MemberView>) -> bool {
    forall|i: int, j: int| 0 <= i < j < l.len() ==> lex_le(#[trigger] l[i].0, #[trigger] l[j].0)
}

pub proof fn lemma_insert_sorted_elems(p: MemberView, l: Seq<MemberView>)
    ensures
        insert_sorted(p, l).len() == l.len() + 1,
        forall|i: int| 0 <= i < insert_sorted(p, l).len()
            ==> #[trigger] insert_sorted(p, l)[i] == p || member_of(insert_sorted(p, l)[i], l),
    decreases l.len(),
{
    if l.len() == 0 {
    } else if lex_le(p.0, l[0].0) {
        assert forall|i: int| 0 <= i < l.len() implies member_of(l[i], l) by {}
    } else {
        lemma_insert_sorted_elems(p, l.drop_first());
        let r = insert_sorted(p, l);
        assert forall|i: int| 0 <= i < r.len() implies r[i] == p || member_of(r[i], l) by {
            if i == 0 {
                assert(r[0] == l[0]);
                assert(member_of(l[0], l));
            } else {
                let q = insert_sorted(p, l.drop_first())[i - 1];
                assert(r[i] == q);
                if q != p {
                    let j = choose|j: int| 0 <= j < l.drop_first().len() && l.drop_first()[j] == q;
                    assert(l[j + 1] == q);
                }
            }
        }
    }
}

/// Sorting keeps to the members it was given.
pub proof fn lemma_sort_members_elems(l: Seq<MemberView>)
    ensures
        sort_members(l).len() == l.len(),
        members_within(sort_members(l), l),
    decreases l.len(),
{
    if l.len() > 0 {
        lemma_sort_members_elems(l.drop_first());
        lemma_insert_sorted_elems(l[0], sort_members(l.drop_first()));
        let r = sort_members(l);
        assert forall|i: int| 0 <= i < r.len() implies member_of(#[trigger] r[i], l) by {
            if r[i] == l[0] {
            } else {
                assert(member_of(r[i], sort_members(l.drop_first())));
                let j = choose|j: int| 0 <= j < sort_members(l.drop_first()).len()
                    && sort_members(l.drop_first())[j] == r[i];
                let k = choose|k: int| 0 <= k < l.drop_first().len()
                    && l.drop_first()[k] == r[i];
                assert(l[k + 1] == r[i]);
            }
        }
    }
}

pub proof fn lemma_insert_sorted_keeps_sorted(p: MemberView, l: Seq<MemberView>)
    requires
        keys_sorted(l),
    ensures
        keys_sorted(insert_sorted(p, l)),
    decreases l.len(),
{
    if l.len() == 0 {
    } else if lex_le(p.0, l[0].0) {
        let r = seq![p] + l;
        assert forall|i: int, j: int| 0 <= i < j < r.len()
            implies lex_le(#[trigger] r[i].0, #[trigger] r[j].0) by {
            if i == 0 {
                lemma_lex_le_refl(l[0].0);
                lemma_lex_le_trans(p.0, l[0].0, r[j].0);
            }
        }
    } else {
        lemma_insert_sorted_keeps_sorted(p, l.drop_first());
        let t = insert_sorted(p, l.drop_first());
        let r = seq![l[0]] + t;
        lemma_lex_le_total(p.0, l[0].0);
        lemma_insert_sorted_elems(p, l.drop_first());
        assert forall|i: int, j: int| 0 <= i < j < r.len()
            implies lex_le(#[trigger] r[i].0, #[trigger] r[j].0) by {
            if i == 0 {
                assert(r[j] == t[j - 1]);
                if t[j - 1] == p {
                } else {
                    let k = choose|k: int| 0 <= k < l.drop_first().len()
                        && l.drop_first()[k] == t[j - 1];
                    assert(l[k + 1] == t[j - 1]);
                }
            }
        }
    }
}

pub proof fn lemma_insert_sorted_multiset(p: MemberView, l: Seq<MemberView>)
    ensures
        insert_sorted(p, l).to_multiset() =~= l.to_multiset().insert(p),
    decreases l.len(),
{
    broadcast use vstd::seq_lib::group_to_multiset_ensures;
    broadcast use vstd::seq_lib::lemma_multiset_commutative;
    broadcast use vstd::multiset::group_multiset_axioms;

    if l.len() == 0 {
        assert(seq![p] =~= Seq::<MemberView>::empty().push(p));
        assert(Seq::<MemberView>::empty().push(p).to_multiset()
            =~= Seq::<MemberView>::empty().to_multiset().insert(p));
    } else if lex_le(p.0, l[0].0) {
        assert(seq![p].to_multiset() =~= Multiset::<MemberView>::empty().insert(p)) by {
            assert(seq![p] =~= Seq::<MemberView>::empty().push(p));
        }
        assert((seq![p] + l).to_multiset() =~= seq![p].to_multiset().add(l.to_multiset()));
    } else {
        lemma_insert_sorted_multiset(p, l.drop_first());
        let t = insert_sorted(p, l.drop_first());
        assert((seq![l[0]] + t).to_multiset() =~= seq![l[0]].to_multiset().add(t.to_multiset()));
        assert(seq![l[0]].to_multiset() =~= Multiset::<MemberView>::empty().insert(l[0])) by {
            assert(seq![l[0]] =~= Seq::<MemberView>::empty().push(l[0]));
        }
        assert(l =~= seq![l[0]] + l.drop_first());
        assert(l.to_multiset() =~= seq![l[0]].to_multiset().add(l.drop_first().to_multiset()));
    }
}

/// Sorting keeps the members as a multiset.
pub proof fn lemma_sort_members_multiset(l: Seq<MemberView>)
    ensures
        sort_members(l).to_multiset() =~= l.to_multiset(),
    decreases l.len(),
{
    broadcast use vstd::seq_lib::group_to_multiset_ensures;
    broadcast use vstd::seq_lib::lemma_multiset_commutative;
    broadcast use vstd::multiset::group_multiset_axioms;

    if l.len() > 0 {
        lemma_sort_members_multiset(l.drop_first());
        lemma_insert_sorted_multiset(l[0], sort_members(l.drop_first()));
        assert(l =~= seq![l[0]] + l.drop_first());
        assert(l.to_multiset() =~= seq![l[0]].to_multiset().add(l.drop_first().to_multiset()));
        assert(seq![l[0]].to_multiset() =~= Multiset::<MemberView>::empty().insert(l[0])) by {
            assert(seq![l[0]] =~= Seq::<MemberView>::empty().push(l[0]));
        }
    }
}

/// A value at two positions is counted at least twice.
pub proof fn lemma_dup_count(s: Seq<MemberView>, i: int, j: int)
    requires
        0 <= i < j < s.len(),
        s[i] == s[j],
    ensures
        s.to_multiset().count(s[i]) >= 2,
{
    broadcast use vstd::seq_lib::group_to_multiset_ensures;
    broadcast use vstd::multiset::group_multiset_axioms;

    let r = s.remove(i);
    assert(r.to_multiset() =~= s.to_multiset().remove(s[i]));
    assert(r[j - 1] == s[j]);
    assert(r.contains(s[j]));
    assert(r.to_multiset().count(s[j]) > 0);
    assert(s.to_multiset().count(s[i]) == r.to_multiset().count(s[i]) + 1);
}

/// With pairwise distinct keys, sorting orders the keys strictly: the name
/// of an earlier member sorts strictly before the name of a later one.
pub proof fn lemma_sort_members_strict(l: Seq<MemberView>)
    requires
        forall|i: int, j: int| 0 <= i < j < l.len() ==> (#[trigger] l[i]).0 != (#[trigger] l[j]).0,
    ensures
        forall|i: int, j: int| 0 <= i < j < sort_members(l).len()
            ==> lex_le(#[trigger] sort_members(l)[i].0, #[trigger] sort_members(l)[j].0)
                && sort_members(l)[i].0 != sort_members(l)[j].0,
{
    broadcast use vstd::seq_lib::group_to_multiset_ensures;
    broadcast use vstd::multiset::group_multiset_axioms;

    let s = sort_members(l);
    lemma_sort_members_sorted(l);
    lemma_sort_members_elems(l);
    lemma_sort_members_multiset(l);
    assert forall|i: int, j: int| 0 <= i < j < s.len()
        implies lex_le(#[trigger] s[i].0, #[trigger] s[j].0) && s[i].0 != s[j].0 by {
        if s[i].0 == s[j].0 {
            if s[i] == s[j] {
                lemma_dup_count(s, i, j);
                assert(l.to_multiset().count(s[i]) >= 2);
                let a = choose|a: int| 0 <= a < l.len() && l[a] == s[i];
                let r = l.remove(a);
                assert(r.to_multiset() =~= l.to_multiset().remove(s[i]));
                assert(r.to_multiset().count(s[i]) >= 1);
                assert(r.contains(s[i]));
                let b0 = choose|b0: int| 0 <= b0 < r.len() && r[b0] == s[i];
                let b = if b0 < a {
                    b0
                } else {
                    b0 + 1
                };
                assert(l[b] == s[i]);
                assert(a != b);
                assert(l[a].0 == l[b].0);
            } else {
                assert(member_of(s[i], l));
                assert(member_of(s[j], l));
                let a = choose|a: int| 0 <= a < l.len() && l[a] == s[i];
                let b = choose|b: int| 0 <= b < l.len() && l[b] == s[j];
                assert(a != b);
                assert(l[a].0 == l[b].0);
            }
        }
    }
}

/// Sorting orders the members by key.
pub proof fn lemma_sort_members_sorted(l: Seq<MemberView>)
    ensures
        keys_sorted(sort_members(l)),
    decreases l.len(),
{
    if l.len() > 0 {
        lemma_sort_members_sorted(l.drop_first());
        lemma_insert_sorted_keeps_sorted(l[0], sort_members(l.drop_first()));
    }
}

/// View of one borrowed object member.
pub open spec fn member_view(p: &(String, JsonValue)) -> MemberView {
    (p.0@, jv_view(p.1))
}

/// View of a borrowed member list.
pub open spec fn members_view(s: Seq<&(String, JsonValue)>) -> Seq<MemberView> {
    Seq::new(s.len(), |i: int| member_view(s[i]))
}

/// Inserts a borrowed member into a key-sorted list of borrowed members,
/// mirroring `insert_sorted`.
fn insert_member<'a>(p: &'a (String, JsonValue), l: Vec<&'a (String, JsonValue)>)
    -> (r: Vec<&'a (String, JsonValue)>)
    ensures
        members_view(r@) == insert_sorted(member_view(p), members_view(l@)),
    decreases l@.len(),
{
    let ghost lv = members_view(l@);
    if l.len() == 0 {
        let mut r: Vec<&'a (String, JsonValue)> = Vec::new();
        r.push(p);
        assert(members_view(r@) =~= seq![member_view(p)]);
        r
    } else if str_le(p.0.as_str(), l[0].0.as_str()) {
        let ghost l0 = l@;
        let mut r = l;
        r.insert(0, p);
        assert(members_view(r@) =~= seq![member_view(p)] + lv);
        r
    } else {
        let ghost l0 = l@;
        let mut l2 = l;
        let h = l2.remove(0);
        assert(members_view(l2@) =~= lv.drop_first());
        let mut r = insert_member(p, l2);
        let ghost r0 = members_view(r@);
        r.insert(0, h);
        assert(members_view(r@) =~= seq![member_view(h)] + r0);
        assert(member_view(h) == lv[0]);
        r
    }
}

/// Borrows an object's members and key-sorts them.
pub fn sorted_members<'a>(m: &'a Vec<(String, JsonValue)>)
    -> (r: Vec<&'a (String, JsonValue)>)
    ensures
        members_view(r@) == sort_members(jps_view(m@)),
        r@.len() == sort_members(jps_view(m@)).len(),
{
    let ghost mv = jps_view(m@);
    let mut refs: Vec<&(String, JsonValue)> = Vec::new();
    let mut k: usize = 0;
    while k < m.len()
        invariant
            k <= m.len(),
            mv == jps_view(m@),
            refs@.len() == k,
            forall|i: int| 0 <= i < k ==> member_view(#[trigger] refs@[i]) == mv[i],
        decreases m.len() - k,
    {
        proof {
            lemma_jps_view(m@);
        }
        let p = &m[k];
        refs.push(p);
        k += 1;
    }
    proof {
        lemma_jps_view(m@);
        assert(members_view(refs@) =~= mv);
    }
    let r = sort_object_members(refs);
    proof {
        lemma_sort_members_elems(mv);
    }
    r
}

/// Key-sorts a list of borrowed members, mirroring `sort_members`.
pub fn sort_object_members<'a>(l: Vec<&'a (String, JsonValue)>)
    -> (r: Vec<&'a (String, JsonValue)>)
    ensures
        members_view(r@) == sort_members(members_view(l@)),
    decreases l@.len(),
{
    if l.len() == 0 {
        let r: Vec<&'a (String, JsonValue)> = Vec::new();
        assert(members_view(r@) =~= Seq::<MemberView>::empty());
        assert(members_view(l@) =~= Seq::<MemberView>::empty());
        r
    } else {
        let ghost lv = members_view(l@);
        let mut l2 = l;
        let h = l2.remove(0);
        assert(members_view(l2@) =~= lv.drop_first());
        let rest = sort_object_members(l2);
        assert(member_view(h) == lv[0]);
        insert_member(h, rest)
    }
}

} // verus!
