use vstd::prelude::*;

use crate::todo::{Entry, Todo};

verus! {

/// The entries of a list of items, in the same order.
pub open spec fn entries_of(v: Seq<Todo>) -> Seq<Entry> {
    v.map_values(|t: Todo| t@)
}

/// Display order: identifiers strictly ascending, hence unique.
pub open spec fn sorted_by_id(s: Seq<Entry>) -> bool {
    forall|i: int, j: int| 0 <= i < j < s.len() ==> s[i].id < s[j].id
}

/// The identifiers present in a list of entries.
pub open spec fn ids(s: Seq<Entry>) -> Set<i64> {
    Set::new(|id: i64| exists|i: int| 0 <= i < s.len() && s[i].id == id)
}

/// Places `e` in a list ordered by identifier: before the first entry with a
/// larger identifier, or in place of the entry with the same one.
pub open spec fn insert_by_id(s: Seq<Entry>, e: Entry) -> Seq<Entry>
    decreases s.len(),
{
    if s.len() == 0 {
        seq![e]
    } else if e.id < s[0].id {
        seq![e] + s
    } else if e.id == s[0].id {
        seq![e] + s.drop_first()
    } else {
        seq![s[0]] + insert_by_id(s.drop_first(), e)
    }
}

/// The collection built from records taken in the order given: a later
/// record replaces an earlier one with the same identifier.
pub open spec fn collect_by_id(s: Seq<Entry>) -> Seq<Entry>
    decreases s.len(),
{
    if s.len() == 0 {
        Seq::empty()
    } else {
        insert_by_id(collect_by_id(s.drop_last()), s.last())
    }
}

proof fn lemma_ids_cons(x: Entry, t: Seq<Entry>)
    ensures
        ids(seq![x] + t) == ids(t).insert(x.id),
{
    let s = seq![x] + t;
    assert forall|id: i64| ids(s).contains(id) <==> ids(t).insert(x.id).contains(id) by {
        if ids(t).contains(id) {
            let i = choose|i: int| 0 <= i < t.len() && t[i].id == id;
            assert(s[i + 1] == t[i]);
        }
        if ids(s).contains(id) && id != x.id {
            let i = choose|i: int| 0 <= i < s.len() && s[i].id == id;
            assert(t[i - 1] == s[i]);
        }
        if id == x.id {
            assert(s[0] == x);
        }
    }
    assert(ids(s) =~= ids(t).insert(x.id));
}

proof fn lemma_ids_first(s: Seq<Entry>)
    requires
        s.len() > 0,
    ensures
        ids(s) == ids(s.drop_first()).insert(s[0].id),
{
    assert(s =~= seq![s[0]] + s.drop_first());
    lemma_ids_cons(s[0], s.drop_first());
}

/// The empty list holds no identifier.
pub proof fn lemma_ids_empty()
    ensures
        ids(Seq::<Entry>::empty()) == Set::<i64>::empty(),
{
    assert(ids(Seq::<Entry>::empty()) =~= Set::<i64>::empty());
}

/// Inserting by identifier adds exactly that identifier and keeps the order.
pub proof fn lemma_insert_by_id(s: Seq<Entry>, e: Entry)
    requires
        sorted_by_id(s),
    ensures
        ids(insert_by_id(s, e)) == ids(s).insert(e.id),
        sorted_by_id(insert_by_id(s, e)),
    decreases s.len(),
{
    let r = insert_by_id(s, e);
    if s.len() == 0 {
        lemma_ids_empty();
        assert(seq![e] =~= seq![e] + s);
        lemma_ids_cons(e, s);
    } else if e.id < s[0].id {
        lemma_ids_cons(e, s);
    } else if e.id == s[0].id {
        let t = s.drop_first();
        lemma_ids_cons(e, t);
        lemma_ids_first(s);
    } else {
        let t = s.drop_first();
        let rt = insert_by_id(t, e);
        lemma_insert_by_id(t, e);
        lemma_ids_cons(s[0], rt);
        lemma_ids_first(s);
        assert forall|j: int| 0 < j < r.len() implies s[0].id < r[j].id by {
            assert(r[j] == rt[j - 1]);
            assert(ids(rt).contains(rt[j - 1].id));
            if rt[j - 1].id != e.id {
                let k = choose|k: int| 0 <= k < t.len() && t[k].id == rt[j - 1].id;
                assert(t[k] == s[k + 1]);
            }
        }
        assert forall|i: int, j: int| 0 <= i < j < r.len() implies r[i].id < r[j].id by {
            if i > 0 {
                assert(r[i] == rt[i - 1]);
                assert(r[j] == rt[j - 1]);
            }
        }
    }
}

/// Inserting never shortens a list.
pub proof fn lemma_insert_grows(s: Seq<Entry>, e: Entry)
    ensures
        insert_by_id(s, e).len() >= s.len(),
    decreases s.len(),
{
    if s.len() > 0 && e.id > s[0].id {
        lemma_insert_grows(s.drop_first(), e);
    }
}

/// Where the first entry not below `e.id` stands at `p`, inserting by
/// identifier replaces that entry or puts `e` before it.
proof fn lemma_insert_at(s: Seq<Entry>, e: Entry, p: int)
    requires
        0 <= p <= s.len(),
        forall|i: int| 0 <= i < p ==> s[i].id < e.id,
        p < s.len() ==> s[p].id >= e.id,
    ensures
        insert_by_id(s, e) == (if p < s.len() && s[p].id == e.id {
            s.update(p, e)
        } else {
            s.insert(p, e)
        }),
    decreases p,
{
    if p == 0 {
        if s.len() == 0 {
            assert(seq![e] =~= s.insert(0, e));
        } else if e.id < s[0].id {
            assert(seq![e] + s =~= s.insert(0, e));
        } else {
            assert(seq![e] + s.drop_first() =~= s.update(0, e));
        }
    } else {
        let t = s.drop_first();
        lemma_insert_at(t, e, p - 1);
        if p < s.len() && s[p].id == e.id {
            assert(seq![s[0]] + t.update(p - 1, e) =~= s.update(p, e));
        } else {
            assert(seq![s[0]] + t.insert(p - 1, e) =~= s.insert(p, e));
        }
    }
}

/// Removing one entry of an ordered list removes exactly its identifier.
pub proof fn lemma_remove_at(s: Seq<Entry>, p: int)
    requires
        sorted_by_id(s),
        0 <= p < s.len(),
    ensures
        ids(s.remove(p)) == ids(s).remove(s[p].id),
        sorted_by_id(s.remove(p)),
{
    let r = s.remove(p);
    assert forall|id: i64| ids(r).contains(id) <==> ids(s).remove(s[p].id).contains(id) by {
        if ids(r).contains(id) {
            let i = choose|i: int| 0 <= i < r.len() && r[i].id == id;
            if i < p {
                assert(r[i] == s[i]);
            } else {
                assert(r[i] == s[i + 1]);
            }
        }
        if ids(s).remove(s[p].id).contains(id) {
            let i = choose|i: int| 0 <= i < s.len() && s[i].id == id;
            if i < p {
                assert(r[i] == s[i]);
            } else {
                assert(i != p);
                assert(r[i - 1] == s[i]);
            }
        }
    }
    assert(ids(r) =~= ids(s).remove(s[p].id));
    assert forall|i: int, j: int| 0 <= i < j < r.len() implies r[i].id < r[j].id by {
        let si = if i < p { i } else { i + 1 };
        let sj = if j < p { j } else { j + 1 };
        assert(r[i] == s[si]);
        assert(r[j] == s[sj]);
    }
}

/// The first position whose identifier is not below `id`.
fn lower_bound(todos: &Vec<Todo>, id: i64) -> (p: usize)
    ensures
        p <= todos.len(),
        forall|i: int| 0 <= i < p ==> todos@[i].id < id,
        p < todos.len() ==> todos@[p as int].id >= id,
{
    let mut p: usize = 0;
    while p < todos.len() && todos[p].id < id
        invariant
            p <= todos.len(),
            forall|i: int| 0 <= i < p ==> todos@[i].id < id,
        decreases todos.len() - p,
    {
        p = p + 1;
    }
    p
}

/// Puts `todo` in its place by identifier, replacing an item with the same
/// identifier.
pub fn insert_todo(todos: &mut Vec<Todo>, todo: Todo)
    ensures
        entries_of(final(todos)@) == insert_by_id(entries_of(old(todos)@), todo@),
{
    let ghost before = entries_of(todos@);
    let ghost e = todo@;
    let p = lower_bound(todos, todo.id);
    proof {
        lemma_insert_at(before, e, p as int);
    }
    if p < todos.len() && todos[p].id == todo.id {
        todos.set(p, todo);
        assert(entries_of(todos@) =~= before.update(p as int, e));
    } else {
        todos.insert(p, todo);
        assert(entries_of(todos@) =~= before.insert(p as int, e));
    }
}

} // verus!
