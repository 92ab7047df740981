use vstd::prelude::*;
use crate::uint::U256;

verus! {

/// What is known of one randomness request.
#[derive(Clone, Copy, Debug)]
pub struct RequestRecord {
    pub id: U256,
    /// What was paid for it; zero marks an unknown request.
    pub paid: U256,
    pub fulfilled: bool,
    /// The first random value delivered for it.
    pub value: U256,
}

/// The record kept under `id`, if any.
pub open spec fn record_in(s: Seq<RequestRecord>, id: U256) -> Option<RequestRecord>
    decreases s.len(),
{
    if s.len() == 0 {
        None
    } else if s.last().id == id {
        Some(s.last())
    } else {
        record_in(s.drop_last(), id)
    }
}

/// No id has two records.
pub open spec fn ids_unique(s: Seq<RequestRecord>) -> bool {
    forall|i: int, j: int| 0 <= i < j < s.len() ==> s[i].id != s[j].id
}

pub proof fn lemma_record_absent(s: Seq<RequestRecord>, id: U256)
    requires
        forall|i: int| 0 <= i < s.len() ==> s[i].id != id,
    ensures
        record_in(s, id) is None,
    decreases s.len(),
{
    if s.len() > 0 {
        lemma_record_absent(s.drop_last(), id);
    }
}

pub proof fn lemma_record_at(s: Seq<RequestRecord>, i: int)
    requires
        ids_unique(s),
        0 <= i < s.len(),
    ensures
        record_in(s, s[i].id) == Some(s[i]),
    decreases s.len(),
{
    if i < s.len() - 1 {
        assert(s.drop_last()[i] == s[i]);
        lemma_record_at(s.drop_last(), i);
    }
}

/// Replacing the record at `i` by one with the same id changes what is
/// kept under that id and nothing else.
pub proof fn lemma_record_update(s: Seq<RequestRecord>, i: int, r: RequestRecord)
    requires
        ids_unique(s),
        0 <= i < s.len(),
        r.id == s[i].id,
    ensures
        ids_unique(s.update(i, r)),
        forall|k: U256| #[trigger] record_in(s.update(i, r), k)
            == if k == r.id { Some(r) } else { record_in(s, k) },
    decreases s.len(),
{
    let t = s.update(i, r);
    assert(ids_unique(t)) by {
        assert forall|x: int, y: int| 0 <= x < y < t.len() implies t[x].id != t[y].id by {
            assert(s[x].id != s[y].id);
        }
    }
    if i == s.len() - 1 {
        assert(t.drop_last() =~= s.drop_last());
        assert forall|k: U256| #[trigger] record_in(t, k)
            == if k == r.id { Some(r) } else { record_in(s, k) } by {
        }
    } else {
        let d = s.drop_last();
        assert(t.drop_last() =~= d.update(i, r));
        assert(d[i] == s[i]);
        lemma_record_update(d, i, r);
        assert forall|k: U256| #[trigger] record_in(t, k)
            == if k == r.id { Some(r) } else { record_in(s, k) } by {
            assert(t.last() == s.last());
            assert(record_in(d.update(i, r), k) == if k == r.id { Some(r) } else {
                record_in(d, k)
            });
            if s.last().id == k {
                assert(s[i].id != s[s.len() - 1].id);
            }
        }
    }
}

/// Appending a record under a new id.
pub proof fn lemma_record_push(s: Seq<RequestRecord>, r: RequestRecord)
    requires
        ids_unique(s),
        forall|i: int| 0 <= i < s.len() ==> s[i].id != r.id,
    ensures
        ids_unique(s.push(r)),
        forall|k: U256| #[trigger] record_in(s.push(r), k)
            == if k == r.id { Some(r) } else { record_in(s, k) },
{
    let t = s.push(r);
    assert(t.drop_last() =~= s);
    assert forall|k: U256| #[trigger] record_in(t, k)
        == if k == r.id { Some(r) } else { record_in(s, k) } by {
    }
}

/// The position of the record under `id`, if any.
pub fn find_record(s: &Vec<RequestRecord>, id: U256) -> (r: Option<usize>)
    ensures
        r matches Some(i) ==> i < s@.len() && s@[i as int].id == id,
        r is None ==> forall|i: int| 0 <= i < s@.len() ==> s@[i].id != id,
{
    let mut i: usize = 0;
    while i < s.len()
        invariant
            i <= s@.len(),
            forall|j: int| 0 <= j < i ==> s@[j].id != id,
        decreases s@.len() - i,
    {
        if s[i].id == id {
            return Some(i);
        }
        i = i + 1;
    }
    None
}

} // verus!
