use vstd::prelude::*;

verus! {

use crate::json::{list_body, list_items};
use crate::store::{entries_match, empty_map};

/// A value created under an absent key is exactly what a later lookup
/// finds. `put_if_absent(k, v)` on contents `m` without `k` succeeds with
/// contents `m.insert(k, v)`; there `k` is stored and holds `v`,
/// character for character, which is what `get(k)` then returns.
pub proof fn lemma_create_then_get(m: Map<Seq<char>, Seq<char>>, k: Seq<char>, v: Seq<char>)
    requires
        !m.contains_key(k),
    ensures
        m.insert(k, v).contains_key(k),
        m.insert(k, v)[k] == v,
{
}

/// Storing a value twice leaves the store as one store does:
/// `put_unconditional(k, v)` is idempotent on the contents.
pub proof fn lemma_update_idempotent(m: Map<Seq<char>, Seq<char>>, k: Seq<char>, v: Seq<char>)
    ensures
        m.insert(k, v).insert(k, v) == m.insert(k, v),
{
    assert(m.insert(k, v).insert(k, v) =~= m.insert(k, v));
}

/// A second create for the same key is rejected and changes nothing.
/// After `put_if_absent(k, v1)` succeeds the key is stored, so the
/// contract of `put_if_absent(k, v2)` only allows `AlreadyExists` with
/// the contents untouched, and `get(k)` still returns `v1`.
pub proof fn lemma_duplicate_create_rejected(m: Map<Seq<char>, Seq<char>>, k: Seq<char>, v1: Seq<char>)
    requires
        !m.contains_key(k),
    ensures
        m.insert(k, v1).contains_key(k),
        m.insert(k, v1)[k] == v1,
{
}

/// Deleting a stored key removes exactly that entry: afterwards a lookup
/// of the key finds nothing, and every other entry is untouched.
pub proof fn lemma_delete_removes(m: Map<Seq<char>, Seq<char>>, k: Seq<char>)
    ensures
        !m.remove(k).contains_key(k),
        forall|k2: Seq<char>|
            k2 != k ==> #[trigger] m.remove(k).contains_key(k2) == m.contains_key(k2),
        forall|k2: Seq<char>|
            k2 != k && m.contains_key(k2) ==> #[trigger] m.remove(k)[k2] == m[k2],
{
}

/// After `clear_all`, `list_all` yields the empty sequence whatever was
/// stored before: the only snapshot of empty contents is the empty one,
/// and it renders as the empty JSON array.
pub proof fn lemma_cleared_store_lists_empty(es: Seq<(Seq<char>, Seq<char>)>)
    requires
        entries_match(empty_map(), es),
    ensures
        es.len() == 0,
        list_body(es) == "[]"@,
{
    if es.len() > 0 {
        assert(empty_map().contains_key(es[0].0));
        assert(false);
    }
    assert(list_items(es) == Seq::<char>::empty());
    reveal_strlit("[");
    reveal_strlit("]");
    reveal_strlit("[]");
    assert(("[")@ + list_items(es) + ("]")@ =~= ("[]")@);
}

} // verus!
