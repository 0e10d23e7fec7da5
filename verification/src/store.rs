use vstd::prelude::*;

verus! {

use crate::json::entry_views;

/// The typed outcomes of the store's operations. Expected conditions
/// (a missing key, a duplicate key) are values of their own; `Engine`
/// stands for any fault of the underlying storage engine.
#[derive(Clone, Copy, Debug, PartialEq, Eq, Structural)]
pub enum KvError {
    NotFound,
    AlreadyExists,
    Engine,
}

#[verifier::external_type_specification]
#[verifier::external_body]
pub struct ExEnv(heed::Env);

#[verifier::external_type_specification]
#[verifier::external_body]
#[verifier::reject_recursive_types(KC)]
#[verifier::reject_recursive_types(DC)]
pub struct ExDatabase<KC, DC>(heed::Database<KC, DC>);

#[verifier::external_type_specification]
#[verifier::external_body]
pub struct ExStr(heed::types::Str);

#[verifier::external_type_specification]
#[verifier::external_body]
pub struct ExHeedError(heed::Error);

/// A durable, transactional store of string keys and string values,
/// bound to one on-disk environment and its default database.
///
/// Every mutation takes the store exclusively, so a sequence of calls on
/// one store is serialized: the existence check of `put_if_absent` and
/// its insert cannot interleave with any other operation on the store.
pub struct Store {
    env: heed::Env,
    db: heed::Database<heed::types::Str, heed::types::Str>,
}

/// The last-committed contents of a store: a finite mapping from key to
/// value.
pub uninterp spec fn store_map(s: Store) -> Map<Seq<char>, Seq<char>>;

/// The contents of a store with nothing in it.
pub open spec fn empty_map() -> Map<Seq<char>, Seq<char>> {
    Map::empty()
}

/// Strict lexicographic order on character sequences, by scalar value;
/// the order in which the engine's index keeps keys.
pub open spec fn lex_lt(a: Seq<char>, b: Seq<char>) -> bool
    decreases a.len(),
{
    if b.len() == 0 {
        false
    } else if a.len() == 0 {
        true
    } else if a[0] != b[0] {
        (a[0] as u32) < (b[0] as u32)
    } else {
        lex_lt(a.drop_first(), b.drop_first())
    }
}

/// The sequence `es` is a snapshot of the mapping `m`: every listed entry
/// is stored, every stored key is listed, and the keys come in strictly
/// ascending order.
pub open spec fn entries_match(m: Map<Seq<char>, Seq<char>>, es: Seq<(Seq<char>, Seq<char>)>) -> bool {
    &&& forall|i: int|
        0 <= i < es.len() ==> m.contains_key(#[trigger] es[i].0) && m[es[i].0] == es[i].1
    &&& forall|k: Seq<char>|
        #[trigger] m.contains_key(k) ==> exists|i: int| 0 <= i < es.len() && #[trigger] es[i].0 == k
    &&& forall|i: int, j: int| 0 <= i < j < es.len() ==> lex_lt(#[trigger] es[i].0, #[trigger] es[j].0)
}

impl Store {
    /// Relies on heed::Env::create_database: opens the environment's
    /// default database, creating it on first use, so the database always
    /// belongs to the store's own environment (heed checks that pairing
    /// on every database call).
    #[verifier::external_body]
    fn raw_open(env: heed::Env) -> (r: Result<Store, heed::Error>)
    {
        let db = env.create_database(None)?;
        Ok(Store { env, db })
    }

    /// Binds a store to an already-open environment, with the
    /// environment's default database as its index. The contents are
    /// whatever the environment's file last committed.
    pub fn open(env: heed::Env) -> (r: Result<Store, KvError>)
        ensures
            r is Err ==> r == Err::<Store, KvError>(KvError::Engine),
    {
        match Self::raw_open(env) {
            Ok(store) => Ok(store),
            Err(_) => Err(KvError::Engine),
        }
    }

    /// Relies on heed::Env::read_txn and heed::Database::get: within a
    /// read transaction's snapshot, `get` returns the value stored under
    /// `key`, or nothing when the key is absent.
    #[verifier::external_body]
    fn raw_get(&self, key: &str) -> (r: Result<Option<String>, heed::Error>)
        ensures
            match r {
                Ok(Some(v)) => store_map(*self).contains_key(key@) && v@ == store_map(*self)[key@],
                Ok(None) => !store_map(*self).contains_key(key@),
                Err(_) => true,
            },
    {
        let rtxn = self.env.read_txn()?;
        let found = self.db.get(&rtxn, key)?;
        Ok(found.map(|v| v.to_string()))
    }

    /// Relies on heed::Env::read_txn and heed::Database::iter: iteration
    /// within a read transaction yields every entry of the snapshot once,
    /// in the index order, which for string keys is ascending
    /// lexicographic order (LMDB compares keys byte-wise, and byte-wise
    /// order of UTF-8 is character order). On any fault nothing is
    /// returned.
    #[verifier::external_body]
    fn raw_list(&self) -> (r: Result<Vec<(String, String)>, heed::Error>)
        ensures
            r matches Ok(es) ==> entries_match(store_map(*self), entry_views(es@)),
    {
        let rtxn = self.env.read_txn()?;
        let mut out: Vec<(String, String)> = Vec::new();
        for entry in self.db.iter(&rtxn)? {
            let (k, v) = entry?;
            out.push((k.to_string(), v.to_string()));
        }
        Ok(out)
    }

    /// Relies on heed::Env::write_txn, heed::Database::put and
    /// heed::RwTxn::commit: the committed write transaction stores
    /// `value` under `key`, replacing any previous value and touching no
    /// other entry. A write transaction that is not committed — here,
    /// whenever an error comes back instead — applies nothing.
    #[verifier::external_body]
    fn raw_put(&mut self, key: &str, value: &str) -> (r: Result<(), heed::Error>)
        ensures
            r is Ok ==> store_map(*final(self)) == store_map(*old(self)).insert(key@, value@),
            r is Err ==> store_map(*final(self)) == store_map(*old(self)),
    {
        let mut wtxn = self.env.write_txn()?;
        self.db.put(&mut wtxn, key, value)?;
        wtxn.commit()?;
        Ok(())
    }

    /// Relies on heed::Env::write_txn, heed::Database::delete and
    /// heed::RwTxn::commit: `delete` tells whether the key was present
    /// and removes its entry; the commit applies exactly that removal.
    /// A write transaction that is not committed applies nothing.
    #[verifier::external_body]
    fn raw_delete(&mut self, key: &str) -> (r: Result<bool, heed::Error>)
        ensures
            r matches Ok(b) ==> b == store_map(*old(self)).contains_key(key@) && store_map(
                *final(self),
            ) == store_map(*old(self)).remove(key@),
            r is Err ==> store_map(*final(self)) == store_map(*old(self)),
    {
        let mut wtxn = self.env.write_txn()?;
        let existed = self.db.delete(&mut wtxn, key)?;
        wtxn.commit()?;
        Ok(existed)
    }

    /// Relies on heed::Env::write_txn, heed::Database::clear and
    /// heed::RwTxn::commit: the committed write transaction removes every
    /// entry. A write transaction that is not committed applies nothing.
    #[verifier::external_body]
    fn raw_clear(&mut self) -> (r: Result<(), heed::Error>)
        ensures
            r is Ok ==> store_map(*final(self)) == empty_map(),
            r is Err ==> store_map(*final(self)) == store_map(*old(self)),
    {
        let mut wtxn = self.env.write_txn()?;
        self.db.clear(&mut wtxn)?;
        wtxn.commit()?;
        Ok(())
    }

    /// Looks the key up within a read transaction. Returns the stored
    /// value when the key is present and `NotFound` when it is absent;
    /// `Engine` only on a storage fault, which changes nothing.
    pub fn get(&self, key: &str) -> (r: Result<String, KvError>)
        ensures
            match r {
                Ok(v) => store_map(*self).contains_key(key@) && v@ == store_map(*self)[key@],
                Err(KvError::NotFound) => !store_map(*self).contains_key(key@),
                Err(KvError::Engine) => true,
                Err(KvError::AlreadyExists) => false,
            },
    {
        match self.raw_get(key) {
            Ok(Some(v)) => Ok(v),
            Ok(None) => Err(KvError::NotFound),
            Err(_) => Err(KvError::Engine),
        }
    }

    /// Produces every entry of one read snapshot, in ascending key order.
    pub fn list_all(&self) -> (r: Result<Vec<(String, String)>, KvError>)
        ensures
            r matches Ok(es) ==> entries_match(store_map(*self), entry_views(es@)),
            r is Err ==> r == Err::<Vec<(String, String)>, KvError>(KvError::Engine),
    {
        match self.raw_list() {
            Ok(es) => Ok(es),
            Err(_) => Err(KvError::Engine),
        }
    }

    /// Creates the entry only when the key is absent; a present key
    /// leaves the store untouched and yields `AlreadyExists`.
    ///
    /// The existence check and the insert run as two engine transactions,
    /// but nothing can come between them: the store is borrowed
    /// exclusively for the whole call, and every operation on the
    /// underlying file goes through this store, so two concurrent creates
    /// for one key can never both observe absence.
    pub fn put_if_absent(&mut self, key: &str, value: &str) -> (r: Result<(), KvError>)
        ensures
            match r {
                Ok(()) => !store_map(*old(self)).contains_key(key@) && store_map(*final(self))
                    == store_map(*old(self)).insert(key@, value@),
                Err(KvError::AlreadyExists) => store_map(*old(self)).contains_key(key@)
                    && store_map(*final(self)) == store_map(*old(self)),
                Err(KvError::Engine) => store_map(*final(self)) == store_map(*old(self)),
                Err(KvError::NotFound) => false,
            },
    {
        match self.raw_get(key) {
            Ok(Some(_)) => Err(KvError::AlreadyExists),
            Ok(None) => match self.raw_put(key, value) {
                Ok(()) => Ok(()),
                Err(_) => Err(KvError::Engine),
            },
            Err(_) => Err(KvError::Engine),
        }
    }

    /// Stores the value under the key whether or not the key is present:
    /// an unconditional upsert within one write transaction.
    pub fn put_unconditional(&mut self, key: &str, value: &str) -> (r: Result<(), KvError>)
        ensures
            r is Ok ==> store_map(*final(self)) == store_map(*old(self)).insert(key@, value@),
            r is Err ==> r == Err::<(), KvError>(KvError::Engine) && store_map(*final(self))
                == store_map(*old(self)),
    {
        match self.raw_put(key, value) {
            Ok(()) => Ok(()),
            Err(_) => Err(KvError::Engine),
        }
    }

    /// Removes the entry under the key. An absent key yields `NotFound`
    /// and changes nothing.
    pub fn delete(&mut self, key: &str) -> (r: Result<(), KvError>)
        ensures
            match r {
                Ok(()) => store_map(*old(self)).contains_key(key@) && store_map(*final(self))
                    == store_map(*old(self)).remove(key@),
                Err(KvError::NotFound) => !store_map(*old(self)).contains_key(key@) && store_map(
                    *final(self),
                ) == store_map(*old(self)),
                Err(KvError::Engine) => store_map(*final(self)) == store_map(*old(self)),
                Err(KvError::AlreadyExists) => false,
            },
    {
        match self.raw_delete(key) {
            Ok(true) => Ok(()),
            Ok(false) => {
                proof {
                    assert(store_map(*old(self)).remove(key@) =~= store_map(*old(self)));
                }
                Err(KvError::NotFound)
            },
            Err(_) => Err(KvError::Engine),
        }
    }

    /// Removes every entry within one write transaction.
    pub fn clear_all(&mut self) -> (r: Result<(), KvError>)
        ensures
            r is Ok ==> store_map(*final(self)) == empty_map(),
            r is Err ==> r == Err::<(), KvError>(KvError::Engine) && store_map(*final(self))
                == store_map(*old(self)),
    {
        match self.raw_clear() {
            Ok(()) => Ok(()),
            Err(_) => Err(KvError::Engine),
        }
    }
}

} // verus!
