//! A store of digests that lives in memory.
//!
//! It keeps its records as rows of a vector and cannot fail: a lookup and
//! a deletion always answer, and storing fails only where the id is taken.
//! It serves a single process and the tests of the services.

use crate::api_keys::api_keys_domain::{lookup, ApiKeyRepository, EncryptedApiKey};
use crate::api_keys::errors::ApiKeyError;
use vstd::prelude::*;

verus! {

/// One stored record: the digest of a token under the id of its key.
struct Row {
    id: String,
    digest: String,
}

/// The records that a sequence of rows stands for. Where two rows share an
/// id, the later one counts.
spec fn records_of(rows: Seq<Row>) -> Map<Seq<char>, Seq<char>>
    decreases rows.len(),
{
    if rows.len() == 0 {
        Map::empty()
    } else {
        records_of(rows.drop_last()).insert(rows.last().id@, rows.last().digest@)
    }
}

/// No row holds `id`.
spec fn absent(rows: Seq<Row>, id: Seq<char>) -> bool {
    forall|i: int| 0 <= i < rows.len() ==> (#[trigger] rows[i]).id@ != id
}

/// An id that no row holds has no record.
proof fn lemma_absent_has_no_record(rows: Seq<Row>, id: Seq<char>)
    requires
        absent(rows, id),
    ensures
        !records_of(rows).contains_key(id),
    decreases rows.len(),
{
    if rows.len() > 0 {
        let front = rows.drop_last();
        assert forall|i: int| 0 <= i < front.len() implies (#[trigger] front[i]).id@ != id by {
            assert(front[i] == rows[i]);
        }
        lemma_absent_has_no_record(front, id);
        assert(rows[rows.len() - 1].id@ != id);
    }
}

/// The record of an id is the digest of the last row that holds the id.
proof fn lemma_last_row_counts(rows: Seq<Row>, k: int)
    requires
        0 <= k < rows.len(),
        absent(rows.skip(k + 1), rows[k].id@),
    ensures
        lookup(records_of(rows), rows[k].id@) == Some(rows[k].digest@),
    decreases rows.len(),
{
    let front = rows.drop_last();
    if k < rows.len() - 1 {
        assert(rows.skip(k + 1)[rows.len() - k - 2] == rows.last());
        assert forall|i: int| 0 <= i < front.skip(k + 1).len() implies (#[trigger] front.skip(
            k + 1,
        )[i]).id@ != rows[k].id@ by {
            assert(front.skip(k + 1)[i] == rows.skip(k + 1)[i]);
        }
        assert(front[k] == rows[k]);
        lemma_last_row_counts(front, k);
    }
}

/// Taking out a row that holds `id` changes no record but that of `id`.
proof fn lemma_remove_row(rows: Seq<Row>, k: int)
    requires
        0 <= k < rows.len(),
    ensures
        records_of(rows.remove(k)).remove(rows[k].id@) == records_of(rows).remove(rows[k].id@),
    decreases rows.len(),
{
    let id = rows[k].id@;
    let less = rows.remove(k);
    let front = rows.drop_last();
    if k == rows.len() - 1 {
        assert(less =~= front);
        assert(records_of(front).remove(id) =~= records_of(rows).remove(id));
    } else {
        lemma_remove_row(front, k);
        assert(front[k] == rows[k]);
        assert(less.drop_last() =~= front.remove(k));
        assert(less.last() == rows.last());
        assert(records_of(less).remove(id) =~= records_of(less.drop_last()).remove(id).insert(
            rows.last().id@,
            rows.last().digest@,
        ).remove(id));
        assert(records_of(rows).remove(id) =~= records_of(front).remove(id).insert(
            rows.last().id@,
            rows.last().digest@,
        ).remove(id));
    }
}

/// A store of digests in memory.
pub struct ApiKeyMemoryRepository {
    rows: Vec<Row>,
}

impl ApiKeyMemoryRepository {
    /// A store without records.
    pub fn new() -> (repo: ApiKeyMemoryRepository)
        ensures
            repo.records() == Map::<Seq<char>, Seq<char>>::empty(),
    {
        ApiKeyMemoryRepository { rows: Vec::new() }
    }

    /// The last row that holds `id`, if there is one.
    fn position(&self, id: &str) -> (at: Option<usize>)
        ensures
            match at {
                Some(k) => {
                    &&& k < self.rows@.len()
                    &&& self.rows@[k as int].id@ == id@
                    &&& absent(self.rows@.skip(k + 1), id@)
                },
                None => absent(self.rows@, id@),
            },
    {
        let wanted = id.to_owned();
        let mut k: usize = self.rows.len();
        while k > 0
            invariant
                0 <= k <= self.rows@.len(),
                wanted@ == id@,
                absent(self.rows@.skip(k as int), id@),
            decreases k,
        {
            k -= 1;
            if self.rows[k].id == wanted {
                assert(self.rows@.skip(k + 1) =~= self.rows@.skip(k as int).skip(1));
                return Some(k);
            }
            assert forall|i: int| 0 <= i < self.rows@.skip(k as int).len() implies (
            #[trigger] self.rows@.skip(k as int)[i]).id@ != id@ by {
                if i > 0 {
                    assert(self.rows@.skip(k as int)[i] == self.rows@.skip(k + 1)[i - 1]);
                }
            }
        }
        assert(self.rows@.skip(0) =~= self.rows@);
        None
    }
}

impl ApiKeyRepository for ApiKeyMemoryRepository {
    closed spec fn records(&self) -> Map<Seq<char>, Seq<char>> {
        records_of(self.rows@)
    }

    open spec fn may_fail(&self) -> bool {
        false
    }

    fn find_encrypted(&self, id: &str) -> (res: Result<Option<String>, ApiKeyError>) {
        match self.position(id) {
            Some(k) => {
                proof {
                    lemma_last_row_counts(self.rows@, k as int);
                }
                Ok(Some(self.rows[k].digest.clone()))
            },
            None => {
                proof {
                    lemma_absent_has_no_record(self.rows@, id@);
                }
                Ok(None)
            },
        }
    }

    fn save(&mut self, id: &str, key: &EncryptedApiKey) -> (res: Result<(), ApiKeyError>) {
        match self.position(id) {
            Some(k) => {
                proof {
                    lemma_last_row_counts(self.rows@, k as int);
                }
                Err(ApiKeyError::DuplicateId)
            },
            None => {
                let row = Row { id: id.to_owned(), digest: key.as_str().to_owned() };
                proof {
                    lemma_absent_has_no_record(self.rows@, id@);
                    assert(self.rows@.push(row).drop_last() =~= self.rows@);
                }
                self.rows.push(row);
                Ok(())
            },
        }
    }

    fn delete(&mut self, id: &str) -> (res: Result<(), ApiKeyError>) {
        let wanted = id.to_owned();
        let mut k: usize = 0;
        while k < self.rows.len()
            invariant
                0 <= k <= self.rows@.len(),
                wanted@ == id@,
                absent(self.rows@.take(k as int), id@),
                records_of(self.rows@).remove(id@) == records_of(old(self).rows@).remove(id@),
            decreases self.rows@.len() - k,
        {
            if self.rows[k].id == wanted {
                proof {
                    lemma_remove_row(self.rows@, k as int);
                    assert(self.rows@.remove(k as int).take(k as int) =~= self.rows@.take(
                        k as int,
                    ));
                }
                self.rows.remove(k);
            } else {
                assert forall|i: int| 0 <= i < k + 1 implies (#[trigger] self.rows@.take(
                    k + 1,
                )[i]).id@ != id@ by {
                    if i < k {
                        assert(self.rows@.take(k + 1)[i] == self.rows@.take(k as int)[i]);
                    }
                }
                k += 1;
            }
        }
        proof {
            assert(self.rows@.take(k as int) =~= self.rows@);
            lemma_absent_has_no_record(self.rows@, id@);
            assert(records_of(self.rows@).remove(id@) =~= records_of(self.rows@));
        }
        Ok(())
    }
}

} // verus!
