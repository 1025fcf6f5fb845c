use vstd::prelude::*;
use crate::identity::Identity;

verus! {

/// A record that is kept under the identity of the one it is about.
pub trait Keyed: Copy {
    /// The identity that the record is kept under.
    spec fn key(&self) -> Identity;

    /// The record is well formed.
    spec fn valid(&self) -> bool;

    /// The identity that the record is kept under.
    fn id(&self) -> (id: Identity)
        ensures
            id == self.key(),
    ;
}

/// No two of the records have the same key.
pub open spec fn keys_distinct<R: Keyed>(records: Seq<R>) -> bool {
    forall|i: int, j: int| 0 <= i < j < records.len() ==> (#[trigger] records[i]).key() != (#[trigger] records[j]).key()
}

/// The records by their keys.
pub open spec fn by_key<R: Keyed>(records: Seq<R>) -> Map<Identity, R> {
    Map::new(
        |k: Identity| exists|i: int| 0 <= i < records.len() && (#[trigger] records[i]).key() == k,
        |k: Identity| records[choose|i: int| 0 <= i < records.len() && (#[trigger] records[i]).key() == k],
    )
}

/// Among records with distinct keys, each is the one that its key is looked
/// up to.
pub proof fn lemma_by_key_at<R: Keyed>(records: Seq<R>, i: int)
    requires
        keys_distinct(records),
        0 <= i < records.len(),
    ensures
        by_key(records).dom().contains(records[i].key()),
        by_key(records)[records[i].key()] == records[i],
{
    let k = records[i].key();
    let j = choose|j: int| 0 <= j < records.len() && (#[trigger] records[j]).key() == k;
    assert(records[j].key() == k);
    if i < j {
        assert(records[i].key() != records[j].key());
    }
    if j < i {
        assert(records[j].key() != records[i].key());
    }
}

/// A key that is looked up is the key of a record.
pub proof fn lemma_by_key_found<R: Keyed>(records: Seq<R>, k: Identity) -> (i: int)
    requires
        keys_distinct(records),
        by_key(records).dom().contains(k),
    ensures
        0 <= i < records.len(),
        records[i].key() == k,
        by_key(records)[k] == records[i],
{
    let i = choose|i: int| 0 <= i < records.len() && (#[trigger] records[i]).key() == k;
    lemma_by_key_at(records, i);
    i
}

/// One record more, under a key that none had, is one entry more.
pub proof fn lemma_by_key_push<R: Keyed>(records: Seq<R>, record: R)
    requires
        keys_distinct(records),
        !by_key(records).dom().contains(record.key()),
    ensures
        keys_distinct(records.push(record)),
        by_key(records.push(record)) == by_key(records).insert(record.key(), record),
{
    let after = records.push(record);
    assert forall|a: int, b: int| 0 <= a < b < after.len() implies (#[trigger] after[a]).key() != (
    #[trigger] after[b]).key() by {
        if b < records.len() {
            assert(records[a].key() != records[b].key());
        } else {
            assert(records[a] == after[a]);
            if records[a].key() == record.key() {
                assert(by_key(records).dom().contains(record.key()));
            }
        }
    }
    assert forall|k: Identity| #[trigger]
        by_key(after).dom().contains(k) == by_key(records).insert(record.key(), record).dom().contains(k) by {
        if by_key(after).dom().contains(k) {
            let i = lemma_by_key_found(after, k);
            if i < records.len() {
                assert(records[i].key() == k);
            }
        }
        if k == record.key() {
            assert(after[records.len() as int].key() == k);
        } else if by_key(records).dom().contains(k) {
            let i = lemma_by_key_found(records, k);
            assert(after[i].key() == k);
        }
    }
    assert forall|k: Identity| #[trigger] by_key(after).dom().contains(k) implies by_key(after)[k] == by_key(
        records,
    ).insert(record.key(), record)[k] by {
        let i = lemma_by_key_found(after, k);
        if i < records.len() {
            assert(records[i].key() == k);
            lemma_by_key_at(records, i);
        }
    }
    assert(by_key(after) =~= by_key(records).insert(record.key(), record));
}

/// A record in the place of one with the same key changes that entry alone.
pub proof fn lemma_by_key_update<R: Keyed>(records: Seq<R>, i: int, record: R)
    requires
        keys_distinct(records),
        0 <= i < records.len(),
        records[i].key() == record.key(),
    ensures
        keys_distinct(records.update(i, record)),
        by_key(records.update(i, record)) == by_key(records).insert(record.key(), record),
{
    let after = records.update(i, record);
    assert forall|a: int, b: int| 0 <= a < b < after.len() implies (#[trigger] after[a]).key() != (
    #[trigger] after[b]).key() by {
        assert(records[a].key() != records[b].key());
    }
    assert forall|k: Identity| #[trigger]
        by_key(after).dom().contains(k) == by_key(records).insert(record.key(), record).dom().contains(k) by {
        if by_key(after).dom().contains(k) {
            let j = lemma_by_key_found(after, k);
            assert(records[j].key() == k);
        }
        if k == record.key() {
            assert(after[i].key() == k);
        } else if by_key(records).dom().contains(k) {
            let j = lemma_by_key_found(records, k);
            assert(after[j].key() == k);
        }
    }
    assert forall|k: Identity| #[trigger] by_key(after).dom().contains(k) implies by_key(after)[k] == by_key(
        records,
    ).insert(record.key(), record)[k] by {
        let j = lemma_by_key_found(after, k);
        if k != record.key() {
            assert(records[j].key() == k);
            lemma_by_key_at(records, j);
        } else {
            lemma_by_key_at(after, i);
        }
    }
    assert(by_key(after) =~= by_key(records).insert(record.key(), record));
}

/// Records with distinct keys are as many as their keys.
pub proof fn lemma_by_key_len<R: Keyed>(records: Seq<R>)
    requires
        keys_distinct(records),
    ensures
        by_key(records).dom().finite(),
        by_key(records).dom().len() == records.len(),
    decreases records.len(),
{
    if records.len() == 0 {
        assert(by_key(records).dom() =~= Set::<Identity>::empty());
    } else {
        let front = records.drop_last();
        let last = records.last();
        assert forall|i: int, j: int| 0 <= i < j < front.len() implies (#[trigger] front[i]).key() != (
        #[trigger] front[j]).key() by {
            assert(records[i].key() != records[j].key());
        }
        lemma_by_key_len(front);
        if by_key(front).dom().contains(last.key()) {
            let i = lemma_by_key_found(front, last.key());
            assert(records[i].key() != records[records.len() - 1].key());
        }
        lemma_by_key_push(front, last);
        assert(front.push(last) =~= records);
    }
}

/// Records of one kind, one for each key at most.
pub struct Book<R: Keyed> {
    records: Vec<R>,
}

impl<R: Keyed> Book<R> {
    /// No key has two records, and each record is well formed.
    pub closed spec fn wf(&self) -> bool {
        &&& keys_distinct(self.records@)
        &&& forall|i: int| 0 <= i < self.records@.len() ==> (#[trigger] self.records@[i]).valid()
    }

    /// The record of each key that has one.
    pub closed spec fn view(&self) -> Map<Identity, R> {
        by_key(self.records@)
    }

    /// Each record is well formed and is kept under its own key.
    pub proof fn lemma_record(&self, k: Identity)
        requires
            self.wf(),
            self@.dom().contains(k),
        ensures
            self@[k].valid(),
            self@[k].key() == k,
    {
        let i = lemma_by_key_found(self.records@, k);
    }

    /// The book without any record.
    pub fn new() -> (book: Book<R>)
        ensures
            book.wf(),
            book@ == Map::<Identity, R>::empty(),
    {
        let book = Book { records: Vec::new() };
        assert(book@ =~= Map::<Identity, R>::empty());
        book
    }

    /// The number of records.
    pub fn len(&self) -> (n: usize)
        requires
            self.wf(),
        ensures
            n == self@.dom().len(),
            self@.dom().finite(),
    {
        proof {
            lemma_by_key_len(self.records@);
        }
        self.records.len()
    }

    /// The record that is kept under `k`, if there is one.
    pub fn get(&self, k: &Identity) -> (record: Option<R>)
        requires
            self.wf(),
        ensures
            record is Some <==> self@.dom().contains(*k),
            record is Some ==> record->0 == self@[*k] && record->0.valid() && record->0.key() == *k,
    {
        let mut i: usize = 0;
        while i < self.records.len()
            invariant
                i <= self.records@.len(),
                forall|j: int| 0 <= j < i ==> (#[trigger] self.records@[j]).key() != *k,
                self.wf(),
            decreases self.records@.len() - i,
        {
            let record = self.records[i];
            if record.id().same(k) {
                proof {
                    lemma_by_key_at(self.records@, i as int);
                }
                return Some(record);
            }
            i = i + 1;
        }
        None
    }

    /// Keeps `record` under its key, in the place of the record that was kept
    /// under that key if there was one.
    pub fn put(&mut self, record: R)
        requires
            old(self).wf(),
            record.valid(),
        ensures
            final(self).wf(),
            final(self)@ == old(self)@.insert(record.key(), record),
    {
        let key = record.id();
        let mut i: usize = 0;
        while i < self.records.len()
            invariant
                i <= self.records@.len(),
                self.records@ == old(self).records@,
                old(self).wf(),
                record.valid(),
                forall|j: int| 0 <= j < i ==> (#[trigger] self.records@[j]).key() != key,
                key == record.key(),
            decreases self.records@.len() - i,
        {
            if self.records[i].id().same(&key) {
                proof {
                    lemma_by_key_update(self.records@, i as int, record);
                }
                self.records.set(i, record);
                return ;
            }
            i = i + 1;
        }
        proof {
            lemma_by_key_push(self.records@, record);
        }
        self.records.push(record);
    }
}

} // verus!
