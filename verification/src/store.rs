//! The ledger of stored files and its mathematical model.

use crate::models::{view_of, FileInfo, FileInfoView};
use vstd::prelude::*;
use vstd::string::StringExecFns;

verus! {

/// The values of a sequence of records.
pub open spec fn records_of(files: Seq<FileInfo>) -> Seq<FileInfoView> {
    files.map_values(|file: FileInfo| file@)
}

/// Index `i` holds the first record of `records` with identifier `id`.
pub open spec fn is_first_with_id(records: Seq<FileInfoView>, id: Seq<char>, i: int) -> bool {
    &&& 0 <= i < records.len()
    &&& records[i].id == id
    &&& forall|j: int| 0 <= j < i ==> records[j].id != id
}

/// No record of `records` has identifier `id`.
pub open spec fn lacks_id(records: Seq<FileInfoView>, id: Seq<char>) -> bool {
    forall|j: int| 0 <= j < records.len() ==> records[j].id != id
}

/// The first record of `records` with identifier `id`, if there is one.
pub open spec fn lookup(records: Seq<FileInfoView>, id: Seq<char>) -> Option<FileInfoView>
    decreases records.len(),
{
    if records.len() == 0 {
        None
    } else if records[0].id == id {
        Some(records[0])
    } else {
        lookup(records.drop_first(), id)
    }
}

/// `records` without its first record with identifier `id`; all of it, where
/// there is none.
pub open spec fn without(records: Seq<FileInfoView>, id: Seq<char>) -> Seq<FileInfoView>
    decreases records.len(),
{
    if records.len() == 0 {
        records
    } else if records[0].id == id {
        records.drop_first()
    } else {
        seq![records[0]] + without(records.drop_first(), id)
    }
}

/// Where index `i` holds the first record with identifier `id`, looking the
/// identifier up gives that record, and removing it leaves the others in
/// their order.
pub proof fn lemma_first_with_id(records: Seq<FileInfoView>, id: Seq<char>, i: int)
    requires
        is_first_with_id(records, id, i),
    ensures
        lookup(records, id) == Some(records[i]),
        without(records, id) == records.remove(i),
    decreases i,
{
    if i == 0 {
        assert(records.drop_first() =~= records.remove(0));
    } else {
        let rest = records.drop_first();
        assert(is_first_with_id(rest, id, i - 1)) by {
            assert(rest[i - 1] == records[i]);
            assert forall|j: int| 0 <= j < i - 1 implies rest[j].id != id by {
                assert(rest[j] == records[j + 1]);
            }
        }
        lemma_first_with_id(rest, id, i - 1);
        assert(seq![records[0]] + rest.remove(i - 1) =~= records.remove(i));
    }
}

/// Where no record has identifier `id`, looking it up gives nothing and
/// removing it changes nothing.
pub proof fn lemma_lacks_id(records: Seq<FileInfoView>, id: Seq<char>)
    requires
        lacks_id(records, id),
    ensures
        lookup(records, id) is None,
        without(records, id) == records,
    decreases records.len(),
{
    if records.len() > 0 {
        let rest = records.drop_first();
        assert(lacks_id(rest, id)) by {
            assert forall|j: int| 0 <= j < rest.len() implies rest[j].id != id by {
                assert(rest[j] == records[j + 1]);
            }
        }
        lemma_lacks_id(rest, id);
        assert(seq![records[0]] + rest =~= records);
    }
}

/// After a record is added, every identifier that was found before is found
/// as before, and the added record is found under its own identifier where
/// no earlier record has it.
pub proof fn lemma_lookup_after_add(records: Seq<FileInfoView>, added: FileInfoView, id: Seq<char>)
    ensures
        lookup(records.push(added), id) == if lookup(records, id) is Some {
            lookup(records, id)
        } else if added.id == id {
            Some(added)
        } else {
            None
        },
    decreases records.len(),
{
    if records.len() == 0 {
        assert(records.push(added).drop_first() =~= records);
    } else {
        assert(records.push(added).drop_first() =~= records.drop_first().push(added));
        if records[0].id != id {
            lemma_lookup_after_add(records.drop_first(), added, id);
        }
    }
}

/// No two records of `records` share an identifier.
pub open spec fn has_unique_ids(records: Seq<FileInfoView>) -> bool {
    forall|i: int, j: int| 0 <= i < j < records.len() ==> records[i].id != records[j].id
}

/// Removing an identifier leaves the record of every other identifier to be
/// found as before, and, where no two records share an identifier, leaves no
/// record with the removed one.
pub proof fn lemma_lookup_after_remove(
    records: Seq<FileInfoView>,
    removed: Seq<char>,
    id: Seq<char>,
)
    ensures
        removed != id ==> lookup(without(records, removed), id) == lookup(records, id),
        has_unique_ids(records) ==> lookup(without(records, removed), removed) is None,
    decreases records.len(),
{
    if records.len() > 0 {
        let rest = records.drop_first();
        if records[0].id == removed {
            if has_unique_ids(records) {
                assert(lacks_id(rest, removed)) by {
                    assert forall|j: int| 0 <= j < rest.len() implies rest[j].id != removed by {
                        assert(rest[j] == records[j + 1]);
                    }
                }
                lemma_lacks_id(rest, removed);
            }
        } else {
            if has_unique_ids(records) {
                assert(has_unique_ids(rest)) by {
                    assert forall|i: int, j: int| 0 <= i < j < rest.len() implies rest[i].id
                        != rest[j].id by {
                        assert(rest[i] == records[i + 1]);
                        assert(rest[j] == records[j + 1]);
                    }
                }
            }
            lemma_lookup_after_remove(rest, removed, id);
            assert((seq![records[0]] + without(rest, removed)).drop_first() =~= without(
                rest,
                removed,
            ));
        }
    }
}

/// A record that is found in a ledger stands in it.
pub proof fn lemma_found_is_member(records: Seq<FileInfoView>, id: Seq<char>)
    requires
        lookup(records, id) is Some,
    ensures
        exists|i: int| is_first_with_id(records, id, i) && lookup(records, id) == Some(records[i]),
    decreases records.len(),
{
    if records[0].id == id {
        assert(is_first_with_id(records, id, 0));
    } else {
        let rest = records.drop_first();
        lemma_found_is_member(rest, id);
        let i = choose|i: int|
            is_first_with_id(rest, id, i) && lookup(rest, id) == Some(rest[i]);
        assert(is_first_with_id(records, id, i + 1)) by {
            assert(records[i + 1] == rest[i]);
            assert forall|j: int| 0 <= j < i + 1 implies records[j].id != id by {
                if j > 0 {
                    assert(records[j] == rest[j - 1]);
                }
            }
        }
    }
}

/// Replacing a record: where no two identifiers are alike, adding `added`
/// and then removing the identifier of a record `replaced` that was there
/// leaves `added` to be found and `replaced` not.
pub proof fn lemma_replace_record(
    records: Seq<FileInfoView>,
    replaced: FileInfoView,
    added: FileInfoView,
)
    requires
        has_unique_ids(records.push(added)),
        lookup(records, replaced.id) == Some(replaced),
    ensures
        lookup(without(records.push(added), replaced.id), replaced.id) is None,
        lookup(without(records.push(added), replaced.id), added.id) == Some(added),
{
    let grown = records.push(added);
    lemma_found_is_member(records, replaced.id);
    let i = choose|i: int| is_first_with_id(records, replaced.id, i);
    assert(grown[i] == records[i]);
    assert(grown[records.len() as int] == added);
    assert(added.id != replaced.id);
    lemma_lookup_after_remove(grown, replaced.id, added.id);
    lemma_lookup_after_add(records, added, added.id);
    if lookup(records, added.id) is Some {
        lemma_found_is_member(records, added.id);
        let j = choose|j: int| is_first_with_id(records, added.id, j);
        assert(grown[j] == records[j]);
    }
}

/// The ledger of stored files: the records in the order in which they were
/// added. It accepts every record and enforces no policy.
pub struct FileStore {
    files: Vec<FileInfo>,
}

impl View for FileStore {
    type V = Seq<FileInfoView>;

    closed spec fn view(&self) -> Seq<FileInfoView> {
        records_of(self.files@)
    }
}

impl FileStore {
    /// An empty ledger.
    pub fn new() -> (store: Self)
        ensures
            store@ == Seq::<FileInfoView>::empty(),
    {
        let store = FileStore { files: Vec::new() };
        assert(store@ =~= Seq::<FileInfoView>::empty());
        store
    }

    /// Adds a record at the end.
    pub fn add_file(&mut self, file_info: FileInfo)
        ensures
            final(self)@ == old(self)@.push(file_info@),
    {
        self.files.push(file_info);
        assert(self@ =~= old(self)@.push(file_info@));
    }

    /// Index of the first record with identifier `id`.
    fn position(&self, id: &str) -> (found: Option<usize>)
        ensures
            match found {
                Some(i) => is_first_with_id(self@, id@, i as int),
                None => lacks_id(self@, id@),
            },
    {
        let wanted = String::from_str(id);
        let mut i: usize = 0;
        while i < self.files.len()
            invariant
                0 <= i <= self.files.len(),
                wanted@ == id@,
                forall|j: int| 0 <= j < i ==> self@[j].id != id@,
            decreases self.files.len() - i,
        {
            if self.files[i].id == wanted {
                return Some(i);
            }
            i += 1;
        }
        None
    }

    /// A copy of the first record with identifier `id`, if there is one.
    pub fn get_file(&self, id: &str) -> (found: Option<FileInfo>)
        ensures
            view_of(found) == lookup(self@, id@),
    {
        match self.position(id) {
            Some(i) => {
                proof {
                    lemma_first_with_id(self@, id@, i as int);
                }
                Some(self.files[i].clone())
            },
            None => {
                proof {
                    lemma_lacks_id(self@, id@);
                }
                None
            },
        }
    }

    /// Copies of all records, in the order in which they were added.
    pub fn list_files(&self) -> (files: Vec<FileInfo>)
        ensures
            records_of(files@) == self@,
    {
        let files = self.files.clone();
        assert(records_of(files@) =~= self@);
        files
    }

    /// Removes the first record with identifier `id`. Does nothing where
    /// there is none.
    pub fn remove_file(&mut self, id: &str)
        ensures
            final(self)@ == without(old(self)@, id@),
    {
        match self.position(id) {
            Some(i) => {
                proof {
                    lemma_first_with_id(self@, id@, i as int);
                }
                self.files.remove(i);
                assert(self@ =~= old(self)@.remove(i as int));
            },
            None => {
                proof {
                    lemma_lacks_id(self@, id@);
                }
            },
        }
    }
}

impl Default for FileStore {
    fn default() -> (store: Self)
        ensures
            store@ == Seq::<FileInfoView>::empty(),
    {
        FileStore::new()
    }
}

} // verus!
