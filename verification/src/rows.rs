use vstd::prelude::*;

use crate::entry::Entry;

verus! {

/// Whether a record holds a license: one that is present and not empty.
pub open spec fn holds_license(entry: Entry) -> bool {
    entry.license matches Some(license) && license@.len() > 0
}

/// Whether a row leaves a lookup undecided: it was read and holds no license.
pub open spec fn is_blank<E>(row: Result<Entry, E>) -> bool {
    row matches Ok(entry) && !holds_license(entry)
}

/// What a single row decides, if it is not blank: its license, or the failure
/// to read it.
pub open spec fn decision<E>(row: Result<Entry, E>) -> Result<Seq<char>, E> {
    match row {
        Ok(entry) => Ok(entry.license->0@),
        Err(failure) => Err(failure),
    }
}

/// What a lookup finds in the rows of its key, taken in storage order: the
/// decision of the first row that is not blank, and the empty text if every
/// row is blank.
pub open spec fn found_license<E>(rows: Seq<Result<Entry, E>>) -> Result<Seq<char>, E>
    decreases rows.len(),
{
    if rows.len() == 0 {
        Ok(Seq::empty())
    } else if is_blank(rows[0]) {
        found_license(rows.drop_first())
    } else {
        decision(rows[0])
    }
}

/// Rows that are all blank, none at all among them, give the empty text.
pub proof fn lemma_blank_rows_find_nothing<E>(rows: Seq<Result<Entry, E>>)
    requires
        forall|i: int| 0 <= i < rows.len() ==> is_blank(#[trigger] rows[i]),
    ensures
        found_license(rows) == Ok::<Seq<char>, E>(Seq::empty()),
    decreases rows.len(),
{
    if rows.len() > 0 {
        let rest = rows.drop_first();
        assert(is_blank(rows[0]));
        assert forall|i: int| 0 <= i < rest.len() implies is_blank(#[trigger] rest[i]) by {
            assert(rest[i] == rows[i + 1]);
        }
        lemma_blank_rows_find_nothing(rest);
    }
}

/// The first row that is not blank decides, wherever it stands: rows before
/// it do not count, and no row after it is looked at.
pub proof fn lemma_first_row_that_is_not_blank_decides<E>(rows: Seq<Result<Entry, E>>, at: int)
    requires
        0 <= at < rows.len(),
        forall|i: int| 0 <= i < at ==> is_blank(#[trigger] rows[i]),
        !is_blank(rows[at]),
    ensures
        found_license(rows) == decision(rows[at]),
    decreases at,
{
    if at > 0 {
        let rest = rows.drop_first();
        assert(is_blank(rows[0]));
        assert forall|i: int| 0 <= i < at - 1 implies is_blank(#[trigger] rest[i]) by {
            assert(rest[i] == rows[i + 1]);
        }
        assert(rest[at - 1] == rows[at]);
        lemma_first_row_that_is_not_blank_decides(rest, at - 1);
    }
}

/// The license that a lookup returns for the rows of its key.
///
/// Rows are taken in the order given. A row whose license is absent or empty
/// is passed over. The first row that holds a license decides: that license
/// is returned verbatim. A row that failed to be read decides too, if no
/// license came before it: its failure is returned. Without a deciding row
/// the text is empty.
pub fn first_license<E>(rows: Vec<Result<Entry, E>>) -> (out: Result<String, E>)
    ensures
        match out {
            Ok(license) => found_license(rows@) == Ok::<Seq<char>, E>(license@),
            Err(failure) => found_license(rows@) == Err::<Seq<char>, E>(failure),
        },
{
    let ghost all = rows@;
    let mut pending = rows;
    let mut at: usize = 0;
    while at < pending.len()
        invariant
            rows@ == all,
            pending@ == all,
            at <= all.len(),
            forall|i: int| 0 <= i < at ==> is_blank(#[trigger] all[i]),
        decreases all.len() - at,
    {
        let decides = match &pending[at] {
            Ok(entry) => match &entry.license {
                Some(license) => !license.as_str().is_empty(),
                None => false,
            },
            Err(_) => true,
        };
        if decides {
            proof {
                lemma_first_row_that_is_not_blank_decides(all, at as int);
            }
            let row = pending.swap_remove(at);
            return match row {
                Ok(entry) => Ok(entry.license.unwrap()),
                Err(failure) => Err(failure),
            };
        }
        at += 1;
    }
    proof {
        lemma_blank_rows_find_nothing(all);
    }
    Ok(String::new())
}

/// Whether `at` is the place of the first row that failed to be read.
pub open spec fn first_failure_at<E>(rows: Seq<Result<Entry, E>>, at: int) -> bool {
    &&& 0 <= at < rows.len()
    &&& rows[at] is Err
    &&& forall|i: int| 0 <= i < at ==> (#[trigger] rows[i]) is Ok
}

/// The records of a listing, from the rows of the whole table.
///
/// If every row was read, the records are returned: each row once, in the
/// order given. Otherwise the failure of the first row that could not be read
/// is returned.
pub fn collect_entries<E>(rows: Vec<Result<Entry, E>>) -> (out: Result<Vec<Entry>, E>)
    ensures
        match out {
            Ok(entries) => {
                &&& entries@.len() == rows@.len()
                &&& forall|i: int|
                    0 <= i < rows@.len() ==> (#[trigger] rows@[i]) == Ok::<Entry, E>(entries@[i])
            },
            Err(failure) => exists|at: int|
                first_failure_at(rows@, at) && rows@[at] == Err::<Entry, E>(failure),
        },
{
    let ghost all = rows@;
    let mut entries: Vec<Entry> = Vec::new();
    for row in it: rows
        invariant
            it.seq() == all,
            entries@.len() == it.index(),
            forall|i: int|
                0 <= i < it.index() ==> (#[trigger] all[i]) == Ok::<Entry, E>(entries@[i]),
    {
        match row {
            Ok(entry) => {
                entries.push(entry);
            },
            Err(failure) => {
                assert(first_failure_at(all, it.index() as int));
                return Err(failure);
            },
        }
    }
    Ok(entries)
}

} // verus!
