//! What a listing of the storage directory tells the store.
//!
//! A listing is handed over as it was read: `Err` where the directory could
//! not be listed, and in a listing `None` for an entry that could not be read
//! or whose file name is not Unicode. Such entries name no chunk.

use crate::file_name::decoded_name;
use vstd::prelude::*;

verus! {

/// A listing of the storage directory: the file names of its entries, in the
/// order in which the platform gave them.
pub type Listing = Result<Vec<Option<String>>, std::io::Error>;

/// Whether `entry` is the file called `file_name`.
pub open spec fn is_entry_of(entry: Option<String>, file_name: Seq<char>) -> bool {
    entry matches Some(text) && text@ == file_name
}

/// Whether a file called `file_name` is among `entries`.
pub open spec fn has_entry(entries: Seq<Option<String>>, file_name: Seq<char>) -> bool {
    exists|i: int| 0 <= i < entries.len() && is_entry_of(#[trigger] entries[i], file_name)
}

/// Whether `listing` shows a file called `file_name`. A listing that failed
/// shows none.
pub open spec fn shows(listing: Listing, file_name: Seq<char>) -> bool {
    listing matches Ok(entries) && has_entry(entries@, file_name)
}

/// The bytes of the name that `entry` stands for, if it stands for one.
pub open spec fn entry_name(entry: Option<String>) -> Option<Seq<u8>> {
    match entry {
        Some(text) => decoded_name(text@),
        None => None,
    }
}

/// The names that `entries` stand for, each as its bytes, in the order of the
/// entries. An entry that stands for no name is passed over.
pub open spec fn names_among(entries: Seq<Option<String>>) -> Seq<Seq<u8>> {
    entries.filter_map(|entry: Option<String>| entry_name(entry))
}

/// The names of the chunks that `listing` shows. A listing that failed shows
/// none.
pub open spec fn listed_names(listing: Listing) -> Seq<Seq<u8>> {
    match listing {
        Ok(entries) => names_among(entries@),
        Err(_) => Seq::empty(),
    }
}

/// Taking one more entry into account adds the name it stands for, if any.
pub proof fn names_among_one_more(entries: Seq<Option<String>>, at: int)
    requires
        0 <= at < entries.len(),
    ensures
        names_among(entries.take(at + 1)) == match entry_name(entries[at]) {
            Some(name) => names_among(entries.take(at)).push(name),
            None => names_among(entries.take(at)),
        },
{
    entries.lemma_filter_map_take_succ(|entry: Option<String>| entry_name(entry), at);
}

/// Looks for the file called `file_name` among `entries` and returns the place
/// of the first entry that is this file.
pub fn dir_entry(entries: &Vec<Option<String>>, file_name: &String) -> (found: Option<usize>)
    ensures
        match found {
            Some(at) => {
                &&& at < entries.len()
                &&& is_entry_of(entries[at as int], file_name@)
                &&& forall|i: int| 0 <= i < at ==> !is_entry_of(#[trigger] entries[i], file_name@)
            },
            None => !has_entry(entries@, file_name@),
        },
{
    let mut at: usize = 0;
    while at < entries.len()
        invariant
            at <= entries.len(),
            forall|i: int| 0 <= i < at ==> !is_entry_of(#[trigger] entries[i], file_name@),
        decreases entries.len() - at,
    {
        match &entries[at] {
            Some(text) => {
                if *text == *file_name {
                    return Some(at);
                }
            },
            None => {},
        }
        at += 1;
    }
    None
}

} // verus!
