//! A model of the storage directory, and what the store's exchanges come to
//! when the directory works: when it belongs to the store alone and every
//! action on it does what it is meant to do.

use crate::chunk_store::{
    begins_delete, begins_get, begins_put, next_step, Outcome, Reply, Request, Step, Usage,
};
use crate::error::Error;
use crate::file_name::{
    decoded_name, decoding_inverts_encoding, file_name_of, file_name_stands_for_its_name,
    hex_encoding, NAME_LEN,
};
use crate::listing::{entry_name, has_entry, is_entry_of, listed_names, names_among, shows};
use vstd::prelude::*;
use xor_name::XorName;

verus! {

/// The bytes that all the files of `files` hold together.
pub open spec fn total_size(files: Map<Seq<char>, Seq<u8>>) -> nat
    decreases files.dom().len(),
    when files.dom().finite()
{
    if files.dom().len() == 0 {
        0
    } else {
        let file_name = files.dom().choose();
        files[file_name].len() + total_size(files.remove(file_name))
    }
}

/// The total size counts each file once, whichever file is taken out first.
pub proof fn total_size_without(files: Map<Seq<char>, Seq<u8>>, file_name: Seq<char>)
    requires
        files.dom().finite(),
        files.contains_key(file_name),
    ensures
        total_size(files) == files[file_name].len() + total_size(files.remove(file_name)),
    decreases files.dom().len(),
{
    let chosen = files.dom().choose();
    if chosen != file_name {
        total_size_without(files.remove(chosen), file_name);
        total_size_without(files.remove(file_name), chosen);
        assert(files.remove(chosen).remove(file_name) == files.remove(file_name).remove(chosen));
    }
}

/// Writing a file replaces what the file held before, if it was there.
pub proof fn total_size_with(files: Map<Seq<char>, Seq<u8>>, file_name: Seq<char>, contents: Seq<u8>)
    requires
        files.dom().finite(),
    ensures
        total_size(files.insert(file_name, contents)) == total_size(files.remove(file_name))
            + contents.len(),
{
    total_size_without(files.insert(file_name, contents), file_name);
    assert(files.insert(file_name, contents).remove(file_name) == files.remove(file_name));
}

/// Whether `file_name` is the file name of a chunk: the file name of the
/// name that it stands for.
pub open spec fn is_chunk_file_name(file_name: Seq<char>) -> bool {
    decoded_name(file_name) matches Some(id) && hex_encoding(id) == file_name
}

/// A storage directory: each file in it, by its name, with the bytes it holds.
pub struct Directory {
    pub files: Map<Seq<char>, Seq<u8>>,
}

impl Directory {
    /// The bytes that the directory holds.
    pub open spec fn size(self) -> nat {
        total_size(self.files)
    }

    /// Whether `usage` counts as used exactly the bytes that the directory
    /// holds.
    pub open spec fn is_counted_by(self, usage: Usage) -> bool {
        self.files.dom().finite() && usage.used_space == self.size()
    }

    /// Whether every file of the directory is the file of a chunk: its name
    /// is the file name of the name that it stands for.
    pub open spec fn holds_chunks_only(self) -> bool {
        forall|file_name: Seq<char>| #[trigger]
            self.files.contains_key(file_name) ==> is_chunk_file_name(file_name)
    }

    /// Whether `entries` is a listing of this directory: the files that the
    /// entries name are the files of the directory.
    pub open spec fn is_listed_by(self, entries: Seq<Option<String>>) -> bool {
        forall|file_name: Seq<char>|
            self.files.contains_key(file_name) <==> #[trigger] has_entry(entries, file_name)
    }

    /// Whether `reply` is what this directory gives when it works: every
    /// action succeeds, but for one on a file that is not there.
    pub open spec fn answers(self, request: Request, reply: Reply) -> bool {
        match request {
            Request::ReadDir => reply matches Reply::ReadDir(Ok(entries)) && self.is_listed_by(
                entries@,
            ),
            Request::Metadata { file_name } => if self.files.contains_key(file_name@) {
                reply matches Reply::Metadata(Ok(size)) && size == self.files[file_name@].len()
            } else {
                reply matches Reply::Metadata(Err(_))
            },
            Request::RemoveFile { file_name } => if self.files.contains_key(file_name@) {
                reply matches Reply::RemoveFile(Ok(_))
            } else {
                reply matches Reply::RemoveFile(Err(_))
            },
            Request::WriteFile { file_name, contents } => {
                reply matches Reply::WriteFile(Ok(size)) && size == contents@.len()
            },
            Request::ReadFile { file_name } => if self.files.contains_key(file_name@) {
                reply matches Reply::ReadFile(Ok(contents)) && contents@ == self.files[file_name@]
            } else {
                reply matches Reply::ReadFile(Err(_))
            },
        }
    }

    /// The directory after the action that `request` asks for.
    pub open spec fn after(self, request: Request) -> Directory {
        match request {
            Request::RemoveFile { file_name } => Directory {
                files: self.files.remove(file_name@),
            },
            Request::WriteFile { file_name, contents } => Directory {
                files: self.files.insert(file_name@, contents@),
            },
            _ => self,
        }
    }
}

/// Where an operation ends when it is at `step` and the directory gives
/// `replies` one after the other: the accounting, the directory and the
/// outcome at the end. `None` where the replies are not those of a working
/// directory, or are too few or too many.
pub open spec fn run(usage: Usage, directory: Directory, step: Step, replies: Seq<Reply>) -> Option<
    (Usage, Directory, Outcome),
>
    decreases replies.len(),
{
    match step {
        Step::Done(outcome) => if replies.len() == 0 {
            Some((usage, directory, outcome))
        } else {
            None
        },
        Step::Ask(request, task) => if replies.len() > 0 && directory.answers(
            request,
            replies[0],
        ) {
            run(
                usage.after(task, replies[0]),
                directory.after(request),
                next_step(task, replies[0]),
                replies.drop_first(),
            )
        } else {
            None
        },
    }
}

/// A listing of a working directory shows a file exactly if the file is
/// there.
pub proof fn listing_shows_what_is_there(directory: Directory, reply: Reply, file_name: Seq<char>)
    requires
        directory.answers(Request::ReadDir, reply),
    ensures
        reply matches Reply::ReadDir(listing) && (shows(listing, file_name)
            <==> directory.files.contains_key(file_name)),
{
}

/// Reading a chunk gives the bytes of its file, or `ChunkNotFound` where the
/// chunk has no file. Neither the accounting nor the directory changes.
pub proof fn get_reads_the_file(
    usage: Usage,
    directory: Directory,
    name: XorName,
    first: Step,
    replies: Seq<Reply>,
    end: (Usage, Directory, Outcome),
)
    requires
        begins_get(first, name),
        run(usage, directory, first, replies) == Some(end),
    ensures
        end.0 == usage,
        end.1 == directory,
        if directory.files.contains_key(file_name_of(name)) {
            end.2 matches Outcome::Get(Ok(contents)) && contents@ == directory.files[file_name_of(
                name,
            )]
        } else {
            end.2 == Outcome::Get(Err(Error::ChunkNotFound))
        },
{
    reveal_with_fuel(run, 3);
    listing_shows_what_is_there(directory, replies[0], file_name_of(name));
}

/// A new store counts what an empty directory holds.
pub proof fn empty_directory_is_counted(max_space: nat)
    ensures
        (Directory { files: Map::empty() }).is_counted_by(Usage { max_space, used_space: 0 }),
        (Directory { files: Map::empty() }).holds_chunks_only(),
{
}

/// Deleting a chunk removes its file and leaves the other files alone. Where
/// the accounting counted what the directory held, the bytes of the file are
/// given up and it still does.
pub proof fn delete_removes_the_file(
    usage: Usage,
    directory: Directory,
    name: XorName,
    first: Step,
    replies: Seq<Reply>,
    end: (Usage, Directory, Outcome),
)
    requires
        begins_delete(first, name),
        run(usage, directory, first, replies) == Some(end),
    ensures
        end.2 == Outcome::Delete(Ok(())),
        end.1.files == directory.files.remove(file_name_of(name)),
        end.0.max_space == usage.max_space,
        end.0.used_space <= usage.used_space,
        directory.is_counted_by(usage) ==> end.1.is_counted_by(end.0),
        directory.holds_chunks_only() ==> end.1.holds_chunks_only(),
{
    reveal_with_fuel(run, 4);
    let file_name = file_name_of(name);
    listing_shows_what_is_there(directory, replies[0], file_name);
    if directory.files.contains_key(file_name) {
        if directory.files.dom().finite() {
            total_size_without(directory.files, file_name);
        }
    } else {
        assert(directory.files.remove(file_name) == directory.files);
    }
}

/// Deleting a chunk that is not stored succeeds and changes nothing.
pub proof fn delete_of_a_missing_chunk(
    usage: Usage,
    directory: Directory,
    name: XorName,
    first: Step,
    replies: Seq<Reply>,
    end: (Usage, Directory, Outcome),
)
    requires
        !directory.files.contains_key(file_name_of(name)),
        begins_delete(first, name),
        run(usage, directory, first, replies) == Some(end),
    ensures
        end == (usage, directory, Outcome::Delete(Ok(()))),
{
    reveal_with_fuel(run, 2);
    listing_shows_what_is_there(directory, replies[0], file_name_of(name));
}

/// Storing a value writes it to the chunk's file, in place of what the file
/// held before, and leaves the other files alone. Where the accounting counted
/// what the directory held, it still does: the other files and the new value,
/// and, where the value was found to fit, no more than the quota.
pub proof fn put_writes_the_file(
    usage: Usage,
    directory: Directory,
    name: XorName,
    value: Seq<u8>,
    first: Step,
    replies: Seq<Reply>,
    end: (Usage, Directory, Outcome),
)
    requires
        begins_put(first, name, value),
        run(usage, directory, first, replies) == Some(end),
    ensures
        end.2 == Outcome::Put(Ok(())),
        end.1.files == directory.files.insert(file_name_of(name), value),
        end.0.max_space == usage.max_space,
        directory.is_counted_by(usage) ==> {
            &&& end.1.is_counted_by(end.0)
            &&& end.0.used_space == total_size(directory.files.remove(file_name_of(name)))
                + value.len()
            &&& usage.has_space(value.len()) ==> end.0.used_space <= end.0.max_space
        },
        directory.holds_chunks_only() ==> end.1.holds_chunks_only(),
{
    reveal_with_fuel(run, 5);
    let file_name = file_name_of(name);
    listing_shows_what_is_there(directory, replies[0], file_name);
    file_name_stands_for_its_name(name);
    if directory.files.contains_key(file_name) {
        assert(directory.files.remove(file_name).insert(file_name, value)
            == directory.files.insert(file_name, value));
    } else {
        assert(directory.files.remove(file_name) == directory.files);
    }
    if directory.files.dom().finite() {
        total_size_with(directory.files, file_name, value);
        if directory.files.contains_key(file_name) {
            total_size_without(directory.files, file_name);
        }
    }
}

/// Storing a value that does not fit fails with `NotEnoughSpace` before
/// anything is asked of the directory, and changes nothing.
pub proof fn put_without_space_changes_nothing(
    usage: Usage,
    directory: Directory,
    replies: Seq<Reply>,
    end: (Usage, Directory, Outcome),
)
    requires
        run(usage, directory, Step::Done(Outcome::Put(Err(Error::NotEnoughSpace))), replies)
            == Some(end),
    ensures
        replies.len() == 0,
        end == (usage, directory, Outcome::Put(Err(Error::NotEnoughSpace))),
{
}

/// A value that was stored is read back as it was, and every listing shows
/// its chunk.
pub proof fn stored_value_is_read_back(
    usage: Usage,
    directory: Directory,
    name: XorName,
    value: Seq<u8>,
    first_of_put: Step,
    replies_to_put: Seq<Reply>,
    stored: (Usage, Directory, Outcome),
    first_of_get: Step,
    replies_to_get: Seq<Reply>,
    read: (Usage, Directory, Outcome),
    listing: Reply,
)
    requires
        begins_put(first_of_put, name, value),
        run(usage, directory, first_of_put, replies_to_put) == Some(stored),
        begins_get(first_of_get, name),
        run(stored.0, stored.1, first_of_get, replies_to_get) == Some(read),
        stored.1.answers(Request::ReadDir, listing),
    ensures
        read.2 matches Outcome::Get(Ok(contents)) && contents@ == value,
        listing matches Reply::ReadDir(listing) && shows(listing, file_name_of(name)),
{
    put_writes_the_file(usage, directory, name, value, first_of_put, replies_to_put, stored);
    get_reads_the_file(stored.0, stored.1, name, first_of_get, replies_to_get, read);
    listing_shows_what_is_there(stored.1, listing, file_name_of(name));
}

/// A chunk that was deleted is not found any more, and no listing shows it.
pub proof fn deleted_chunk_is_not_found(
    usage: Usage,
    directory: Directory,
    name: XorName,
    first_of_delete: Step,
    replies_to_delete: Seq<Reply>,
    deleted: (Usage, Directory, Outcome),
    first_of_get: Step,
    replies_to_get: Seq<Reply>,
    read: (Usage, Directory, Outcome),
    listing: Reply,
)
    requires
        begins_delete(first_of_delete, name),
        run(usage, directory, first_of_delete, replies_to_delete) == Some(deleted),
        begins_get(first_of_get, name),
        run(deleted.0, deleted.1, first_of_get, replies_to_get) == Some(read),
        deleted.1.answers(Request::ReadDir, listing),
    ensures
        read.2 == Outcome::Get(Err(Error::ChunkNotFound)),
        listing matches Reply::ReadDir(listing) && !shows(listing, file_name_of(name)),
{
    delete_removes_the_file(usage, directory, name, first_of_delete, replies_to_delete, deleted);
    get_reads_the_file(deleted.0, deleted.1, name, first_of_get, replies_to_get, read);
    listing_shows_what_is_there(deleted.1, listing, file_name_of(name));
}

/// An entry that stands for a name has that name among the listed names.
proof fn entry_is_among_names(entries: Seq<Option<String>>, at: int)
    requires
        0 <= at < entries.len(),
        entry_name(entries[at]) is Some,
    ensures
        names_among(entries).contains(entry_name(entries[at])->0),
    decreases entries.len(),
{
    let rest = names_among(entries.drop_last());
    if at == entries.len() - 1 {
        let names = names_among(entries);
        assert(names[names.len() - 1] == entry_name(entries[at])->0);
    } else {
        entry_is_among_names(entries.drop_last(), at);
        let id = entry_name(entries[at])->0;
        let found = choose|i: int| 0 <= i < rest.len() && rest[i] == id;
        assert(names_among(entries)[found] == id);
    }
}

/// In a directory that holds chunks only, a listing gives exactly the names
/// of the chunks that are stored, whatever the order of its entries.
pub proof fn names_are_the_stored_chunks(directory: Directory, reply: Reply, id: Seq<u8>)
    requires
        directory.holds_chunks_only(),
        directory.answers(Request::ReadDir, reply),
    ensures
        reply matches Reply::ReadDir(listing) && (listed_names(listing).contains(id) <==> id.len()
            == NAME_LEN && directory.files.contains_key(hex_encoding(id))),
{
    let entries = reply->ReadDir_0->Ok_0@;
    let names = names_among(entries);
    if names.contains(id) {
        entries.lemma_filter_map_contains(|entry: Option<String>| entry_name(entry), id);
        let entry = choose|entry: Option<String>| #[trigger]
            entries.contains(entry) && entry_name(entry) == Some(id);
        let at = choose|i: int| 0 <= i < entries.len() && entries[i] == entry;
        let file_name = entry->0@;
        assert(is_entry_of(entries[at], file_name));
        assert(has_entry(entries, file_name));
        assert(directory.files.contains_key(file_name));
    }
    if id.len() == NAME_LEN && directory.files.contains_key(hex_encoding(id)) {
        let file_name = hex_encoding(id);
        assert(has_entry(entries, file_name));
        let at = choose|i: int| 0 <= i < entries.len() && is_entry_of(#[trigger] entries[i], file_name);
        decoding_inverts_encoding(id);
        entry_is_among_names(entries, at);
    }
}

} // verus!
