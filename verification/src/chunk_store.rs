//! The store: how much space it may use, how much it uses, and the exchange
//! with the directory through which chunks are stored, read and deleted.

use crate::error::Error;
use crate::file_name::{file_name_of, from_file_name, to_hex_string};
use crate::listing::{dir_entry, listed_names, names_among, names_among_one_more, shows, Listing};
use vstd::prelude::*;
use vstd::slice::slice_to_vec;
use xor_name::XorName;

verus! {

/// One action on the storage directory that the store asks for. A file name is
/// the name of a file directly inside the directory.
#[derive(Debug)]
pub enum Request {
    /// List the entries of the directory.
    ReadDir,
    /// Read the size of the file in bytes.
    Metadata { file_name: String },
    /// Remove the file.
    RemoveFile { file_name: String },
    /// Create the file anew, write `contents` to it, make the write durable
    /// and read the size that the file then has.
    WriteFile { file_name: String, contents: Vec<u8> },
    /// Read all the bytes of the file.
    ReadFile { file_name: String },
}

/// The result of the action that a [`Request`] of the same name asked for.
#[derive(Debug)]
pub enum Reply {
    /// The listing, or why the directory could not be listed.
    ReadDir(Listing),
    /// The size of the file, or why it could not be read.
    Metadata(Result<usize, std::io::Error>),
    /// Whether the file was removed.
    RemoveFile(Result<(), std::io::Error>),
    /// The size of the file after the write, or the failure of any part of it.
    WriteFile(Result<usize, std::io::Error>),
    /// The bytes of the file, or why they could not be read.
    ReadFile(Result<Vec<u8>, std::io::Error>),
}

/// An operation that is under way: what the store still has to do once the
/// reply to its last request is there.
#[derive(Debug)]
pub enum Task {
    /// Storing `value`: the directory is being listed to see whether the
    /// chunk has a file already.
    PutFind { file_name: String, value: Vec<u8> },
    /// Storing `value`: the file that the chunk has already is being measured.
    PutMeasure { file_name: String, value: Vec<u8> },
    /// Storing `value`: the file that the chunk has already is being removed.
    PutRemove { file_name: String, value: Vec<u8> },
    /// Storing a value: its file is being written.
    PutWrite,
    /// Deleting a chunk: the directory is being listed to see whether the
    /// chunk has a file.
    DeleteFind { file_name: String },
    /// Deleting a chunk: its file is being measured.
    DeleteMeasure { file_name: String },
    /// Deleting a chunk: its file is being removed.
    DeleteRemove,
    /// Reading a chunk: the directory is being listed to see whether the
    /// chunk has a file.
    GetFind { file_name: String },
    /// Reading a chunk: its file is being read.
    GetRead,
}

/// How an operation ended.
#[derive(Debug)]
pub enum Outcome {
    /// A chunk was to be stored.
    Put(Result<(), Error>),
    /// A chunk was to be deleted.
    Delete(Result<(), Error>),
    /// A chunk was to be read: its bytes, if it was there and could be read.
    Get(Result<Vec<u8>, Error>),
}

/// Where an operation stands.
#[derive(Debug)]
pub enum Step {
    /// The request is to be performed on the directory, and its reply handed
    /// to [`ChunkStore::resume`] together with the task.
    Ask(Request, Task),
    /// The operation is over.
    Done(Outcome),
}

impl Request {
    /// Whether `reply` is a result of the action that this request asks for.
    pub open spec fn is_answered_by(self, reply: Reply) -> bool {
        match self {
            Request::ReadDir => reply is ReadDir,
            Request::Metadata { .. } => reply is Metadata,
            Request::RemoveFile { .. } => reply is RemoveFile,
            Request::WriteFile { .. } => reply is WriteFile,
            Request::ReadFile { .. } => reply is ReadFile,
        }
    }
}

impl Step {
    /// Whether the task of this step waits for what its request brings: then
    /// whoever performs the request can hand its result to
    /// [`ChunkStore::resume`].
    pub open spec fn is_matched(self) -> bool {
        match self {
            Step::Ask(request, task) => forall|reply: Reply| #[trigger]
                request.is_answered_by(reply) ==> task.awaits(reply),
            Step::Done(_) => true,
        }
    }
}

impl Task {
    /// The most requests that are still to come before the operation is over,
    /// the one that the task waits for included.
    pub open spec fn steps_left(self) -> nat {
        match self {
            Task::PutFind { .. } => 4,
            Task::PutMeasure { .. } => 3,
            Task::PutRemove { .. } => 2,
            Task::PutWrite => 1,
            Task::DeleteFind { .. } => 3,
            Task::DeleteMeasure { .. } => 2,
            Task::DeleteRemove => 1,
            Task::GetFind { .. } => 2,
            Task::GetRead => 1,
        }
    }

    /// Whether `reply` is what the task waits for: the result of the action
    /// that was asked for when the task was handed out.
    pub open spec fn awaits(self, reply: Reply) -> bool {
        match self {
            Task::PutFind { .. } | Task::DeleteFind { .. } | Task::GetFind { .. } => reply is ReadDir,
            Task::PutMeasure { .. } | Task::DeleteMeasure { .. } => reply is Metadata,
            Task::PutRemove { .. } | Task::DeleteRemove => reply is RemoveFile,
            Task::PutWrite => reply is WriteFile,
            Task::GetRead => reply is ReadFile,
        }
    }
}

/// The step that follows when `task` is handed the reply that it waits for.
///
/// Storing a chunk first clears away the file that the chunk has already, as
/// deleting does, and goes on to write whether or not that worked. Deleting a
/// chunk that has no file is done at once. A file that is to be removed is
/// measured first and removed whether or not it could be measured.
pub open spec fn next_step(task: Task, reply: Reply) -> Step {
    match (task, reply) {
        (Task::PutFind { file_name, value }, Reply::ReadDir(listing)) => {
            if shows(listing, file_name@) {
                Step::Ask(Request::Metadata { file_name }, Task::PutMeasure { file_name, value })
            } else {
                Step::Ask(Request::WriteFile { file_name, contents: value }, Task::PutWrite)
            }
        },
        (Task::PutMeasure { file_name, value }, _) => {
            Step::Ask(Request::RemoveFile { file_name }, Task::PutRemove { file_name, value })
        },
        (Task::PutRemove { file_name, value }, _) => {
            Step::Ask(Request::WriteFile { file_name, contents: value }, Task::PutWrite)
        },
        (Task::PutWrite, Reply::WriteFile(Ok(_))) => Step::Done(Outcome::Put(Ok(()))),
        (Task::PutWrite, Reply::WriteFile(Err(error))) => {
            Step::Done(Outcome::Put(Err(Error::Io(error))))
        },
        (Task::DeleteFind { file_name }, Reply::ReadDir(listing)) => {
            if shows(listing, file_name@) {
                Step::Ask(Request::Metadata { file_name }, Task::DeleteMeasure { file_name })
            } else {
                Step::Done(Outcome::Delete(Ok(())))
            }
        },
        (Task::DeleteMeasure { file_name }, _) => {
            Step::Ask(Request::RemoveFile { file_name }, Task::DeleteRemove)
        },
        (Task::DeleteRemove, Reply::RemoveFile(Ok(_))) => Step::Done(Outcome::Delete(Ok(()))),
        (Task::DeleteRemove, Reply::RemoveFile(Err(error))) => {
            Step::Done(Outcome::Delete(Err(Error::Io(error))))
        },
        (Task::GetFind { file_name }, Reply::ReadDir(listing)) => {
            if shows(listing, file_name@) {
                Step::Ask(Request::ReadFile { file_name }, Task::GetRead)
            } else {
                Step::Done(Outcome::Get(Err(Error::ChunkNotFound)))
            }
        },
        (Task::GetRead, Reply::ReadFile(Ok(contents))) => Step::Done(Outcome::Get(Ok(contents))),
        (Task::GetRead, Reply::ReadFile(Err(error))) => {
            Step::Done(Outcome::Get(Err(Error::Io(error))))
        },
        // No task waits for such a reply.
        _ => arbitrary(),
    }
}

/// Whether `step` opens the storing of `value` under `name`: the directory is
/// to be listed, and the task holds the chunk's file name and the value.
pub open spec fn begins_put(step: Step, name: XorName, value: Seq<u8>) -> bool {
    step matches Step::Ask(Request::ReadDir, Task::PutFind { file_name, value: held })
        && file_name@ == file_name_of(name) && held@ == value
}

/// Whether `step` opens the deleting of the chunk called `name`: the
/// directory is to be listed, and the task holds the chunk's file name.
pub open spec fn begins_delete(step: Step, name: XorName) -> bool {
    step matches Step::Ask(Request::ReadDir, Task::DeleteFind { file_name })
        && file_name@ == file_name_of(name)
}

/// Whether `step` opens the reading of the chunk called `name`: the directory
/// is to be listed, and the task holds the chunk's file name.
pub open spec fn begins_get(step: Step, name: XorName) -> bool {
    step matches Step::Ask(Request::ReadDir, Task::GetFind { file_name })
        && file_name@ == file_name_of(name)
}

/// Every operation opens with a step whose task waits for what its request
/// brings.
pub proof fn first_steps_are_matched(step: Step, name: XorName, value: Seq<u8>)
    requires
        begins_put(step, name, value) || begins_delete(step, name) || begins_get(step, name),
    ensures
        step.is_matched(),
{
}

/// The step that follows a reply is again one whose task waits for what its
/// request brings, and it is nearer to the end of the operation: no operation
/// asks more than four times.
pub proof fn next_step_is_matched_and_nearer(task: Task, reply: Reply)
    requires
        task.awaits(reply),
    ensures
        next_step(task, reply).is_matched(),
        next_step(task, reply) matches Step::Ask(_, next) ==> next.steps_left() < task.steps_left(),
        task.steps_left() <= 4,
{
}

/// The space accounting of a store, in numbers without bounds.
pub struct Usage {
    /// The most bytes that the store may hold.
    pub max_space: nat,
    /// The bytes that the store counts as held.
    pub used_space: nat,
}

impl Usage {
    /// Whether `required_space` more bytes stay within the quota.
    pub open spec fn has_space(self, required_space: nat) -> bool {
        self.used_space + required_space <= self.max_space
    }

    /// The accounting after a file of `size` bytes was taken into the store.
    pub open spec fn claim(self, size: nat) -> Usage {
        Usage { max_space: self.max_space, used_space: self.used_space + size }
    }

    /// The accounting after a file of `size` bytes was given up. No more is
    /// given up than is counted as held.
    pub open spec fn release(self, size: nat) -> Usage {
        Usage {
            max_space: self.max_space,
            used_space: if size <= self.used_space {
                (self.used_space - size) as nat
            } else {
                0
            },
        }
    }

    /// The accounting after `task` was handed `reply`. The size of a file that
    /// is about to be removed is given up as soon as it is known; the size of
    /// a file that was written is taken in. Nothing else changes the
    /// accounting.
    pub open spec fn after(self, task: Task, reply: Reply) -> Usage {
        match (task, reply) {
            (Task::PutMeasure { .. }, Reply::Metadata(Ok(size))) => self.release(size as nat),
            (Task::DeleteMeasure { .. }, Reply::Metadata(Ok(size))) => self.release(size as nat),
            (Task::PutWrite, Reply::WriteFile(Ok(size))) => self.claim(size as nat),
            _ => self,
        }
    }
}

/// A collection of data chunks that are kept as files of one directory, with a
/// limit on the bytes that it holds.
///
/// The store does not reach into the directory. It says which file-system
/// action it needs next (see [`Step`]), and whoever owns the directory performs
/// the action and hands the result to [`ChunkStore::resume`].
#[derive(Debug)]
pub struct ChunkStore {
    max_space: usize,
    used_space: usize,
}

impl View for ChunkStore {
    type V = Usage;

    closed spec fn view(&self) -> Usage {
        Usage { max_space: self.max_space as nat, used_space: self.used_space as nat }
    }
}

impl ChunkStore {
    /// A store over an empty directory, allowed to hold `max_space` bytes.
    pub fn new(max_space: usize) -> (store: ChunkStore)
        ensures
            store@ == (Usage { max_space: max_space as nat, used_space: 0 }),
    {
        ChunkStore { max_space, used_space: 0 }
    }

    /// A store over a directory that was to be made for it, given how the
    /// making went: the store, allowed to hold `max_space` bytes, where the
    /// directory was made, and the failure where it was not.
    pub fn new_in(made: Result<(), std::io::Error>, max_space: usize) -> (store: Result<
        ChunkStore,
        Error,
    >)
        ensures
            match made {
                Ok(_) => store matches Ok(store) && store@ == (Usage {
                    max_space: max_space as nat,
                    used_space: 0,
                }),
                Err(error) => store matches Err(Error::Io(failure)) && failure == error,
            },
    {
        match made {
            Ok(_) => Ok(ChunkStore::new(max_space)),
            Err(error) => Err(Error::from(error)),
        }
    }

    /// The most bytes that this store may hold.
    pub fn max_space(&self) -> (max_space: usize)
        ensures
            max_space == self@.max_space,
    {
        self.max_space
    }

    /// The bytes that this store counts as held.
    pub fn used_space(&self) -> (used_space: usize)
        ensures
            used_space == self@.used_space,
    {
        self.used_space
    }

    /// Whether a chunk of `required_space` bytes would stay within the quota.
    pub fn has_space(&self, required_space: usize) -> (enough: bool)
        ensures
            enough == self@.has_space(required_space as nat),
    {
        match self.used_space.checked_add(required_space) {
            Some(needed) => needed <= self.max_space,
            None => false,
        }
    }

    /// Begins to store `value` under `name`. If a chunk of that name exists
    /// already, it will be overwritten.
    ///
    /// Where the value does not fit into the space that is left, the operation
    /// is over at once with `Error::NotEnoughSpace`, and nothing is asked of
    /// the directory.
    pub fn put(&self, name: &XorName, value: &[u8]) -> (step: Step)
        ensures
            if self@.has_space(value@.len()) {
                begins_put(step, *name, value@)
            } else {
                step == Step::Done(Outcome::Put(Err(Error::NotEnoughSpace)))
            },
    {
        if !self.has_space(value.len()) {
            return Step::Done(Outcome::Put(Err(Error::NotEnoughSpace)));
        }
        let file_name = to_hex_string(name);
        Step::Ask(Request::ReadDir, Task::PutFind { file_name, value: slice_to_vec(value) })
    }

    /// Begins to delete the chunk stored under `name`.
    pub fn delete(&self, name: &XorName) -> (step: Step)
        ensures
            begins_delete(step, *name),
    {
        Step::Ask(Request::ReadDir, Task::DeleteFind { file_name: to_hex_string(name) })
    }

    /// Begins to read the chunk stored under `name`.
    pub fn get(&self, name: &XorName) -> (step: Step)
        ensures
            begins_get(step, *name),
    {
        Step::Ask(Request::ReadDir, Task::GetFind { file_name: to_hex_string(name) })
    }

    /// Tests whether a chunk called `name` is stored in the directory that
    /// `listing` was read from.
    pub fn has_chunk(&self, name: &XorName, listing: &Listing) -> (stored: bool)
        ensures
            stored == shows(*listing, file_name_of(*name)),
    {
        let file_name = to_hex_string(name);
        listed(listing, &file_name)
    }

    /// Lists the names of the chunks that are stored in the directory that
    /// `listing` was read from, in the order of the listing. Entries whose
    /// file names stand for no name are passed over.
    pub fn names(&self, listing: &Listing) -> (names: Vec<XorName>)
        ensures
            names@.map_values(|name: XorName| name.0@) == listed_names(*listing),
    {
        let mut names: Vec<XorName> = Vec::new();
        if let Ok(entries) = listing {
            let mut at: usize = 0;
            while at < entries.len()
                invariant
                    at <= entries.len(),
                    names@.map_values(|name: XorName| name.0@) == names_among(
                        entries@.take(at as int),
                    ),
                decreases entries.len() - at,
            {
                proof {
                    names_among_one_more(entries@, at as int);
                }
                if let Some(text) = &entries[at] {
                    if let Some(name) = from_file_name(text.as_str()) {
                        names.push(name);
                    }
                }
                at += 1;
            }
            assert(entries@.take(at as int) == entries@);
        }
        names
    }

    /// Tests whether `reply` can be handed to [`ChunkStore::resume`] together
    /// with `task`.
    pub fn can_resume(&self, task: &Task, reply: &Reply) -> (fit: bool)
        ensures
            fit == (task.awaits(*reply) && self@.after(*task, *reply).used_space <= usize::MAX),
    {
        match (task, reply) {
            (Task::PutFind { .. }, Reply::ReadDir(_)) => true,
            (Task::DeleteFind { .. }, Reply::ReadDir(_)) => true,
            (Task::GetFind { .. }, Reply::ReadDir(_)) => true,
            (Task::PutMeasure { .. }, Reply::Metadata(_)) => true,
            (Task::DeleteMeasure { .. }, Reply::Metadata(_)) => true,
            (Task::PutRemove { .. }, Reply::RemoveFile(_)) => true,
            (Task::DeleteRemove, Reply::RemoveFile(_)) => true,
            (Task::PutWrite, Reply::WriteFile(Ok(size))) => {
                self.used_space.checked_add(*size).is_some()
            },
            (Task::PutWrite, Reply::WriteFile(Err(_))) => true,
            (Task::GetRead, Reply::ReadFile(_)) => true,
            _ => false,
        }
    }

    /// Goes on with `task` once the reply to its request is there, and returns
    /// the step that follows.
    ///
    /// The reply has to be the result of the action that was asked for
    /// together with `task`, and the size of a file that was written must not
    /// take the count of used bytes past what a `usize` holds.
    pub fn resume(&mut self, task: Task, reply: Reply) -> (step: Step)
        requires
            task.awaits(reply),
            old(self)@.after(task, reply).used_space <= usize::MAX,
        ensures
            step == next_step(task, reply),
            final(self)@ == old(self)@.after(task, reply),
    {
        match task {
            Task::PutFind { file_name, value } => match reply {
                Reply::ReadDir(listing) => {
                    if listed(&listing, &file_name) {
                        let request = Request::Metadata { file_name: file_name.clone() };
                        Step::Ask(request, Task::PutMeasure { file_name, value })
                    } else {
                        Step::Ask(Request::WriteFile { file_name, contents: value }, Task::PutWrite)
                    }
                },
                _ => unreached(),
            },
            Task::PutMeasure { file_name, value } => match reply {
                Reply::Metadata(size) => {
                    self.release(size);
                    let request = Request::RemoveFile { file_name: file_name.clone() };
                    Step::Ask(request, Task::PutRemove { file_name, value })
                },
                _ => unreached(),
            },
            Task::PutRemove { file_name, value } => {
                // Whether the old file went or not, the new one is written.
                Step::Ask(Request::WriteFile { file_name, contents: value }, Task::PutWrite)
            },
            Task::PutWrite => match reply {
                Reply::WriteFile(Ok(size)) => {
                    self.used_space = self.used_space + size;
                    Step::Done(Outcome::Put(Ok(())))
                },
                Reply::WriteFile(Err(error)) => Step::Done(Outcome::Put(Err(Error::Io(error)))),
                _ => unreached(),
            },
            Task::DeleteFind { file_name } => match reply {
                Reply::ReadDir(listing) => {
                    if listed(&listing, &file_name) {
                        let request = Request::Metadata { file_name: file_name.clone() };
                        Step::Ask(request, Task::DeleteMeasure { file_name })
                    } else {
                        Step::Done(Outcome::Delete(Ok(())))
                    }
                },
                _ => unreached(),
            },
            Task::DeleteMeasure { file_name } => match reply {
                Reply::Metadata(size) => {
                    self.release(size);
                    Step::Ask(Request::RemoveFile { file_name }, Task::DeleteRemove)
                },
                _ => unreached(),
            },
            Task::DeleteRemove => match reply {
                Reply::RemoveFile(Ok(_)) => Step::Done(Outcome::Delete(Ok(()))),
                Reply::RemoveFile(Err(error)) => Step::Done(Outcome::Delete(Err(Error::Io(error)))),
                _ => unreached(),
            },
            Task::GetFind { file_name } => match reply {
                Reply::ReadDir(listing) => {
                    if listed(&listing, &file_name) {
                        Step::Ask(Request::ReadFile { file_name }, Task::GetRead)
                    } else {
                        Step::Done(Outcome::Get(Err(Error::ChunkNotFound)))
                    }
                },
                _ => unreached(),
            },
            Task::GetRead => match reply {
                Reply::ReadFile(Ok(contents)) => Step::Done(Outcome::Get(Ok(contents))),
                Reply::ReadFile(Err(error)) => Step::Done(Outcome::Get(Err(Error::Io(error)))),
                _ => unreached(),
            },
        }
    }

    /// Gives up the space of a file that is about to be removed, if its size
    /// could be read. The file is removed in either case.
    fn release(&mut self, size: Result<usize, std::io::Error>)
        ensures
            final(self)@ == match size {
                Ok(size) => old(self)@.release(size as nat),
                Err(_) => old(self)@,
            },
    {
        if let Ok(size) = size {
            let given_up = if size <= self.used_space {
                size
            } else {
                self.used_space
            };
            self.used_space = self.used_space - given_up;
        }
    }
}

/// Whether `listing` shows a file called `file_name`.
fn listed(listing: &Listing, file_name: &String) -> (found: bool)
    ensures
        found == shows(*listing, file_name@),
{
    match listing {
        Ok(entries) => dir_entry(entries, file_name).is_some(),
        Err(_) => false,
    }
}

} // verus!
