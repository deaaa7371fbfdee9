use vstd::prelude::*;
use std::collections::VecDeque;
use crate::error::Error;

verus! {

/// What the driver found at a path that the walk asked it to look at.
pub enum Probe {
    /// Not a directory: the path is a file to transfer.
    File,
    /// A directory, with what listing it gave: one entry or one error each.
    Directory(Vec<Result<String, Error>>),
    /// A directory that could not be listed.
    Unreadable(Error),
}

/// What the walk does next.
pub enum Visit {
    /// The driver is to look at this path and call `resolve` with what it
    /// finds.
    Inspect(String),
    /// The walk produces this item.
    Yield(Result<String, Error>),
    /// Nothing is left.
    Done,
}

/// A depth-first walk over the files under a path. It holds the paths still
/// to visit, the next one last, and expands directories as it meets them.
pub struct ChildPaths {
    stack: VecDeque<Result<String, Error>>,
}

impl View for ChildPaths {
    type V = Seq<Result<String, Error>>;

    closed spec fn view(&self) -> Seq<Result<String, Error>> {
        self.stack@
    }
}

impl ChildPaths {
    pub fn from_path(path: &str) -> (walk: Self)
        ensures
            walk@.len() == 1,
            walk@[0] matches Ok(first) && first@ == path@,
    {
        let mut stack: VecDeque<Result<String, Error>> = VecDeque::new();
        let base: String = path.to_owned();
        stack.push_back(Ok(base));
        ChildPaths { stack }
    }

    /// Paths and errors still waiting to be visited.
    pub fn pending(&self) -> (n: usize)
        ensures
            n == self@.len(),
    {
        self.stack.len()
    }

    /// Takes the item to visit next off the walk. A path has to be looked at
    /// before the walk can go on; an error recorded while listing is produced
    /// as it is.
    pub fn advance(&mut self) -> (visit: Visit)
        ensures
            match visit {
                Visit::Inspect(path) => old(self)@.len() > 0 && old(self)@.last() == Ok::<
                    String,
                    Error,
                >(path) && final(self)@ == old(self)@.drop_last(),
                Visit::Yield(item) => old(self)@.len() > 0 && old(self)@.last() == item
                    && item is Err && final(self)@ == old(self)@.drop_last(),
                Visit::Done => old(self)@.len() == 0 && final(self)@ == old(self)@,
            },
    {
        match self.stack.pop_back() {
            Some(Ok(path)) => Visit::Inspect(path),
            Some(Err(e)) => Visit::Yield(Err(e)),
            None => Visit::Done,
        }
    }

    /// Takes in what the driver found at `path`. A file is produced; the
    /// entries of a directory go onto the walk in the order of the listing,
    /// so that the last one is visited first, and nothing is produced; a
    /// directory that could not be listed produces its error.
    pub fn resolve(&mut self, path: String, probe: Probe) -> (item: Option<Result<String, Error>>)
        ensures
            match probe {
                Probe::File => item == Some(Ok::<String, Error>(path)) && final(self)@ == old(
                    self,
                )@,
                Probe::Directory(entries) => item is None && final(self)@ == old(self)@
                    + entries@,
                Probe::Unreadable(e) => item == Some(Err::<String, Error>(e)) && final(self)@
                    == old(self)@,
            },
    {
        match probe {
            Probe::File => Some(Ok(path)),
            Probe::Directory(entries) => {
                let ghost listing = entries@;
                for entry in it: entries
                    invariant
                        it.seq() == listing,
                        self.stack@ == old(self).stack@ + listing.take(it.index() as int),
                {
                    self.stack.push_back(entry);
                    assert(listing.take(it.index() + 1) =~= listing.take(it.index() as int).push(
                        listing[it.index() as int],
                    ));
                }
                assert(listing.take(listing.len() as int) =~= listing);
                None
            },
            Probe::Unreadable(e) => Some(Err(e)),
        }
    }
}

} // verus!
