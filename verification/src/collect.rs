//! File collector: expands a dropped path (file or directory) into a flat
//! list of file paths, depth-first in listing order.
//!
//! The filesystem itself is a collaborator: the caller looks up each
//! pending path and feeds the answer back as an `FsInfo`. This module owns
//! the traversal decisions — an explicit worklist, no recursion. A read
//! failure is recorded with the failing path and skips only that subtree;
//! the rest of the traversal continues (paths already collected are never
//! rolled back). Symlink cycles are not guarded against.

use vstd::prelude::*;

verus! {

/// What the filesystem reports for one pending path.
pub enum FsInfo {
    /// The path is a regular file.
    File,
    /// The path is a directory, with its entries in listing order.
    Dir(Vec<String>),
    /// The path (or one of its entries) could not be read.
    ReadError,
}

/// A depth-first traversal in progress: restartable, one step per
/// filesystem lookup.
pub struct Collector {
    /// Paths not yet visited; the last one is visited next.
    pub pending: Vec<String>,
    /// Collected file paths, in depth-first listing order.
    pub collected: Vec<String>,
    /// Paths whose read failed; each aborted only its own subtree.
    pub failures: Vec<String>,
}

impl Collector {
    /// A traversal about to visit `root`.
    pub fn start(root: String) -> (r: Collector)
        ensures
            r.pending@.len() == 1,
            r.pending@[0] == root,
            r.collected@.len() == 0,
            r.failures@.len() == 0,
    {
        let mut pending: Vec<String> = Vec::new();
        pending.push(root);
        Collector { pending, collected: Vec::new(), failures: Vec::new() }
    }

    /// Whether the traversal is finished.
    pub fn done(&self) -> (r: bool)
        ensures
            r == (self.pending@.len() == 0),
    {
        self.pending.len() == 0
    }

    /// One traversal step: consumes the next pending path together with
    /// what the filesystem reported for it. A file is collected; a
    /// directory's entries are queued so that they are visited in listing
    /// order, depth-first; a read failure is recorded and its subtree
    /// dropped. Nothing already collected ever changes.
    pub fn step(&mut self, info: FsInfo)
        requires
            old(self).pending@.len() > 0,
        ensures
            ({
                let p = old(self).pending@.last();
                match info {
                    FsInfo::File => {
                        &&& final(self).pending@ == old(self).pending@.drop_last()
                        &&& final(self).collected@ == old(self).collected@.push(p)
                        &&& final(self).failures@ == old(self).failures@
                    },
                    FsInfo::Dir(es) => {
                        &&& final(self).pending@ == old(self).pending@.drop_last() + es@.reverse()
                        &&& final(self).collected@ == old(self).collected@
                        &&& final(self).failures@ == old(self).failures@
                    },
                    FsInfo::ReadError => {
                        &&& final(self).pending@ == old(self).pending@.drop_last()
                        &&& final(self).collected@ == old(self).collected@
                        &&& final(self).failures@ == old(self).failures@.push(p)
                    },
                }
            }),
    {
        let p = match self.pending.pop() {
            Some(p) => p,
            None => {
                proof {
                    assert(false);
                }
                return ;
            },
        };
        match info {
            FsInfo::File => {
                self.collected.push(p);
            },
            FsInfo::Dir(entries) => {
                let ghost es0 = entries@;
                let ghost base = self.pending@;
                let mut entries = entries;
                while entries.len() > 0
                    invariant
                        entries@.len() <= es0.len(),
                        entries@ == es0.take(entries@.len() as int),
                        self.pending@ == base + es0.subrange(
                            entries@.len() as int,
                            es0.len() as int,
                        ).reverse(),
                        self.collected@ == old(self).collected@,
                        self.failures@ == old(self).failures@,
                    decreases entries@.len(),
                {
                    let ghost m = entries@.len() as int;
                    let e = match entries.pop() {
                        Some(e) => e,
                        None => {
                            proof {
                                assert(false);
                            }
                            return ;
                        },
                    };
                    self.pending.push(e);
                    proof {
                        assert(entries@ =~= es0.take(m - 1));
                        assert(es0.subrange(m - 1, es0.len() as int).reverse() =~= es0.subrange(
                            m,
                            es0.len() as int,
                        ).reverse().push(es0[m - 1]));
                    }
                }
                proof {
                    assert(es0.subrange(0, es0.len() as int) =~= es0);
                    assert(self.pending@ == base + es0.reverse());
                }
            },
            FsInfo::ReadError => {
                self.failures.push(p);
            },
        }
    }
}

} // verus!
