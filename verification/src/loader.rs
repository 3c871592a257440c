//! The directory loader: from what the host read of a directory to the
//! outcome of the load.
//!
//! The read itself is the host's job. What is decided here is that a load
//! is all or nothing: one child that could not be read fails the load, and
//! a load that succeeds holds every child, in listing order.

use vstd::prelude::*;

use crate::entry::{DirectoryEntry, EntryView};
use crate::errors::ErrorKind;
use crate::listing::{arrange, entry_views, Listing};

verus! {

/// The classification of the first child that could not be read, `None`
/// where every child was read.
pub open spec fn first_failure(children: Seq<Result<DirectoryEntry, ErrorKind>>) -> Option<
    ErrorKind,
>
    decreases children.len(),
{
    if children.len() == 0 {
        None
    } else {
        match children[0] {
            Err(kind) => Some(kind),
            Ok(_) => first_failure(children.drop_first()),
        }
    }
}

/// The models of the children that were read, in the order of
/// enumeration. Meant for children without a failure among them.
pub open spec fn children_read(children: Seq<Result<DirectoryEntry, ErrorKind>>) -> Seq<
    EntryView,
> {
    children.map_values(|child: Result<DirectoryEntry, ErrorKind>| child->Ok_0@)
}

/// What a directory read amounts to: the entries in listing order where
/// the directory and every child of it could be read, else the
/// classification of the first failure. Never a part of the entries.
pub open spec fn loaded(
    read: Result<Vec<Result<DirectoryEntry, ErrorKind>>, ErrorKind>,
) -> Result<Seq<EntryView>, ErrorKind> {
    match read {
        Err(kind) => Err(kind),
        Ok(children) => match first_failure(children@) {
            Some(kind) => Err(kind),
            None => Ok(arrange(children_read(children@))),
        },
    }
}

/// The model of the outcome of a load.
pub open spec fn load_outcome(outcome: Result<Listing, ErrorKind>) -> Result<
    Seq<EntryView>,
    ErrorKind,
> {
    match outcome {
        Ok(listing) => Ok(listing@),
        Err(kind) => Err(kind),
    }
}

/// The failure that a scan of `children` from the front meets first is
/// the first failure after the part without failures.
proof fn lemma_first_failure_skips(children: Seq<Result<DirectoryEntry, ErrorKind>>, n: int)
    requires
        0 <= n <= children.len(),
        forall|i: int| 0 <= i < n ==> (#[trigger] children[i]) is Ok,
    ensures
        first_failure(children) == first_failure(children.skip(n)),
    decreases n,
{
    if n > 0 {
        let rest = children.drop_first();
        assert forall|i: int| 0 <= i < n - 1 implies (#[trigger] rest[i]) is Ok by {
            assert(children[i + 1] is Ok);
        }
        lemma_first_failure_skips(rest, n - 1);
        assert(rest.skip(n - 1) =~= children.skip(n));
    } else {
        assert(children.skip(0) =~= children);
    }
}

/// Turns what the host read of a directory into the outcome of the load.
///
/// `read` is the failure to read the directory itself, or what was read of
/// each child in the order of enumeration. The load succeeds only where
/// everything was read; its entries then come in listing order.
pub fn load_items(read: Result<Vec<Result<DirectoryEntry, ErrorKind>>, ErrorKind>) -> (outcome:
    Result<Listing, ErrorKind>)
    ensures
        load_outcome(outcome) == loaded(read),
{
    let children = match read {
        Ok(children) => children,
        Err(kind) => {
            return Err(kind);
        },
    };
    let ghost all = children@;
    let mut entries: Vec<DirectoryEntry> = Vec::new();
    for child in scan: children
        invariant
            scan.seq() == all,
            read matches Ok(given) && given@ == all,
            forall|k: int| 0 <= k < scan.index() ==> (#[trigger] all[k]) is Ok,
            entry_views(entries@) == children_read(all.take(scan.index() as int)),
    {
        let ghost at = scan.index() as int;
        match child {
            Err(kind) => {
                proof {
                    lemma_first_failure_skips(all, at);
                }
                return Err(kind);
            },
            Ok(entry) => {
                entries.push(entry);
                proof {
                    assert(children_read(all.take(at + 1)) =~= children_read(all.take(at)).push(
                        entry@,
                    ));
                }
            },
        }
    }
    proof {
        lemma_first_failure_skips(all, all.len() as int);
        assert(all.take(all.len() as int) =~= all);
    }
    Ok(Listing::from_entries(entries))
}

} // verus!
