//! Collision-safe renaming.
//!
//! Whether a name is taken is known to the filesystem alone, so the search
//! for a free name is a machine that its caller drives: the caller looks up
//! whether the current candidate exists and hands the answer to
//! [`Renamer::step`], until the machine names the destination.
//!
//! What a run of the machine arrives at is given by [`settle`] over the set
//! of names that a directory holds, and each step is bound to it. The
//! lemmas at the end state, over that set, that nothing is overwritten,
//! that the search ends, that a file already in place stays where it is,
//! that no file is lost, and that files with the same date get the names
//! `date.ext`, `date-1.ext`, `date-2.ext` in the order in which they come.

use vstd::prelude::*;
use crate::naming::candidate;
use crate::naming::candidate_name;
use crate::naming::lemma_candidates_differ;
use crate::naming::lower_extension;
use crate::naming::lowered_extension;

verus! {

/// The search for the destination of one file.
#[derive(Clone, Debug, PartialEq, Eq)]
pub struct Renamer {
    /// The name of the file as it is now.
    pub original: String,
    /// The date that the new name begins with.
    pub date: String,
    /// The extension of the new name.
    pub extension: String,
    /// The counter of the candidate that is tried next; zero for the name
    /// without a counter.
    pub counter: u64,
    /// Whether the destination is only to be reported.
    pub dry_run: bool,
}

/// What the caller is to do next.
#[derive(Debug, PartialEq, Eq)]
pub enum Step {
    /// Look up whether the candidate of this state exists, and step again.
    Probe(Renamer),
    /// Rename the file to this name.
    Rename(String),
    /// Report this name as the destination, and change nothing.
    Report(String),
    /// Every counter is in use: give up on this file.
    Exhausted,
}

impl Step {
    /// Whether this step keeps to `outcome`, the name that the search
    /// arrives at in a directory that holds `taken`: a state to probe on
    /// from still arrives there, a destination is that name, and giving up
    /// means that there is none.
    pub open spec fn keeps_to(self, outcome: Option<Seq<char>>, taken: Set<Seq<char>>) -> bool {
        match self {
            Step::Probe(state) => state.outcome(taken) == outcome,
            Step::Rename(to) => outcome == Some(to@),
            Step::Report(to) => outcome == Some(to@),
            Step::Exhausted => outcome is None,
        }
    }
}

impl Renamer {
    /// The name that is tried in this state.
    pub open spec fn candidate_spec(self) -> Seq<char> {
        candidate_name(self.date@, self.extension@, self.counter as nat)
    }

    /// Whether the candidate cannot be used: a file of that name exists and
    /// is not the file that is being renamed.
    pub open spec fn blocked(self, exists: bool) -> bool {
        exists && self.candidate_spec() != self.original@
    }

    /// The state in which the search for `name` begins.
    pub open spec fn begins(self, name: Seq<char>, date: Seq<char>, dry_run: bool) -> bool {
        &&& self.original@ == name
        &&& self.date@ == date
        &&& self.extension@ == lowered_extension(name)
        &&& self.counter == 0
        &&& self.dry_run == dry_run
    }

    /// Whether `next` is the step that follows this state once it is known
    /// whether the candidate exists.
    pub open spec fn steps_to(self, exists: bool, next: Step) -> bool {
        match next {
            Step::Probe(state) => {
                &&& self.blocked(exists)
                &&& self.counter < u64::MAX
                &&& state == (Renamer { counter: (self.counter + 1) as u64, ..self })
            },
            Step::Rename(to) => {
                &&& !self.blocked(exists)
                &&& !self.dry_run
                &&& to@ == self.candidate_spec()
            },
            Step::Report(to) => {
                &&& !self.blocked(exists)
                &&& self.dry_run
                &&& to@ == self.candidate_spec()
            },
            Step::Exhausted => self.blocked(exists) && self.counter == u64::MAX,
        }
    }

    /// The name that a run from this state arrives at in a directory that
    /// holds the names `taken`; `None` where the counters run out.
    pub open spec fn outcome(self, taken: Set<Seq<char>>) -> Option<Seq<char>> {
        match settle(taken, self.original@, self.date@, self.extension@, self.counter as nat) {
            Some(counter) => Some(candidate_name(self.date@, self.extension@, counter)),
            None => None,
        }
    }

    /// Begins the search for the destination of a file. `name` is the name
    /// of the file within its directory, `None` for a path that has none:
    /// there is nothing to rename then, and no search begins.
    pub fn begin(name: Option<&str>, formatted_date: &str, dry_run: bool) -> (r: Option<Renamer>)
        ensures
            name is None <==> r is None,
            r matches Some(state) ==> state.begins(name->0@, formatted_date@, dry_run),
            r matches Some(state) ==> forall|taken: Set<Seq<char>>|
                #[trigger] state.outcome(taken) == destination(taken, name->0@, formatted_date@),
    {
        match name {
            None => None,
            Some(name) => Some(
                Renamer {
                    original: String::from_str(name),
                    date: String::from_str(formatted_date),
                    extension: lower_extension(name),
                    counter: 0,
                    dry_run,
                },
            ),
        }
    }

    /// Writes the name that is tried in this state.
    pub fn candidate(&self) -> (r: String)
        ensures
            r@ == self.candidate_spec(),
    {
        candidate(self.date.as_str(), self.extension.as_str(), self.counter)
    }

    /// Takes the search one step on. `exists` says whether a file of the
    /// candidate's name exists.
    ///
    /// The candidate is the destination unless it belongs to another file.
    /// Then the next counter is tried, up to the largest that a `u64`
    /// holds.
    ///
    /// Whatever directory the answer was looked up in, the step keeps to the
    /// outcome of the search there: probing on leaves it unchanged, a
    /// destination is the outcome, and giving up means that there is none.
    pub fn step(self, exists: bool) -> (r: Step)
        ensures
            self.steps_to(exists, r),
            self.dry_run ==> !(r is Rename),
            forall|taken: Set<Seq<char>>|
                taken.contains(self.candidate_spec()) == exists ==> r.keeps_to(
                    #[trigger] self.outcome(taken),
                    taken,
                ),
    {
        let name = self.candidate();
        if exists && name != self.original {
            if self.counter < u64::MAX {
                Step::Probe(
                    Renamer {
                        original: self.original,
                        date: self.date,
                        extension: self.extension,
                        counter: self.counter + 1,
                        dry_run: self.dry_run,
                    },
                )
            } else {
                Step::Exhausted
            }
        } else if self.dry_run {
            Step::Report(name)
        } else {
            Step::Rename(name)
        }
    }
}

/// The counter at which a search that starts at `counter` stops, in a
/// directory that holds the names `taken`: the first whose candidate is
/// free or is the file itself. `None` where no counter up to the largest
/// will do.
pub open spec fn settle(
    taken: Set<Seq<char>>,
    original: Seq<char>,
    date: Seq<char>,
    extension: Seq<char>,
    counter: nat,
) -> Option<nat>
    decreases u64::MAX - counter,
{
    let name = candidate_name(date, extension, counter);
    if !(taken.contains(name) && name != original) {
        Some(counter)
    } else if counter >= u64::MAX {
        None
    } else {
        settle(taken, original, date, extension, counter + 1)
    }
}

/// The destination of the file `original` with the date `date`, in a
/// directory that holds the names `taken`.
pub open spec fn destination(taken: Set<Seq<char>>, original: Seq<char>, date: Seq<char>) -> Option<
    Seq<char>,
> {
    let extension = lowered_extension(original);
    match settle(taken, original, date, extension, 0) {
        Some(counter) => Some(candidate_name(date, extension, counter)),
        None => None,
    }
}

/// The names in a directory after the file `from` was renamed to `to`.
pub open spec fn renamed(taken: Set<Seq<char>>, from: Seq<char>, to: Seq<char>) -> Set<Seq<char>> {
    taken.remove(from).insert(to)
}

/// The names in a directory after the first `done` files of `originals`
/// were renamed, one after the other, all with the date `date`. A file
/// for which the counters run out is left alone.
pub open spec fn directory_after(
    taken: Set<Seq<char>>,
    originals: Seq<Seq<char>>,
    date: Seq<char>,
    done: nat,
) -> Set<Seq<char>>
    decreases done,
{
    if done == 0 {
        taken
    } else {
        let before = directory_after(taken, originals, date, (done - 1) as nat);
        let file = originals[done - 1];
        match destination(before, file, date) {
            Some(to) => renamed(before, file, to),
            None => before,
        }
    }
}

/// The name that the file at `index` of `originals` is given when its turn
/// comes.
pub open spec fn placed(
    taken: Set<Seq<char>>,
    originals: Seq<Seq<char>>,
    date: Seq<char>,
    index: nat,
) -> Option<Seq<char>> {
    destination(directory_after(taken, originals, date, index), originals[index as int], date)
}

/// A search stops at or after the counter it starts from, and every
/// candidate it passes over belongs to another file.
pub proof fn lemma_settle_passes_taken(
    taken: Set<Seq<char>>,
    original: Seq<char>,
    date: Seq<char>,
    extension: Seq<char>,
    counter: nat,
)
    ensures
        settle(taken, original, date, extension, counter) matches Some(stop) ==> {
            &&& counter <= stop
            &&& forall|k: nat|
                counter <= k < stop ==> taken.contains(
                    #[trigger] candidate_name(date, extension, k),
                ) && candidate_name(date, extension, k) != original
            &&& !taken.contains(candidate_name(date, extension, stop)) || candidate_name(
                date,
                extension,
                stop,
            ) == original
        },
    decreases u64::MAX - counter,
{
    let name = candidate_name(date, extension, counter);
    if taken.contains(name) && name != original && counter < u64::MAX {
        lemma_settle_passes_taken(taken, original, date, extension, counter + 1);
    }
}

/// Nothing is overwritten: the destination of a file is a name that no file
/// in the directory has, or the file's own.
pub proof fn lemma_destination_is_free(taken: Set<Seq<char>>, original: Seq<char>, date: Seq<char>)
    ensures
        destination(taken, original, date) matches Some(to) ==> !taken.contains(to) || to
            == original,
{
    lemma_settle_passes_taken(taken, original, date, lowered_extension(original), 0);
}

/// A search that starts at or before the first usable counter stops there.
proof fn lemma_settle_reaches(
    taken: Set<Seq<char>>,
    original: Seq<char>,
    date: Seq<char>,
    extension: Seq<char>,
    counter: nat,
    stop: nat,
)
    requires
        counter <= stop <= u64::MAX,
        forall|k: nat|
            counter <= k < stop ==> taken.contains(#[trigger] candidate_name(date, extension, k))
                && candidate_name(date, extension, k) != original,
        !taken.contains(candidate_name(date, extension, stop)) || candidate_name(
            date,
            extension,
            stop,
        ) == original,
    ensures
        settle(taken, original, date, extension, counter) == Some(stop),
    decreases stop - counter,
{
    if counter < stop {
        lemma_settle_reaches(taken, original, date, extension, counter + 1, stop);
    }
}

/// Renaming is idempotent: a file that already has the name its turn would
/// give it, with every earlier candidate in use, has itself as destination,
/// and renaming it there leaves the directory as it is.
pub proof fn lemma_file_in_place_stays(
    taken: Set<Seq<char>>,
    original: Seq<char>,
    date: Seq<char>,
    counter: nat,
)
    requires
        counter <= u64::MAX,
        taken.contains(original),
        original == candidate_name(date, lowered_extension(original), counter),
        forall|k: nat|
            k < counter ==> taken.contains(
                #[trigger] candidate_name(date, lowered_extension(original), k),
            ),
    ensures
        destination(taken, original, date) == Some(original),
        renamed(taken, original, original) == taken,
{
    let extension = lowered_extension(original);
    assert forall|k: nat| k < counter implies candidate_name(date, extension, k) != original by {
        lemma_candidates_differ(date, extension, k, counter);
    }
    lemma_settle_reaches(taken, original, date, extension, 0, counter);
    assert(renamed(taken, original, original) =~= taken);
}

/// A directory that holds the candidates of a range of counters holds at
/// least as many names as the range has counters.
proof fn lemma_candidates_fill(
    taken: Set<Seq<char>>,
    date: Seq<char>,
    extension: Seq<char>,
    start: nat,
    stop: nat,
)
    requires
        taken.finite(),
        start <= stop,
        forall|k: nat|
            start <= k < stop ==> taken.contains(#[trigger] candidate_name(date, extension, k)),
    ensures
        taken.len() >= stop - start,
    decreases stop - start,
{
    if start < stop {
        let last = candidate_name(date, extension, (stop - 1) as nat);
        let rest = taken.remove(last);
        assert forall|k: nat| start <= k < stop - 1 implies rest.contains(
            #[trigger] candidate_name(date, extension, k),
        ) by {
            lemma_candidates_differ(date, extension, k, (stop - 1) as nat);
        }
        lemma_candidates_fill(rest, date, extension, start, (stop - 1) as nat);
    }
}

/// A search that finds no name has found every candidate taken, from the
/// counter it starts at to the largest.
proof fn lemma_settle_fails_on_full(
    taken: Set<Seq<char>>,
    original: Seq<char>,
    date: Seq<char>,
    extension: Seq<char>,
    counter: nat,
)
    requires
        counter <= u64::MAX,
        settle(taken, original, date, extension, counter) is None,
    ensures
        forall|k: nat|
            counter <= k <= u64::MAX ==> taken.contains(
                #[trigger] candidate_name(date, extension, k),
            ),
    decreases u64::MAX - counter,
{
    if counter < u64::MAX {
        lemma_settle_fails_on_full(taken, original, date, extension, counter + 1);
    }
}

/// The search ends: in a directory of no more names than a counter can
/// count, every file has a destination, and the counter of the destination
/// is at most the number of names in the directory.
pub proof fn lemma_destination_exists(taken: Set<Seq<char>>, original: Seq<char>, date: Seq<char>)
    requires
        taken.finite(),
        taken.len() <= u64::MAX,
    ensures
        destination(taken, original, date) is Some,
        settle(taken, original, date, lowered_extension(original), 0) matches Some(stop)
            && stop <= taken.len(),
{
    let extension = lowered_extension(original);
    match settle(taken, original, date, extension, 0) {
        None => {
            lemma_settle_fails_on_full(taken, original, date, extension, 0);
            lemma_candidates_fill(taken, date, extension, 0, (u64::MAX + 1) as nat);
        },
        Some(stop) => {
            lemma_settle_passes_taken(taken, original, date, extension, 0);
            lemma_candidates_fill(taken, date, extension, 0, stop);
        },
    }
}

/// Whether `originals` are files of one directory that collide: distinct
/// files that the directory holds, all with the extension `extension` once
/// it is in lower case, while none of the names that they are to get is in
/// use yet.
pub open spec fn colliding(
    taken: Set<Seq<char>>,
    originals: Seq<Seq<char>>,
    date: Seq<char>,
    extension: Seq<char>,
) -> bool {
    &&& originals.len() <= u64::MAX
    &&& forall|i: int|
        0 <= i < originals.len() ==> taken.contains(#[trigger] originals[i]) && lowered_extension(
            originals[i],
        ) == extension
    &&& forall|i: int, j: int|
        0 <= i < j < originals.len() ==> #[trigger] originals[i] != #[trigger] originals[j]
    &&& forall|k: nat|
        k < originals.len() ==> !taken.contains(#[trigger] candidate_name(date, extension, k))
}

/// What holds of the directory once the first `done` colliding files were
/// renamed: they are at their names, the later names are still free and
/// the later files still where they were.
spec fn renamed_in_order(
    taken: Set<Seq<char>>,
    originals: Seq<Seq<char>>,
    date: Seq<char>,
    extension: Seq<char>,
    done: nat,
) -> bool {
    let now = directory_after(taken, originals, date, done);
    &&& forall|k: nat| k < done ==> now.contains(#[trigger] candidate_name(date, extension, k))
    &&& forall|k: nat|
        done <= k < originals.len() ==> !now.contains(#[trigger] candidate_name(date, extension, k))
    &&& forall|i: int| done <= i < originals.len() ==> now.contains(#[trigger] originals[i])
    &&& forall|i: nat|
        i < done ==> #[trigger] placed(taken, originals, date, i) == Some(
            candidate_name(date, extension, i),
        )
}

proof fn lemma_renamed_in_order(
    taken: Set<Seq<char>>,
    originals: Seq<Seq<char>>,
    date: Seq<char>,
    extension: Seq<char>,
    done: nat,
)
    requires
        colliding(taken, originals, date, extension),
        done <= originals.len(),
    ensures
        renamed_in_order(taken, originals, date, extension, done),
    decreases done,
{
    if done > 0 {
        let turn = (done - 1) as nat;
        lemma_renamed_in_order(taken, originals, date, extension, turn);
        let before = directory_after(taken, originals, date, turn);
        let file = originals[turn as int];
        let to = candidate_name(date, extension, turn);
        assert(taken.contains(file));
        assert forall|k: nat| k < turn implies before.contains(
            #[trigger] candidate_name(date, extension, k),
        ) && candidate_name(date, extension, k) != file by {
            assert(!taken.contains(candidate_name(date, extension, k)));
        }
        lemma_settle_reaches(before, file, date, extension, 0, turn);
        assert(placed(taken, originals, date, turn) == Some(to));
        let now = directory_after(taken, originals, date, done);
        assert(now == renamed(before, file, to));
        assert forall|k: nat| k < done implies now.contains(
            #[trigger] candidate_name(date, extension, k),
        ) by {
            assert(!taken.contains(candidate_name(date, extension, k)));
        }
        assert forall|k: nat| done <= k < originals.len() implies !now.contains(
            #[trigger] candidate_name(date, extension, k),
        ) by {
            lemma_candidates_differ(date, extension, k, turn);
        }
        assert forall|i: int| done <= i < originals.len() implies now.contains(
            #[trigger] originals[i],
        ) by {
            assert(originals[turn as int] != originals[i]);
        }
    }
}

/// Uniqueness: colliding files that are renamed one after the other get
/// the names `date.ext`, `date-1.ext`, `date-2.ext` and so on in the order
/// in which they come. These names differ from one another, so every file
/// ends at a path of its own, and all of them are in the directory at the
/// end.
pub proof fn lemma_colliding_files_are_numbered(
    taken: Set<Seq<char>>,
    originals: Seq<Seq<char>>,
    date: Seq<char>,
    extension: Seq<char>,
)
    requires
        colliding(taken, originals, date, extension),
    ensures
        forall|i: nat|
            i < originals.len() ==> #[trigger] placed(taken, originals, date, i) == Some(
                candidate_name(date, extension, i),
            ),
        forall|i: nat, j: nat|
            i != j ==> #[trigger] candidate_name(date, extension, i) != #[trigger] candidate_name(
                date,
                extension,
                j,
            ),
        forall|i: nat|
            i < originals.len() ==> directory_after(
                taken,
                originals,
                date,
                originals.len(),
            ).contains(#[trigger] candidate_name(date, extension, i)),
{
    lemma_renamed_in_order(taken, originals, date, extension, originals.len());
    assert forall|i: nat, j: nat| i != j implies #[trigger] candidate_name(date, extension, i)
        != #[trigger] candidate_name(date, extension, j) by {
        lemma_candidates_differ(date, extension, i, j);
    }
}

/// Whether `originals` are distinct files that the directory holds.
pub open spec fn distinct_files(taken: Set<Seq<char>>, originals: Seq<Seq<char>>) -> bool {
    &&& forall|i: int| 0 <= i < originals.len() ==> taken.contains(#[trigger] originals[i])
    &&& forall|i: int, j: int|
        0 <= i < j < originals.len() ==> #[trigger] originals[i] != #[trigger] originals[j]
}

/// Whether `name` is none of the first `done` files of `originals`.
pub open spec fn untouched(originals: Seq<Seq<char>>, done: nat, name: Seq<char>) -> bool {
    forall|i: int| 0 <= i < done ==> #[trigger] originals[i] != name
}

/// No file is lost: whatever the directory holds, renaming distinct files
/// of it one after the other leaves it with as many names as it had, and
/// every file that was not renamed keeps its name. So each renamed file
/// ends at a name of its own.
pub proof fn lemma_no_file_is_lost(
    taken: Set<Seq<char>>,
    originals: Seq<Seq<char>>,
    date: Seq<char>,
    done: nat,
)
    requires
        taken.finite(),
        distinct_files(taken, originals),
        done <= originals.len(),
    ensures
        directory_after(taken, originals, date, done).finite(),
        directory_after(taken, originals, date, done).len() == taken.len(),
        forall|name: Seq<char>|
            taken.contains(name) && untouched(originals, done, name) ==> #[trigger] directory_after(
                taken,
                originals,
                date,
                done,
            ).contains(name),
    decreases done,
{
    if done > 0 {
        let turn = (done - 1) as nat;
        lemma_no_file_is_lost(taken, originals, date, turn);
        let before = directory_after(taken, originals, date, turn);
        let now = directory_after(taken, originals, date, done);
        let file = originals[turn as int];
        assert(untouched(originals, turn, file)) by {
            assert forall|i: int| 0 <= i < turn implies #[trigger] originals[i] != file by {
                assert(originals[i] != originals[turn as int]);
            }
        }
        assert(before.contains(file));
        lemma_destination_is_free(before, file, date);
        match destination(before, file, date) {
            Some(to) => {
                if to == file {
                    assert(now =~= before);
                }
            },
            None => {},
        }
        assert forall|name: Seq<char>|
            taken.contains(name) && untouched(originals, done, name) implies now.contains(
            name,
        ) by {
            assert(originals[turn as int] != name);
            assert(untouched(originals, turn, name));
            assert(before.contains(name));
        }
    }
}

} // verus!
