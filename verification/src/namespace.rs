//! A model of the one thing that sessions share: the names present in the
//! target directory. Sessions run side by side, and each of their steps is
//! one move of the model. The file system answers an exclusive create in one
//! step: the name is either there, and nothing changes, or it is not, and
//! from then on it is.

use vstd::prelude::*;

use crate::capture::{Event, Session};
use crate::destination::{file_name, lemma_file_name_injective, Destination};

verus! {

/// The directory and the sessions at work in it.
pub struct World {
    /// The names of the files that exist.
    pub files: Set<Seq<char>>,
    /// The sessions, each in its current state.
    pub sessions: Seq<Session>,
}

/// One step of one session.
pub struct Move {
    /// Which session takes the step.
    pub session: int,
    /// What its caller reports.
    pub event: Event,
    /// Whether the removal of an empty file, if the step asks for one, fails.
    pub removal_fails: bool,
}

/// Whether `m` can happen in `w`: the session exists and waits on such an
/// event, and a report on an exclusive create tells the truth about the
/// directory.
pub open spec fn admissible(w: World, m: Move) -> bool {
    &&& 0 <= m.session < w.sessions.len()
    &&& w.sessions[m.session].expects(m.event)
    &&& match (w.sessions[m.session], m.event) {
        (Session::Allocating(d), Event::Created) => !w.files.contains(d.name()),
        (Session::Allocating(d), Event::AlreadyExists) => w.files.contains(d.name()),
        _ => true,
    }
}

/// The directory after a session in state `s` has taken the step `m`.
pub open spec fn files_after(files: Set<Seq<char>>, s: Session, m: Move) -> Set<Seq<char>> {
    match (s, m.event) {
        (Session::Allocating(d), Event::Created) => files.insert(d.name()),
        (Session::Copying(d), Event::Copied(bytes)) => if bytes == 0 && !m.removal_fails {
            files.remove(d.name())
        } else {
            files
        },
        _ => files,
    }
}

/// The world after the move `m`.
pub open spec fn apply(w: World, m: Move) -> World {
    let s = w.sessions[m.session];
    World {
        files: files_after(w.files, s, m),
        sessions: w.sessions.update(m.session, s.next(m.event)),
    }
}

/// The world after the moves `moves`, taken in order.
pub open spec fn run(w: World, moves: Seq<Move>) -> World
    decreases moves.len(),
{
    if moves.len() == 0 {
        w
    } else {
        apply(run(w, moves.drop_last()), moves.last())
    }
}

/// Whether each of `moves` can happen in the world that the moves before it
/// lead to.
pub open spec fn valid(w: World, moves: Seq<Move>) -> bool
    decreases moves.len(),
{
    if moves.len() == 0 {
        true
    } else {
        valid(w, moves.drop_last()) && admissible(run(w, moves.drop_last()), moves.last())
    }
}

/// Whether the files that sessions own exist and no two sessions own a file
/// of the same name.
pub open spec fn owners_apart(w: World) -> bool {
    &&& forall|i: int|
        0 <= i < w.sessions.len() ==> (#[trigger] w.sessions[i].owns() matches Some(d)
            ==> w.files.contains(d.name()))
    &&& forall|i: int, j: int|
        0 <= i < w.sessions.len() && 0 <= j < w.sessions.len() && i != j ==> (
        #[trigger] w.sessions[i].owns() matches Some(a) ==> (
        #[trigger] w.sessions[j].owns() matches Some(b) ==> a.name() != b.name()))
}

/// One move keeps owners apart.
pub proof fn lemma_move_keeps_owners_apart(w: World, m: Move)
    requires
        owners_apart(w),
        admissible(w, m),
    ensures
        owners_apart(apply(w, m)),
        apply(w, m).sessions.len() == w.sessions.len(),
{
    let after = apply(w, m);
    let s = w.sessions[m.session];
    assert forall|i: int| 0 <= i < after.sessions.len() implies (
    #[trigger] after.sessions[i].owns() matches Some(d) ==> after.files.contains(d.name())) by {
        if i != m.session {
            assert(after.sessions[i] == w.sessions[i]);
            if let Some(d) = w.sessions[i].owns() {
                assert(w.files.contains(d.name()));
                if let Some(mine) = s.owns() {
                    assert(mine.name() != d.name());
                }
            }
        } else {
            assert(s.owns() is Some ==> w.files.contains(s.owns()->0.name()));
        }
    }
    assert forall|i: int, j: int|
        0 <= i < after.sessions.len() && 0 <= j < after.sessions.len() && i != j implies (
    #[trigger] after.sessions[i].owns() matches Some(a) ==> (
    #[trigger] after.sessions[j].owns() matches Some(b) ==> a.name() != b.name())) by {
        if i != m.session && j != m.session {
            assert(after.sessions[i] == w.sessions[i]);
            assert(after.sessions[j] == w.sessions[j]);
        } else if i == m.session {
            assert(after.sessions[j] == w.sessions[j]);
            if let Some(b) = w.sessions[j].owns() {
                assert(w.files.contains(b.name()));
                assert(s.owns() is Some ==> s.owns()->0.name() != b.name());
            }
        } else {
            assert(after.sessions[i] == w.sessions[i]);
            if let Some(a) = w.sessions[i].owns() {
                assert(w.files.contains(a.name()));
                assert(s.owns() is Some ==> a.name() != s.owns()->0.name());
            }
        }
    }
}

/// However the steps of the sessions interleave, no two of them ever hold a
/// file of the same name, and the file that a session holds exists.
pub proof fn lemma_owners_stay_apart(w: World, moves: Seq<Move>)
    requires
        owners_apart(w),
        valid(w, moves),
    ensures
        owners_apart(run(w, moves)),
        run(w, moves).sessions.len() == w.sessions.len(),
    decreases moves.len(),
{
    if moves.len() > 0 {
        lemma_owners_stay_apart(w, moves.drop_last());
        lemma_move_keeps_owners_apart(run(w, moves.drop_last()), moves.last());
    }
}

/// Sessions that start without a file never come to share a path: whatever
/// the interleaving, two sessions that hold a file hold different ones.
pub proof fn lemma_no_shared_path(w: World, moves: Seq<Move>, i: int, j: int)
    requires
        forall|k: int| 0 <= k < w.sessions.len() ==> (#[trigger] w.sessions[k].owns()) is None,
        valid(w, moves),
        0 <= i < w.sessions.len(),
        0 <= j < w.sessions.len(),
        i != j,
        run(w, moves).sessions[i].owns() is Some,
        run(w, moves).sessions[j].owns() is Some,
    ensures
        run(w, moves).sessions[i].owns()->0.name() != run(w, moves).sessions[j].owns()->0.name(),
        run(w, moves).sessions[i].owns()->0 != run(w, moves).sessions[j].owns()->0,
{
    lemma_owners_stay_apart(w, moves);
}

/// How many of `sessions` are copying into a file of their own.
pub open spec fn copying_count(sessions: Seq<Session>) -> nat
    decreases sessions.len(),
{
    if sessions.len() == 0 {
        0
    } else {
        copying_count(sessions.drop_last()) + if sessions.last() is Copying {
            1nat
        } else {
            0nat
        }
    }
}

/// Whether every one of `moves` reports on an exclusive create and nothing
/// else: the sessions allocate, and none gets as far as the end of its copy.
pub open spec fn only_allocates(moves: Seq<Move>) -> bool {
    forall|k: int|
        0 <= k < moves.len() ==> ((#[trigger] moves[k]).event is Created
            || moves[k].event is AlreadyExists)
}

/// Whether all of `moves` are steps of the session `i`.
pub open spec fn only_session(moves: Seq<Move>, i: int) -> bool {
    forall|k: int| 0 <= k < moves.len() ==> (#[trigger] moves[k]).session == i
}

/// The destination of the second `t` with the suffix `k`.
pub open spec fn slot(t: u64, k: nat) -> Destination {
    Destination { timestamp: t, suffix: k as u64 }
}

/// Whether `w` is what sessions of the one second `t` make of a directory
/// that held no file of that second: the files of that second are those with
/// the suffixes below the number of sessions that have created one, each is
/// some session's, and no session looks beyond them.
pub open spec fn packed(w: World, t: u64) -> bool {
    let m = copying_count(w.sessions);
    &&& w.sessions.len() <= u64::MAX
    &&& m <= w.sessions.len()
    &&& forall|i: int|
        0 <= i < w.sessions.len() ==> match #[trigger] w.sessions[i] {
            Session::Allocating(d) => d.timestamp == t && d.suffix <= m,
            Session::Copying(d) => d.timestamp == t && d.suffix < m,
            _ => false,
        }
    &&& forall|k: nat| w.files.contains(#[trigger] file_name(t as nat, k)) <==> k < m
    &&& forall|k: nat|
        k < m ==> exists|i: int|
            0 <= i < w.sessions.len() && #[trigger] w.sessions[i] == Session::Copying(
                #[trigger] slot(t, k),
            )
}

/// The count is at most the number of sessions, and equal to it exactly when
/// all of them are copying.
pub proof fn lemma_copying_count_bounds(sessions: Seq<Session>)
    ensures
        copying_count(sessions) <= sessions.len(),
        (forall|i: int| 0 <= i < sessions.len() ==> #[trigger] sessions[i] is Copying)
            ==> copying_count(sessions) == sessions.len(),
        (forall|i: int| 0 <= i < sessions.len() ==> !(#[trigger] sessions[i] is Copying))
            ==> copying_count(sessions) == 0,
    decreases sessions.len(),
{
    if sessions.len() > 0 {
        let front = sessions.drop_last();
        lemma_copying_count_bounds(front);
        assert(forall|i: int| 0 <= i < front.len() ==> front[i] == sessions[i]);
    }
}

/// Replacing one session changes the count by what that session contributes.
pub proof fn lemma_copying_count_update(sessions: Seq<Session>, i: int, s: Session)
    requires
        0 <= i < sessions.len(),
    ensures
        copying_count(sessions.update(i, s)) + (if sessions[i] is Copying {
            1nat
        } else {
            0nat
        }) == copying_count(sessions) + (if s is Copying {
            1nat
        } else {
            0nat
        }),
    decreases sessions.len(),
{
    let updated = sessions.update(i, s);
    if i == sessions.len() - 1 {
        assert(updated.drop_last() =~= sessions.drop_last());
    } else {
        lemma_copying_count_update(sessions.drop_last(), i, s);
        assert(updated.drop_last() =~= sessions.drop_last().update(i, s));
    }
}

/// One report on an exclusive create keeps the world packed.
pub proof fn lemma_move_keeps_packed(w: World, t: u64, m: Move)
    requires
        packed(w, t),
        admissible(w, m),
        m.event is Created || m.event is AlreadyExists,
    ensures
        packed(apply(w, m), t),
        apply(w, m).sessions.len() == w.sessions.len(),
{
    let after = apply(w, m);
    let before = copying_count(w.sessions);
    let s = w.sessions[m.session];
    let d = s->Allocating_0;
    assert(s is Allocating);
    assert(d.name() == file_name(t as nat, d.suffix as nat));
    lemma_copying_count_update(w.sessions, m.session, s.next(m.event));
    lemma_copying_count_bounds(after.sessions);
    if m.event is AlreadyExists {
        assert(d.suffix < before);
        assert(copying_count(after.sessions) == before);
        assert forall|k: nat| k < before implies exists|i: int|
            0 <= i < after.sessions.len() && #[trigger] after.sessions[i] == Session::Copying(
                #[trigger] slot(t, k),
            ) by {
            let i = choose|i: int|
                0 <= i < w.sessions.len() && #[trigger] w.sessions[i] == Session::Copying(
                    slot(t, k),
                );
            assert(after.sessions[i] == Session::Copying(slot(t, k)));
        }
    } else {
        assert(d.suffix == before);
        assert(copying_count(after.sessions) == before + 1);
        assert forall|k: nat|
            after.files.contains(#[trigger] file_name(t as nat, k)) <==> k < before + 1 by {
            if k != before && file_name(t as nat, k) == file_name(t as nat, before) {
                lemma_file_name_injective(t as nat, k, t as nat, before);
            }
        }
        assert forall|k: nat| k < before + 1 implies exists|i: int|
            0 <= i < after.sessions.len() && #[trigger] after.sessions[i] == Session::Copying(
                #[trigger] slot(t, k),
            ) by {
            if k < before {
                let i = choose|i: int|
                    0 <= i < w.sessions.len() && #[trigger] w.sessions[i] == Session::Copying(
                        slot(t, k),
                    );
                assert(after.sessions[i] == Session::Copying(slot(t, k)));
            } else {
                assert(slot(t, k) == d);
                assert(after.sessions[m.session] == Session::Copying(slot(t, k)));
            }
        }
    }
}

/// Any interleaving of allocations keeps the world packed.
pub proof fn lemma_allocations_stay_packed(w: World, t: u64, moves: Seq<Move>)
    requires
        packed(w, t),
        valid(w, moves),
        only_allocates(moves),
    ensures
        packed(run(w, moves), t),
        run(w, moves).sessions.len() == w.sessions.len(),
    decreases moves.len(),
{
    if moves.len() > 0 {
        let front = moves.drop_last();
        assert(forall|k: int| 0 <= k < front.len() ==> front[k] == moves[k]);
        lemma_allocations_stay_packed(w, t, front);
        lemma_move_keeps_packed(run(w, front), t, moves.last());
    }
}

/// Sessions that all start in the second `t`, in a directory that holds no
/// file of that second, take the names of that second in order whatever the
/// interleaving: once `m` of them have created their file, the files are
/// those with the suffixes 0 to `m - 1`, each held by one session, and no
/// two sessions hold the same. When all have created theirs, `m` is their
/// number. The directory holds what it held before and those files, and
/// nothing else.
pub proof fn lemma_same_second_names(w: World, t: u64, moves: Seq<Move>)
    requires
        w.sessions.len() <= u64::MAX,
        forall|i: int|
            0 <= i < w.sessions.len() ==> #[trigger] w.sessions[i] == Session::Allocating(
                slot(t, 0),
            ),
        forall|k: nat| !w.files.contains(#[trigger] file_name(t as nat, k)),
        valid(w, moves),
        only_allocates(moves),
    ensures
        run(w, moves).sessions.len() == w.sessions.len(),
        forall|k: nat|
            k < copying_count(run(w, moves).sessions) ==> exists|i: int|
                0 <= i < w.sessions.len() && #[trigger] run(w, moves).sessions[i]
                    == Session::Copying(#[trigger] slot(t, k)),
        forall|i: int|
            0 <= i < w.sessions.len() ==> (#[trigger] run(w, moves).sessions[i] matches Session::Copying(d)
                ==> d.timestamp == t && d.suffix < copying_count(run(w, moves).sessions)),
        forall|i: int, j: int|
            0 <= i < w.sessions.len() && 0 <= j < w.sessions.len() && i != j ==> (
            #[trigger] run(w, moves).sessions[i] matches Session::Copying(a) ==> (
            #[trigger] run(w, moves).sessions[j] matches Session::Copying(b) ==> a != b && a.name()
                != b.name())),
        forall|k: nat|
            run(w, moves).files.contains(#[trigger] file_name(t as nat, k)) <==> k < copying_count(
                run(w, moves).sessions,
            ),
        (forall|i: int| 0 <= i < w.sessions.len() ==> #[trigger] run(w, moves).sessions[i] is Copying)
            ==> copying_count(run(w, moves).sessions) == w.sessions.len(),
        forall|name: Seq<char>| #[trigger]
            run(w, moves).files.contains(name) <==> w.files.contains(name) || exists|k: nat|
                k < copying_count(run(w, moves).sessions) && name == #[trigger] file_name(
                    t as nat,
                    k,
                ),
{
    lemma_copying_count_bounds(w.sessions);
    assert(packed(w, t));
    lemma_allocations_add_only_their_names(w, t, moves);
    assert(owners_apart(w));
    lemma_allocations_stay_packed(w, t, moves);
    lemma_owners_stay_apart(w, moves);
    let e = run(w, moves);
    lemma_copying_count_bounds(e.sessions);
    assert forall|i: int, j: int|
        0 <= i < w.sessions.len() && 0 <= j < w.sessions.len() && i != j implies (
    #[trigger] e.sessions[i] matches Session::Copying(a) ==> (
    #[trigger] e.sessions[j] matches Session::Copying(b) ==> a != b && a.name() != b.name())) by {
        assert(e.sessions[i] is Copying ==> e.sessions[i].owns() is Some);
        assert(e.sessions[j] is Copying ==> e.sessions[j].owns() is Some);
    }
}

/// Whether `w` is where the session `i` can be when it started on the first
/// name of the second `t` in the directory `files`, which held that name
/// and not the one with the suffix 1, and only it has moved since.
pub open spec fn restarted(files: Set<Seq<char>>, w: World, i: int, t: u64) -> bool {
    ||| w.sessions[i] == Session::Allocating(slot(t, 0)) && w.files == files
    ||| w.sessions[i] == Session::Allocating(slot(t, 1)) && w.files == files
    ||| w.sessions[i] == Session::Copying(slot(t, 1)) && w.files == files.insert(
        file_name(t as nat, 1),
    )
}

/// An allocation in a second whose first file exists, and whose second file
/// does not, creates the file with the suffix 1 and leaves the first alone:
/// while only that session moves, the first file stays, and once the session
/// has its file, it is the one with the suffix 1 and the only change to the
/// directory.
pub proof fn lemma_restart_takes_next_name(w: World, t: u64, i: int, moves: Seq<Move>)
    requires
        0 <= i < w.sessions.len(),
        w.sessions[i] == Session::Allocating(slot(t, 0)),
        w.files.contains(file_name(t as nat, 0)),
        !w.files.contains(file_name(t as nat, 1)),
        valid(w, moves),
        only_allocates(moves),
        only_session(moves, i),
    ensures
        restarted(w.files, run(w, moves), i, t),
        run(w, moves).files.contains(file_name(t as nat, 0)),
        run(w, moves).sessions[i] matches Session::Copying(d) ==> d == slot(t, 1) && run(
            w,
            moves,
        ).files == w.files.insert(file_name(t as nat, 1)),
        run(w, moves).sessions.len() == w.sessions.len(),
    decreases moves.len(),
{
    if moves.len() > 0 {
        let front = moves.drop_last();
        assert(forall|k: int| 0 <= k < front.len() ==> front[k] == moves[k]);
        lemma_restart_takes_next_name(w, t, i, front);
        let m = moves.last();
        assert(m.session == i);
        assert(slot(t, 0).name() == file_name(t as nat, 0));
        assert(slot(t, 1).name() == file_name(t as nat, 1));
    }
}

/// Whether `w` is where the session `i` can be when it started on the first
/// name of the second `t` in the directory `files` and only it has moved
/// since: every name that it passed over is taken, and the directory has
/// changed by the file that it created, if it has created one.
pub open spec fn scanned(files: Set<Seq<char>>, w: World, i: int, t: u64) -> bool {
    match w.sessions[i] {
        Session::Allocating(d) => {
            &&& d.timestamp == t
            &&& w.files == files
            &&& forall|k: nat| k < d.suffix ==> files.contains(#[trigger] file_name(t as nat, k))
        },
        Session::Copying(d) => {
            &&& d.timestamp == t
            &&& !files.contains(d.name())
            &&& w.files == files.insert(d.name())
            &&& forall|k: nat| k < d.suffix ==> files.contains(#[trigger] file_name(t as nat, k))
        },
        Session::Failed => {
            &&& w.files == files
            &&& forall|k: nat| k <= u64::MAX ==> files.contains(#[trigger] file_name(t as nat, k))
        },
        _ => false,
    }
}

/// An allocation that no other session disturbs takes the first free name
/// of its second: the file that it creates did not exist, every name with a
/// smaller suffix did, and the new file is the only change to the directory.
/// It fails only when every name of the second is taken.
pub proof fn lemma_allocation_takes_first_free_name(w: World, t: u64, i: int, moves: Seq<Move>)
    requires
        0 <= i < w.sessions.len(),
        w.sessions[i] == Session::Allocating(slot(t, 0)),
        valid(w, moves),
        only_allocates(moves),
        only_session(moves, i),
    ensures
        scanned(w.files, run(w, moves), i, t),
        w.files.subset_of(run(w, moves).files),
        run(w, moves).sessions.len() == w.sessions.len(),
    decreases moves.len(),
{
    if moves.len() > 0 {
        let front = moves.drop_last();
        assert(forall|k: int| 0 <= k < front.len() ==> front[k] == moves[k]);
        lemma_allocation_takes_first_free_name(w, t, i, front);
        let m = moves.last();
        assert(m.session == i);
        let before = run(w, front);
        if let Session::Allocating(d) = before.sessions[i] {
            assert(d.name() == file_name(t as nat, d.suffix as nat));
            if m.event is AlreadyExists {
                assert forall|k: nat| k <= d.suffix implies w.files.contains(
                    #[trigger] file_name(t as nat, k),
                ) by {
                    if k == d.suffix {
                    }
                }
            }
        }
    }
}

/// A transfer that brought nothing leaves no file behind: once the removal
/// that the session asks for has been done, the name is free again, and the
/// files of the other sessions are untouched.
pub proof fn lemma_empty_transfer_leaves_no_file(w: World, m: Move)
    requires
        owners_apart(w),
        admissible(w, m),
        w.sessions[m.session] is Copying,
        m.event == Event::Copied(0),
        !m.removal_fails,
    ensures
        apply(w, m).sessions[m.session] == Session::Deleted(w.sessions[m.session]->Copying_0),
        !apply(w, m).files.contains(w.sessions[m.session]->Copying_0.name()),
        apply(w, m).files == w.files.remove(w.sessions[m.session]->Copying_0.name()),
        owners_apart(apply(w, m)),
{
    lemma_move_keeps_owners_apart(w, m);
}

/// A transfer that brought something keeps its file: the session ends
/// holding it, and the directory is as it was.
pub proof fn lemma_transfer_keeps_its_file(w: World, m: Move, bytes: u64)
    requires
        owners_apart(w),
        admissible(w, m),
        w.sessions[m.session] is Copying,
        m.event == Event::Copied(bytes),
        bytes > 0,
    ensures
        apply(w, m).sessions[m.session] == Session::Kept(
            w.sessions[m.session]->Copying_0,
            bytes,
        ),
        apply(w, m).files.contains(w.sessions[m.session]->Copying_0.name()),
        apply(w, m).files == w.files,
{
    assert(w.sessions[m.session].owns() is Some);
}

/// Allocations add the names that they create and nothing else: from a
/// packed world on, the directory keeps what it held, and whatever it holds
/// more is a name of the second `t` with a suffix below the number of
/// sessions that have created their file.
pub proof fn lemma_allocations_add_only_their_names(w: World, t: u64, moves: Seq<Move>)
    requires
        packed(w, t),
        valid(w, moves),
        only_allocates(moves),
    ensures
        w.files.subset_of(run(w, moves).files),
        forall|name: Seq<char>| #[trigger]
            run(w, moves).files.contains(name) ==> w.files.contains(name) || exists|k: nat|
                k < copying_count(run(w, moves).sessions) && name == #[trigger] file_name(
                    t as nat,
                    k,
                ),
    decreases moves.len(),
{
    if moves.len() > 0 {
        let front = moves.drop_last();
        let m = moves.last();
        assert(forall|k: int| 0 <= k < front.len() ==> front[k] == moves[k]);
        lemma_allocations_add_only_their_names(w, t, front);
        lemma_allocations_stay_packed(w, t, front);
        let before = run(w, front);
        let after = run(w, moves);
        lemma_move_keeps_packed(before, t, m);
        let count = copying_count(after.sessions);
        assert forall|name: Seq<char>| #[trigger] after.files.contains(name) implies w.files.contains(
            name,
        ) || exists|k: nat| k < count && name == #[trigger] file_name(t as nat, k) by {
            if before.files.contains(name) {
                if !w.files.contains(name) {
                    let k = choose|k: nat|
                        k < copying_count(before.sessions) && name == #[trigger] file_name(
                            t as nat,
                            k,
                        );
                    assert(after.files.contains(file_name(t as nat, k)));
                    assert(k < count);
                }
            } else {
                let d = before.sessions[m.session]->Allocating_0;
                assert(before.sessions[m.session] is Allocating);
                assert(name == d.name());
                assert(after.sessions[m.session] == Session::Copying(d));
                assert(d.suffix < count);
                assert(name == file_name(t as nat, d.suffix as nat));
            }
        }
    }
}

/// Whether `w` is where the session `i` can be when it started on the first
/// name of the second `t` in the directory `files` and only it has moved
/// since, up to its end. While it allocates or copies, the world is as
/// `scanned` says. A session that kept its file has added that one file. One
/// that found its transfer empty has added nothing, or its empty file where
/// the removal failed. One that failed has added nothing, or the one file
/// that it had begun.
pub open spec fn settled(files: Set<Seq<char>>, w: World, i: int, t: u64) -> bool {
    match w.sessions[i] {
        Session::Allocating(_) => scanned(files, w, i, t),
        Session::Copying(_) => scanned(files, w, i, t),
        Session::Kept(d, _) => {
            &&& d.timestamp == t
            &&& !files.contains(d.name())
            &&& w.files == files.insert(d.name())
        },
        Session::Deleted(d) => {
            &&& d.timestamp == t
            &&& !files.contains(d.name())
            &&& (w.files == files || w.files == files.insert(d.name()))
        },
        Session::Failed => w.files == files || exists|k: nat|
            !files.contains(#[trigger] file_name(t as nat, k)) && w.files == files.insert(
                file_name(t as nat, k),
            ),
        _ => false,
    }
}

/// A session that saves and that no other session disturbs leaves at most
/// one file more than it found, under a name that was free: exactly one when
/// it keeps what it received, none when nothing arrived and the removal
/// succeeded.
pub proof fn lemma_lone_session_leaves_one_file(w: World, t: u64, i: int, moves: Seq<Move>)
    requires
        0 <= i < w.sessions.len(),
        w.sessions[i] == Session::Allocating(slot(t, 0)),
        valid(w, moves),
        only_session(moves, i),
    ensures
        settled(w.files, run(w, moves), i, t),
        w.files.subset_of(run(w, moves).files),
        run(w, moves).sessions.len() == w.sessions.len(),
    decreases moves.len(),
{
    if moves.len() > 0 {
        let front = moves.drop_last();
        assert(forall|k: int| 0 <= k < front.len() ==> front[k] == moves[k]);
        lemma_lone_session_leaves_one_file(w, t, i, front);
        let m = moves.last();
        assert(m.session == i);
        let before = run(w, front);
        let after = run(w, moves);
        match before.sessions[i] {
            Session::Allocating(d) => {
                assert(d.name() == file_name(t as nat, d.suffix as nat));
                if m.event is AlreadyExists {
                    assert forall|k: nat| k <= d.suffix implies w.files.contains(
                        #[trigger] file_name(t as nat, k),
                    ) by {
                        if k == d.suffix {
                        }
                    }
                }
            },
            Session::Copying(d) => {
                assert(d.name() == file_name(t as nat, d.suffix as nat));
                assert(w.files.insert(d.name()).remove(d.name()) =~= w.files);
            },
            _ => {},
        }
    }
}

} // verus!
