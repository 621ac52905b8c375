//! Sessions do not reach into one another: a session's state follows from
//! its own events, and a session that discards leaves no trace in the
//! directory that the others share.

use vstd::prelude::*;

use crate::capture::{Command, Event, Session};
use crate::namespace::{
    admissible, apply, lemma_lone_session_leaves_one_file, only_session, run, slot, valid, Move,
    World,
};

verus! {

/// Whether a session in state `s` is one that discards, ended or not, or has
/// failed: it holds no file and will never ask for one.
pub open spec fn fileless(s: Session) -> bool {
    s is Discarding || s is Discarded || s is Failed
}

/// The state that `s` reaches on `events`, taken in order.
pub open spec fn replay(s: Session, events: Seq<Event>) -> Session
    decreases events.len(),
{
    if events.len() == 0 {
        s
    } else {
        replay(s, events.drop_last()).next(events.last())
    }
}

/// The events of the session `i` among `moves`, in order.
pub open spec fn reports_to(moves: Seq<Move>, i: int) -> Seq<Event>
    decreases moves.len(),
{
    if moves.len() == 0 {
        Seq::empty()
    } else if moves.last().session == i {
        reports_to(moves.drop_last(), i).push(moves.last().event)
    } else {
        reports_to(moves.drop_last(), i)
    }
}

/// What is left of `moves` without the steps of the session `i`.
pub open spec fn without(moves: Seq<Move>, i: int) -> Seq<Move>
    decreases moves.len(),
{
    if moves.len() == 0 {
        Seq::empty()
    } else if moves.last().session == i {
        without(moves.drop_last(), i)
    } else {
        without(moves.drop_last(), i).push(moves.last())
    }
}

/// A run changes no session's place.
pub proof fn lemma_run_keeps_sessions(w: World, moves: Seq<Move>)
    requires
        valid(w, moves),
    ensures
        run(w, moves).sessions.len() == w.sessions.len(),
    decreases moves.len(),
{
    if moves.len() > 0 {
        lemma_run_keeps_sessions(w, moves.drop_last());
    }
}

/// A fileless session stays fileless, whatever it is told.
pub proof fn lemma_fileless_stays(s: Session, event: Event)
    requires
        fileless(s),
    ensures
        fileless(s.next(event)),
        !(s.command_on(s.next(event)) is CreateExclusive),
        !(s.command_on(s.next(event)) is CopyInto),
        !(s.command_on(s.next(event)) is Remove),
{
}

/// However the sessions interleave, the state of each is what its own events
/// make of the state it started in: the events of the others play no part.
pub proof fn lemma_session_follows_own_events(w: World, moves: Seq<Move>, i: int)
    requires
        valid(w, moves),
        0 <= i < w.sessions.len(),
    ensures
        run(w, moves).sessions[i] == replay(w.sessions[i], reports_to(moves, i)),
    decreases moves.len(),
{
    if moves.len() > 0 {
        let front = moves.drop_last();
        lemma_session_follows_own_events(w, front, i);
        lemma_run_keeps_sessions(w, front);
        if moves.last().session == i {
            let events = reports_to(moves, i);
            assert(events.drop_last() =~= reports_to(front, i));
            assert(events.last() == moves.last().event);
        }
    }
}

/// A session that discards leaves no trace. It never holds a file; and with
/// its steps taken out, what remains is a run of the others that ends with
/// the same directory and the same states for them.
pub proof fn lemma_discarding_leaves_no_trace(w: World, moves: Seq<Move>, i: int)
    requires
        valid(w, moves),
        0 <= i < w.sessions.len(),
        fileless(w.sessions[i]),
    ensures
        fileless(run(w, moves).sessions[i]),
        valid(w, without(moves, i)),
        run(w, without(moves, i)).files == run(w, moves).files,
        run(w, without(moves, i)).sessions == run(w, moves).sessions.update(i, w.sessions[i]),
    decreases moves.len(),
{
    if moves.len() == 0 {
        assert(w.sessions =~= w.sessions.update(i, w.sessions[i]));
    } else {
        let front = moves.drop_last();
        let m = moves.last();
        lemma_discarding_leaves_no_trace(w, front, i);
        lemma_run_keeps_sessions(w, front);
        lemma_run_keeps_sessions(w, without(front, i));
        let with = run(w, front);
        let alone = run(w, without(front, i));
        if m.session == i {
            lemma_fileless_stays(with.sessions[i], m.event);
            assert(run(w, without(moves, i)).sessions =~= run(w, moves).sessions.update(
                i,
                w.sessions[i],
            ));
        } else {
            let rest = without(moves, i);
            assert(rest.drop_last() =~= without(front, i));
            assert(rest.last() == m);
            assert(alone.sessions[m.session] == with.sessions[m.session]);
            assert(admissible(alone, m));
            assert(run(w, rest) == apply(alone, m));
            assert(run(w, rest).sessions =~= run(w, moves).sessions.update(i, w.sessions[i]));
        }
    }
}

/// The policy read at dispatch holds for the whole session: a session told
/// to discard never gets to a state that has to do with a file, and one told
/// to save never drains, whatever events follow.
pub proof fn lemma_policy_is_fixed(discard: bool, now: Result<u64, String>, events: Seq<Event>)
    ensures
        discard ==> fileless(replay(Session::dispatched(discard, now), events)),
        !discard ==> !(replay(Session::dispatched(discard, now), events) is Discarding) && !(
        replay(Session::dispatched(discard, now), events) is Discarded),
    decreases events.len(),
{
    if events.len() > 0 {
        lemma_policy_is_fixed(discard, now, events.drop_last());
    }
}

/// An ended session stays as it is and asks for nothing more than to close.
pub proof fn lemma_ended_sessions_stay(s: Session, event: Event)
    requires
        s.is_final(),
    ensures
        s.next(event) == s,
        s.command_on(s.next(event)) == Command::Close,
        s.logged(event) is None,
{
}

/// What is left without the steps of the session `i` are steps of the
/// other sessions of the world.
pub proof fn lemma_without_holds_the_others(w: World, moves: Seq<Move>, i: int)
    requires
        valid(w, moves),
    ensures
        forall|k: int|
            0 <= k < without(moves, i).len() ==> (#[trigger] without(moves, i)[k]).session != i
                && 0 <= without(moves, i)[k].session < w.sessions.len(),
    decreases moves.len(),
{
    if moves.len() > 0 {
        lemma_without_holds_the_others(w, moves.drop_last(), i);
        lemma_run_keeps_sessions(w, moves.drop_last());
    }
}

/// A session that saves beside one that discards leaves exactly one file.
/// Whatever the interleaving, the discarding session never holds a file;
/// and once the saving session has kept what it received, the directory
/// holds what it held before and that one file more, under a name that
/// was free.
pub proof fn lemma_saving_beside_discarding(
    w: World,
    t: u64,
    moves: Seq<Move>,
    saving: int,
    discarding: int,
)
    requires
        w.sessions.len() == 2,
        0 <= saving < 2,
        0 <= discarding < 2,
        saving != discarding,
        w.sessions[saving] == Session::Allocating(slot(t, 0)),
        fileless(w.sessions[discarding]),
        valid(w, moves),
    ensures
        fileless(run(w, moves).sessions[discarding]),
        run(w, moves).sessions[saving] matches Session::Kept(d, _) ==> !w.files.contains(d.name())
            && run(w, moves).files == w.files.insert(d.name()),
        !(run(w, moves).sessions[saving] is Discarding),
        !(run(w, moves).sessions[saving] is Discarded),
{
    let rest = without(moves, discarding);
    lemma_discarding_leaves_no_trace(w, moves, discarding);
    lemma_without_holds_the_others(w, moves, discarding);
    assert(only_session(rest, saving));
    lemma_lone_session_leaves_one_file(w, t, saving, rest);
    lemma_run_keeps_sessions(w, moves);
    assert(run(w, rest).sessions[saving] == run(w, moves).sessions[saving]);
}

} // verus!
