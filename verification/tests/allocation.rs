use std::collections::HashSet;

use miniraw::capture::{Command, Event, Session};
use miniraw::destination::Destination;

/// A directory that answers an exclusive create in one step.
struct Directory {
    names: HashSet<String>,
}

impl Directory {
    fn new() -> Directory {
        Directory { names: HashSet::new() }
    }

    fn create_exclusive(&mut self, name: String) -> Event {
        if self.names.insert(name) {
            Event::Created
        } else {
            Event::AlreadyExists
        }
    }

    fn remove(&mut self, name: &str) {
        self.names.remove(name);
    }
}

/// Takes one step of a session against the directory; `bytes` is what the
/// stream turns out to hold.
fn advance(directory: &mut Directory, session: Session, bytes: u64) -> Session {
    match session.command() {
        Command::Drain => session.step(Event::Copied(bytes)).session,
        Command::CreateExclusive(d) => {
            let event = directory.create_exclusive(d.file_name());
            session.step(event).session
        }
        Command::CopyInto(_) => {
            let r = session.step(Event::Copied(bytes));
            if let Command::Remove(d) = r.command {
                directory.remove(&d.file_name());
            }
            r.session
        }
        Command::Remove(_) | Command::Close => session,
    }
}

fn allocate(directory: &mut Directory, timestamp: u64) -> Destination {
    let mut session = Session::dispatch(false, Ok(timestamp)).session;
    loop {
        match session {
            Session::Copying(d) => return d,
            Session::Allocating(_) => session = advance(directory, session, 1),
            other => panic!("allocation ended in {:?}", other),
        }
    }
}

#[test]
fn allocations_of_one_second_take_the_names_in_order() {
    let mut directory = Directory::new();
    let mut names = Vec::new();
    for _ in 0..5 {
        names.push(allocate(&mut directory, 1700000000).file_name());
    }
    assert_eq!(
        names,
        vec![
            "1700000000.spl",
            "1700000000-1.spl",
            "1700000000-2.spl",
            "1700000000-3.spl",
            "1700000000-4.spl",
        ]
    );
    assert_eq!(directory.names.len(), 5);
}

#[test]
fn many_allocations_of_one_second_never_collide() {
    let mut directory = Directory::new();
    let mut names = HashSet::new();
    for _ in 0..300 {
        assert!(names.insert(allocate(&mut directory, 1)));
    }
    assert_eq!(names.len(), 300);
}

#[test]
fn second_allocation_takes_suffix_one_and_spares_the_first() {
    let mut directory = Directory::new();
    let first = allocate(&mut directory, 1700000000);
    assert_eq!(first.file_name(), "1700000000.spl");
    let second = allocate(&mut directory, 1700000000);
    assert_eq!(second.file_name(), "1700000000-1.spl");
    assert!(directory.names.contains("1700000000.spl"));
    assert!(directory.names.contains("1700000000-1.spl"));
    assert_eq!(directory.names.len(), 2);
}

#[test]
fn allocation_skips_names_that_are_taken() {
    let mut directory = Directory::new();
    directory.names.insert("8.spl".to_string());
    directory.names.insert("8-1.spl".to_string());
    directory.names.insert("8-3.spl".to_string());
    assert_eq!(allocate(&mut directory, 8).file_name(), "8-2.spl");
    assert_eq!(allocate(&mut directory, 8).file_name(), "8-4.spl");
}

#[test]
fn other_seconds_do_not_collide() {
    let mut directory = Directory::new();
    assert_eq!(allocate(&mut directory, 8).file_name(), "8.spl");
    assert_eq!(allocate(&mut directory, 9).file_name(), "9.spl");
    assert_eq!(allocate(&mut directory, 8).file_name(), "8-1.spl");
}

#[test]
fn interleaved_sessions_never_share_a_name() {
    let mut directory = Directory::new();
    let count: usize = 7;
    let mut sessions: Vec<Session> =
        (0..count).map(|_| Session::dispatch(false, Ok(1700000000)).session).collect();
    let order: [usize; 10] = [3, 0, 6, 1, 1, 4, 2, 5, 0, 3];
    let mut turn: usize = 0;
    while sessions.iter().any(|s| matches!(s, Session::Allocating(_))) {
        let i = order[turn % order.len()];
        turn += 1;
        if let Session::Allocating(_) = sessions[i] {
            sessions[i] = advance(&mut directory, sessions[i], 1);
        }
    }
    let mut suffixes: Vec<u64> = sessions
        .iter()
        .map(|s| match s {
            Session::Copying(d) => {
                assert_eq!(d.timestamp, 1700000000);
                d.suffix
            }
            other => panic!("not copying: {:?}", other),
        })
        .collect();
    suffixes.sort();
    assert_eq!(suffixes, vec![0, 1, 2, 3, 4, 5, 6]);
    assert_eq!(directory.names.len(), count);
}

#[test]
fn discarding_and_saving_side_by_side() {
    let mut directory = Directory::new();
    let mut discarding = Session::dispatch(true, Ok(1700000000)).session;
    let mut saving = Session::dispatch(false, Ok(1700000000)).session;
    saving = advance(&mut directory, saving, 5);
    discarding = advance(&mut directory, discarding, 1000);
    saving = advance(&mut directory, saving, 5);
    assert_eq!(discarding, Session::Discarded(1000));
    assert_eq!(saving, Session::Kept(Destination::first(1700000000), 5));
    assert_eq!(directory.names.len(), 1);
    assert!(directory.names.contains("1700000000.spl"));

    let mut alone = Directory::new();
    let mut only = Session::dispatch(false, Ok(1700000000)).session;
    only = advance(&mut alone, only, 5);
    only = advance(&mut alone, only, 5);
    assert_eq!(only, saving);
    assert_eq!(alone.names, directory.names);
}

#[test]
fn discarding_creates_no_file() {
    let mut directory = Directory::new();
    let mut session = Session::dispatch(true, Ok(1700000000)).session;
    while !session.finished() {
        session = advance(&mut directory, session, 1000);
    }
    assert_eq!(session, Session::Discarded(1000));
    assert!(directory.names.is_empty());
}

#[test]
fn empty_file_is_gone_after_the_session() {
    let mut directory = Directory::new();
    let mut session = Session::dispatch(false, Ok(1700000000)).session;
    while !session.finished() {
        session = advance(&mut directory, session, 0);
    }
    assert_eq!(session, Session::Deleted(Destination::first(1700000000)));
    assert!(directory.names.is_empty());
}

#[test]
fn saved_file_is_the_only_one() {
    let mut directory = Directory::new();
    let mut session = Session::dispatch(false, Ok(1700000000)).session;
    while !session.finished() {
        session = advance(&mut directory, session, 5);
    }
    assert_eq!(session, Session::Kept(Destination::first(1700000000), 5));
    assert_eq!(directory.names.len(), 1);
    assert!(directory.names.contains("1700000000.spl"));
}
