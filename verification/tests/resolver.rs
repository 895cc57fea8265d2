use persona_message::error::Error;
use persona_message::resolver::{
    join_path, parent_from_status, ActorIndex, ActorIndexPath, ProcessAncestry,
};
use persona_message::schema::{Actor, ActorId};

fn actor(name: &str, pid: u32) -> Actor {
    Actor {
        name: ActorId::new(name.to_string()),
        pid,
    }
}

#[test]
fn nearest_registered_ancestor_speaks_for_the_process() {
    let index = ActorIndex::from_actors(vec![actor("designer", 300), actor("operator", 200)]);
    let ancestry = ProcessAncestry::from_pids(vec![400, 200, 300, 1]);
    let name = index.resolve(&ancestry).expect("an ancestor is registered");
    assert_eq!(name.as_str(), "operator");
}

#[test]
fn first_actor_registered_for_a_process_wins() {
    let index = ActorIndex::from_actors(vec![actor("first", 200), actor("second", 200)]);
    let ancestry = ProcessAncestry::from_pids(vec![200]);
    assert_eq!(index.resolve(&ancestry).expect("registered").as_str(), "first");
}

#[test]
fn unregistered_ancestry_resolves_to_nobody() {
    let index = ActorIndex::from_actors(vec![actor("designer", 300)]);
    let ancestry = ProcessAncestry::from_pids(vec![400, 1]);
    assert!(index.resolve(&ancestry).is_none());
    assert_eq!(index.actors().len(), 1);
}

#[test]
fn ancestry_walk_stops_at_process_zero_and_self_parents() {
    let mut ancestry = ProcessAncestry::from_process(400);
    assert!(ancestry.record_parent(200));
    assert!(ancestry.record_parent(1));
    assert!(!ancestry.record_parent(0));
    assert_eq!(ancestry.pids(), &[400, 200, 1]);

    let mut looping = ProcessAncestry::from_process(1);
    assert!(!looping.record_parent(1));
    assert_eq!(looping.pids(), &[1]);
}

#[test]
fn parent_is_read_from_process_status() {
    let status = "Name:\tmessage\nState:\tS (sleeping)\nPid:\t400\nPPid:\t200\nUid:\t1000\n";
    assert_eq!(parent_from_status(status, 400).expect("a parent"), 200);
    let spaced = "PPid:   7  \r\n";
    assert_eq!(parent_from_status(spaced, 8).expect("a parent"), 7);
}

#[test]
fn status_without_parent_is_refused() {
    match parent_from_status("Name:\tmessage\nPid:\t400\n", 400) {
        Err(Error::MissingParentProcess { pid }) => assert_eq!(pid, 400),
        other => panic!("expected a missing parent, got {other:?}"),
    }
}

#[test]
fn parent_that_is_no_number_is_refused() {
    match parent_from_status("PPid:\tnone\n", 400) {
        Err(Error::InvalidProcessId { got }) => assert_eq!(got, "none"),
        other => panic!("expected an invalid process id, got {other:?}"),
    }
}

#[test]
fn record_lines_skip_blank_lines_and_keep_numbers() {
    let records = ActorIndex::record_lines("(Actor designer 300)\n\n  \t\n(Actor operator 200)\n");
    let found: Vec<(usize, String)> = records
        .iter()
        .map(|line| (line.number, line.text.clone()))
        .collect();
    assert_eq!(
        found,
        vec![
            (1, "(Actor designer 300)".to_string()),
            (4, "(Actor operator 200)".to_string()),
        ]
    );
}

#[test]
fn actor_index_path_follows_the_settings() {
    let explicit = ActorIndexPath::from_environment_values(Some("/run/actors.nota".to_string()), None);
    assert_eq!(explicit.path(), "/run/actors.nota");
    let store = ActorIndexPath::from_environment_values(None, Some("/var/store".to_string()));
    assert_eq!(store.path(), "/var/store/actors.nota");
    let default = ActorIndexPath::from_environment_values(None, None);
    assert_eq!(default.path(), ".persona-message/actors.nota");
}

#[test]
fn joining_keeps_one_separator() {
    assert_eq!(join_path("/var/store/".to_string(), "actors.nota"), "/var/store/actors.nota");
    assert_eq!(join_path(String::new(), "actors.nota"), "actors.nota");
}

#[test]
fn current_process_without_an_actor_names_the_index() {
    let path = ActorIndexPath::from_path("/run/actors.nota".to_string());
    let index = ActorIndex::from_actors(vec![actor("designer", 300)]);
    match path.resolve_current_process(&index, &ProcessAncestry::from_pids(vec![400, 1])) {
        Err(Error::NoMatchingAgent { path }) => assert_eq!(path, "/run/actors.nota"),
        other => panic!("expected no matching actor, got {other:?}"),
    }
    let found = path
        .resolve_current_process(&index, &ProcessAncestry::from_pids(vec![400, 300]))
        .expect("an actor speaks for the process");
    assert_eq!(found.as_str(), "designer");
}
