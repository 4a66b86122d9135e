use music_collab::projects::ProjectStore;

#[test]
fn create_project_ids_start_at_one_and_increase() {
    let mut store = ProjectStore::new();
    let a = store.create_project(
        String::from("First"),
        String::from("one"),
        String::from("alice"),
    );
    let b = store.create_project(
        String::from("Second"),
        String::from("two"),
        String::from("bob"),
    );
    assert_eq!(a, 1);
    assert_eq!(b, 2);
    let p = store.get_project(1).unwrap();
    assert_eq!(p.id, 1);
    assert_eq!(p.title, "First");
    assert_eq!(p.description, "one");
    assert_eq!(p.owner, "alice");
    assert_eq!(p.contributors.len(), 0);
    assert_eq!(p.tracks.len(), 0);
    assert!(store.get_project(3).is_none());
    let all = store.list_projects();
    assert_eq!(all.len(), 2);
    assert_eq!(all[0].id, 1);
    assert_eq!(all[1].id, 2);
}

#[test]
fn ids_are_not_reused_after_removal() {
    let mut store = ProjectStore::new();
    let a = store.create_project(String::from("A"), String::from(""), String::from("alice"));
    assert!(store.add_track(
        a,
        String::from("t"),
        String::from("hash"),
        String::from("alice"),
        77,
    ));
    assert!(store.remove_track(a, 77));
    let b = store.create_project(String::from("B"), String::from(""), String::from("alice"));
    assert_eq!(b, a + 1);
}

#[test]
fn add_track_appends_and_fails_on_unknown_project() {
    let mut store = ProjectStore::new();
    assert!(!store.add_track(
        9,
        String::from("t"),
        String::from("h"),
        String::from("u"),
        1,
    ));
    let id = store.create_project(String::from("P"), String::from(""), String::from("o"));
    assert!(store.add_track(
        id,
        String::from("Intro"),
        String::from("QmHash"),
        String::from("dana"),
        1234,
    ));
    let tracks = store.get_project_tracks(id);
    assert_eq!(tracks.len(), 1);
    assert_eq!(tracks[0].id, 1234);
    assert_eq!(tracks[0].name, "Intro");
    assert_eq!(tracks[0].ipfs_hash, "QmHash");
    assert_eq!(tracks[0].uploaded_by, "dana");
    assert_eq!(tracks[0].timestamp, 1234);
    assert_eq!(store.get_project_tracks(9).len(), 0);
}

#[test]
fn remove_track_removes_every_match_and_reports_success() {
    let mut store = ProjectStore::new();
    let id = store.create_project(String::from("P"), String::from(""), String::from("o"));
    assert!(store.add_track(id, String::from("a"), String::from("h1"), String::from("u"), 5));
    assert!(store.add_track(id, String::from("b"), String::from("h2"), String::from("u"), 5));
    assert!(store.add_track(id, String::from("c"), String::from("h3"), String::from("u"), 6));
    assert!(store.remove_track(id, 5));
    let tracks = store.get_project_tracks(id);
    assert_eq!(tracks.len(), 1);
    assert_eq!(tracks[0].id, 6);
    assert!(store.remove_track(id, 42));
    assert_eq!(store.get_project_tracks(id).len(), 1);
    assert!(!store.remove_track(7, 5));
}

#[test]
fn add_contributor_twice_keeps_one_entry() {
    let mut store = ProjectStore::new();
    let id = store.create_project(String::from("P"), String::from(""), String::from("o"));
    assert!(store.add_contributor(id, String::from("dana")));
    assert!(store.add_contributor(id, String::from("dana")));
    let p = store.get_project(id).unwrap();
    assert_eq!(p.contributors.len(), 1);
    assert_eq!(p.contributors[0], "dana");
    assert!(store.add_contributor(id, String::from("erin")));
    let p = store.get_project(id).unwrap();
    assert_eq!(p.contributors.len(), 2);
    assert!(!store.add_contributor(9, String::from("dana")));
}
