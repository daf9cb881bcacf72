use archify::database::{Database, StoreError};
use archify::playlist::{Playlist, PlaylistData, PlaylistItem};

fn content(name: &str, ids: &[&str]) -> PlaylistData {
    PlaylistData {
        name: name.to_string(),
        owner: "owner".to_string(),
        tracks: ids.iter().map(|id| PlaylistItem::Track(Some(id.to_string()))).collect(),
    }
}

fn version(id: &str, timestamp: u64, ids: &[&str]) -> Playlist {
    Playlist::captured(id.to_string(), content("mix", ids), timestamp)
}

fn timestamps(history: &[Playlist]) -> Vec<u64> {
    history.iter().map(|version| version.timestamp).collect()
}

fn counts(history: &[Playlist]) -> Vec<u64> {
    history.iter().map(|version| version.count).collect()
}

#[test]
fn new_store_holds_nothing() {
    let db = Database::new();
    assert!(db.get_latest_unique_playlists().is_empty());
    assert!(db.get_all_tracked_versions("p1").is_empty());
    assert_eq!(db.get_playlist_from_tracked_index("p1", 0), None);
    assert!(db.latest("p1").is_none());
}

#[test]
fn register_stores_the_placeholder() {
    let mut db = Database::new();
    assert!(db.set_unique_empty_playlist("p1"));
    let history = db.get_all_tracked_versions("p1");
    assert_eq!(history.len(), 1);
    assert_eq!(
        history[0],
        Playlist { id: "p1".to_string(), sha256: [0u8; 32], timestamp: 0, count: 0, data: None }
    );
    assert!(history[0].is_placeholder());
}

#[test]
fn register_twice_keeps_one_placeholder() {
    let mut db = Database::new();
    assert!(db.set_unique_empty_playlist("p1"));
    assert!(!db.set_unique_empty_playlist("p1"));
    let history = db.get_all_tracked_versions("p1");
    assert_eq!(history.len(), 1);
    assert_eq!(history.iter().filter(|version| version.timestamp == 0).count(), 1);
    assert_eq!(db.get_latest_unique_playlists().len(), 1);
}

#[test]
fn register_after_versions_changes_nothing() {
    let mut db = Database::new();
    assert_eq!(db.set_playlist(&version("p1", 50, &["a"])), Ok(()));
    assert!(!db.set_unique_empty_playlist("p1"));
    assert_eq!(timestamps(&db.get_all_tracked_versions("p1")), vec![50]);
}

#[test]
fn append_rejects_a_capture_time_that_the_playlist_holds() {
    let mut db = Database::new();
    db.set_unique_empty_playlist("p1");
    assert_eq!(db.set_playlist(&version("p1", 10, &["a"])), Ok(()));
    assert_eq!(db.set_playlist(&version("p1", 10, &["b"])), Err(StoreError::WriteFailed));
    assert_eq!(db.set_playlist(&version("p1", 0, &["b"])), Err(StoreError::WriteFailed));
    let history = db.get_all_tracked_versions("p1");
    assert_eq!(timestamps(&history), vec![0, 10]);
    assert_eq!(history[1], Playlist { count: 1, ..version("p1", 10, &["a"]) });
    // The same capture time under another playlist is another key.
    assert_eq!(db.set_playlist(&version("p2", 10, &["a"])), Ok(()));
}

#[test]
fn history_is_in_strictly_ascending_order_of_capture_time() {
    let mut db = Database::new();
    db.set_unique_empty_playlist("p1");
    for timestamp in [30u64, 10, 20, 50, 40] {
        assert_eq!(db.set_playlist(&version("p1", timestamp, &["a"])), Ok(()));
    }
    let history = db.get_all_tracked_versions("p1");
    assert_eq!(timestamps(&history), vec![0, 10, 20, 30, 40, 50]);
    assert_eq!(counts(&history), vec![0, 1, 2, 3, 4, 5]);
    assert!(history.windows(2).all(|pair| pair[0].timestamp < pair[1].timestamp));
}

#[test]
fn histories_of_playlists_are_kept_apart() {
    let mut db = Database::new();
    db.set_unique_empty_playlist("p1");
    db.set_unique_empty_playlist("p2");
    db.set_playlist(&version("p2", 7, &["x"])).unwrap();
    db.set_playlist(&version("p1", 9, &["y"])).unwrap();
    assert_eq!(timestamps(&db.get_all_tracked_versions("p1")), vec![0, 9]);
    assert_eq!(timestamps(&db.get_all_tracked_versions("p2")), vec![0, 7]);
    assert!(db.get_all_tracked_versions("p3").is_empty());
}

#[test]
fn nth_version_beyond_the_history_is_absent() {
    let mut db = Database::new();
    db.set_unique_empty_playlist("p1");
    db.set_playlist(&version("p1", 10, &["a"])).unwrap();
    assert_eq!(
        db.get_playlist_from_tracked_index("p1", 1),
        Some(Playlist { count: 1, ..version("p1", 10, &["a"]) })
    );
    assert!(db.get_playlist_from_tracked_index("p1", 0).unwrap().is_placeholder());
    assert_eq!(db.get_playlist_from_tracked_index("p1", 2), None);
    assert_eq!(db.get_playlist_from_tracked_index("p1", 5), None);
    assert_eq!(db.get_playlist_from_tracked_index("p1", u64::MAX), None);
    assert_eq!(db.get_playlist_from_tracked_index("unknown", 0), None);
}

#[test]
fn latest_per_playlist_is_the_newest_version_with_the_number_of_versions() {
    let mut db = Database::new();
    db.set_unique_empty_playlist("p1");
    db.set_unique_empty_playlist("p2");
    db.set_playlist(&version("p1", 20, &["b"])).unwrap();
    db.set_playlist(&version("p1", 10, &["a"])).unwrap();
    let latest = db.get_latest_unique_playlists();
    assert_eq!(latest.len(), 2);
    assert_eq!(latest[0], Playlist { count: 3, ..version("p1", 20, &["b"]) });
    assert_eq!(latest[1], Playlist { count: 1, ..Playlist::placeholder("p2".to_string()) });
    assert_eq!(db.latest("p1"), Some(&Playlist { count: 2, ..version("p1", 20, &["b"]) }));
}

#[test]
fn delete_all_then_history_is_empty() {
    let mut db = Database::new();
    db.set_unique_empty_playlist("p1");
    db.set_unique_empty_playlist("p2");
    db.set_playlist(&version("p1", 10, &["a"])).unwrap();
    assert!(db.delete_playlist("p1"));
    assert!(db.get_all_tracked_versions("p1").is_empty());
    assert_eq!(db.get_playlist_from_tracked_index("p1", 0), None);
    assert_eq!(timestamps(&db.get_all_tracked_versions("p2")), vec![0]);
    assert!(!db.delete_playlist("p1"));
    assert!(!db.delete_playlist("never"));
    // A deleted playlist can be registered anew.
    assert!(db.set_unique_empty_playlist("p1"));
    assert_eq!(timestamps(&db.get_all_tracked_versions("p1")), vec![0]);
}

#[test]
fn from_row_reads_missing_columns_as_the_placeholder_values() {
    assert_eq!(
        Playlist::from_row("p1".to_string(), None, None, 1, None),
        Playlist { id: "p1".to_string(), sha256: [0u8; 32], timestamp: 0, count: 1, data: None }
    );
    assert_eq!(
        Playlist::from_row("p1".to_string(), Some([7u8; 32]), Some(12), 2, Some(content("n", &["a"]))),
        Playlist {
            id: "p1".to_string(),
            sha256: [7u8; 32],
            timestamp: 12,
            count: 2,
            data: Some(content("n", &["a"])),
        }
    );
}

#[test]
fn clone_of_a_version_equals_it() {
    let stored = version("p1", 3, &["a", "b"]);
    assert_eq!(stored.clone(), stored);
}
