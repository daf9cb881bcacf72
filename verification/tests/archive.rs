use archify::archive::{
    add_playlist, delete_playlist, list_playlists, list_tracked_versions, refresh_playlist,
    select_for_export, store_if_changed, update_playlists, Fetch, FetchError, HistoryError,
    Listing, Refresh, RefreshError, Registration, SelectionError, TrackedVersions, VersionLine,
};
use archify::database::{Database, StoreError};
use archify::fingerprint::fingerprint;
use archify::ids::InputError;
use archify::playlist::{Playlist, PlaylistData, PlaylistItem};

fn listing_of(ids: &[&str]) -> Vec<PlaylistItem> {
    ids.iter().map(|id| PlaylistItem::Track(Some(id.to_string()))).collect()
}

fn fetched(name: &str, ids: &[&str]) -> PlaylistData {
    PlaylistData { name: name.to_string(), owner: "anna".to_string(), tracks: listing_of(ids) }
}

fn address(id: &str) -> String {
    format!("https://open.spotify.com/playlist/{}", id)
}

#[test]
fn scenario_register_refresh_and_select() {
    let mut db = Database::new();
    db.set_unique_empty_playlist("p1");
    let history = db.get_all_tracked_versions("p1");
    assert_eq!(history.len(), 1);
    assert_eq!(history[0].timestamp, 0);
    assert!(history[0].is_placeholder());

    assert_eq!(
        refresh_playlist(&mut db, "p1", 100, Ok(fetched("mix", &["a", "b", "c"]))),
        Ok(Refresh::Stored)
    );
    assert_eq!(db.get_all_tracked_versions("p1").len(), 2);
    assert_eq!(
        list_playlists(&db),
        vec![Listing { id: "p1".to_string(), name: Some("mix".to_string()), versions: 1 }]
    );

    assert_eq!(
        refresh_playlist(&mut db, "p1", 200, Ok(fetched("mix", &["a", "b", "c"]))),
        Ok(Refresh::Unchanged)
    );
    assert_eq!(db.get_all_tracked_versions("p1").len(), 2);

    assert_eq!(
        refresh_playlist(&mut db, "p1", 300, Ok(fetched("mix", &["a", "b"]))),
        Ok(Refresh::Stored)
    );
    let history = db.get_all_tracked_versions("p1");
    assert_eq!(history.len(), 3);
    assert_ne!(history[1].sha256, history[2].sha256);
    assert_eq!(history[1].sha256, fingerprint(&listing_of(&["a", "b", "c"])));
    assert_eq!(history[2].sha256, fingerprint(&listing_of(&["a", "b"])));

    // Positions count from the placeholder at 0: the first fetched version is at 1.
    let first = select_for_export(&db, "p1", 1).unwrap();
    assert_eq!(first.data, Some(fetched("mix", &["a", "b", "c"])));
    assert_eq!(first.timestamp, 100);
    let second = select_for_export(&db, "p1", 2).unwrap();
    assert_eq!(second.data, Some(fetched("mix", &["a", "b"])));
    assert_eq!(select_for_export(&db, "p1", 5), Err(SelectionError::SelectionNotFound));
}

#[test]
fn refresh_after_two_versions_of_one_fingerprint_stores_nothing() {
    let mut db = Database::new();
    let first = Playlist::captured("p1".to_string(), fetched("mix", &["a"]), 10);
    let second = Playlist::captured("p1".to_string(), fetched("mix", &["a"]), 20);
    assert_eq!(first.sha256, second.sha256);
    db.set_playlist(&first).unwrap();
    db.set_playlist(&second).unwrap();
    assert_eq!(refresh_playlist(&mut db, "p1", 30, Ok(fetched("mix", &["a"]))), Ok(Refresh::Unchanged));
    assert_eq!(db.get_all_tracked_versions("p1").len(), 2);
}

#[test]
fn refresh_compares_with_the_newest_version_only() {
    let mut db = Database::new();
    db.set_unique_empty_playlist("p1");
    assert_eq!(refresh_playlist(&mut db, "p1", 10, Ok(fetched("mix", &["a"]))), Ok(Refresh::Stored));
    assert_eq!(refresh_playlist(&mut db, "p1", 20, Ok(fetched("mix", &["b"]))), Ok(Refresh::Stored));
    // Back to the first content: it differs from the newest version.
    assert_eq!(refresh_playlist(&mut db, "p1", 30, Ok(fetched("mix", &["a"]))), Ok(Refresh::Stored));
    assert_eq!(db.get_all_tracked_versions("p1").len(), 4);
}

#[test]
fn refresh_of_an_empty_playlist_is_stored_over_the_placeholder() {
    let mut db = Database::new();
    db.set_unique_empty_playlist("p1");
    assert_eq!(refresh_playlist(&mut db, "p1", 10, Ok(fetched("mix", &[]))), Ok(Refresh::Stored));
    assert_eq!(refresh_playlist(&mut db, "p1", 20, Ok(fetched("mix", &[]))), Ok(Refresh::Unchanged));
    let history = db.get_all_tracked_versions("p1");
    assert_eq!(history.len(), 2);
    assert_ne!(history[1].sha256, [0u8; 32]);
}

#[test]
fn refresh_failures_leave_the_store_as_it_is() {
    let mut db = Database::new();
    db.set_unique_empty_playlist("p1");
    assert_eq!(
        refresh_playlist(&mut db, "p1", 10, Err(FetchError::Failed)),
        Err(RefreshError::FetchFailed)
    );
    assert_eq!(
        refresh_playlist(&mut db, "p2", 10, Ok(fetched("mix", &["a"]))),
        Err(RefreshError::NotTracked)
    );
    assert_eq!(
        refresh_playlist(&mut db, "p2", 10, Err(FetchError::Failed)),
        Err(RefreshError::FetchFailed)
    );
    assert_eq!(db.get_all_tracked_versions("p1").len(), 1);
    assert!(db.get_all_tracked_versions("p2").is_empty());
}

#[test]
fn refresh_at_a_capture_time_already_held_is_a_failed_write() {
    let mut db = Database::new();
    db.set_unique_empty_playlist("p1");
    assert_eq!(refresh_playlist(&mut db, "p1", 10, Ok(fetched("mix", &["a"]))), Ok(Refresh::Stored));
    assert_eq!(
        refresh_playlist(&mut db, "p1", 10, Ok(fetched("mix", &["b"]))),
        Err(RefreshError::Store(StoreError::WriteFailed))
    );
    assert_eq!(
        refresh_playlist(&mut db, "p1", 0, Ok(fetched("mix", &["b"]))),
        Err(RefreshError::Store(StoreError::WriteFailed))
    );
    // Unchanged content is found unchanged before any write is tried.
    assert_eq!(refresh_playlist(&mut db, "p1", 10, Ok(fetched("mix", &["a"]))), Ok(Refresh::Unchanged));
    assert_eq!(db.get_all_tracked_versions("p1").len(), 2);
}

#[test]
fn update_goes_on_after_a_failed_fetch() {
    let mut db = Database::new();
    db.set_unique_empty_playlist("p1");
    db.set_unique_empty_playlist("p2");
    db.set_unique_empty_playlist("p3");
    let outcomes = update_playlists(
        &mut db,
        vec![
            Fetch { id: "p1".to_string(), timestamp: 5, content: Ok(fetched("one", &["a"])) },
            Fetch { id: "p2".to_string(), timestamp: 6, content: Err(FetchError::Failed) },
            Fetch { id: "gone".to_string(), timestamp: 6, content: Ok(fetched("x", &["a"])) },
            Fetch { id: "p3".to_string(), timestamp: 7, content: Ok(fetched("three", &["c"])) },
            Fetch { id: "p1".to_string(), timestamp: 8, content: Ok(fetched("one", &["a"])) },
        ],
    );
    assert_eq!(
        outcomes,
        vec![
            Ok(Refresh::Stored),
            Err(RefreshError::FetchFailed),
            Err(RefreshError::NotTracked),
            Ok(Refresh::Stored),
            Ok(Refresh::Unchanged),
        ]
    );
    assert_eq!(db.get_all_tracked_versions("p1").len(), 2);
    assert_eq!(db.get_all_tracked_versions("p2").len(), 1);
    assert_eq!(db.get_all_tracked_versions("p3").len(), 2);
    assert_eq!(update_playlists(&mut db, Vec::new()), Vec::new());
}

#[test]
fn add_registers_each_address_by_itself() {
    let mut db = Database::new();
    let outcomes = add_playlist(
        &mut db,
        vec![
            address("37i9dQZF1DXcBWIGoYBM5M"),
            "not an address".to_string(),
            "https://open.spotify.com/album/37i9dQZF1DXcBWIGoYBM5M".to_string(),
            "https://open.spotify.com/playlist/has-dash".to_string(),
            "https://open.spotify.com/playlist".to_string(),
            address("5iKndSu1XI74U2OZePzP8L"),
            address("37i9dQZF1DXcBWIGoYBM5M"),
        ],
    );
    assert_eq!(
        outcomes,
        vec![
            Ok(Registration { id: "37i9dQZF1DXcBWIGoYBM5M".to_string(), inserted: true }),
            Err(InputError::UnrecognizedUrl),
            Err(InputError::UnrecognizedUrl),
            Err(InputError::InvalidId),
            Err(InputError::UnrecognizedUrl),
            Ok(Registration { id: "5iKndSu1XI74U2OZePzP8L".to_string(), inserted: true }),
            Ok(Registration { id: "37i9dQZF1DXcBWIGoYBM5M".to_string(), inserted: false }),
        ]
    );
    let latest = db.get_latest_unique_playlists();
    assert_eq!(latest.len(), 2);
    assert_eq!(latest[0].id, "37i9dQZF1DXcBWIGoYBM5M");
    assert_eq!(latest[1].id, "5iKndSu1XI74U2OZePzP8L");
    assert_eq!(db.get_all_tracked_versions("37i9dQZF1DXcBWIGoYBM5M").len(), 1);
}

#[test]
fn delete_removes_each_named_playlist() {
    let mut db = Database::new();
    add_playlist(&mut db, vec![address("aaa"), address("bbb"), address("ccc")]);
    refresh_playlist(&mut db, "aaa", 10, Ok(fetched("a", &["x"]))).unwrap();
    let outcomes =
        delete_playlist(&mut db, vec![address("aaa"), "nonsense".to_string(), address("zzz"), address("ccc")]);
    assert_eq!(
        outcomes,
        vec![
            Ok("aaa".to_string()),
            Err(InputError::UnrecognizedUrl),
            Ok("zzz".to_string()),
            Ok("ccc".to_string()),
        ]
    );
    assert!(db.get_all_tracked_versions("aaa").is_empty());
    assert_eq!(db.get_all_tracked_versions("bbb").len(), 1);
    assert!(db.get_all_tracked_versions("ccc").is_empty());
}

#[test]
fn list_marks_playlists_that_were_never_fetched() {
    let mut db = Database::new();
    db.set_unique_empty_playlist("p1");
    db.set_unique_empty_playlist("p2");
    refresh_playlist(&mut db, "p2", 10, Ok(fetched("old name", &["a"]))).unwrap();
    refresh_playlist(&mut db, "p2", 20, Ok(fetched("new name", &["b"]))).unwrap();
    assert_eq!(
        list_playlists(&db),
        vec![
            Listing { id: "p1".to_string(), name: None, versions: 0 },
            Listing { id: "p2".to_string(), name: Some("new name".to_string()), versions: 2 },
        ]
    );
    assert_eq!(list_playlists(&Database::new()), Vec::new());
}

#[test]
fn history_shows_fetched_versions_with_their_positions() {
    let mut db = Database::new();
    db.set_unique_empty_playlist("p1");
    refresh_playlist(&mut db, "p1", 100, Ok(fetched("first name", &["a"]))).unwrap();
    refresh_playlist(&mut db, "p1", 200, Ok(fetched("second name", &["b"]))).unwrap();
    let expected = TrackedVersions {
        id: "p1".to_string(),
        name: Some("first name".to_string()),
        versions: vec![
            VersionLine { index: 1, timestamp: 100 },
            VersionLine { index: 2, timestamp: 200 },
        ],
    };
    assert_eq!(list_tracked_versions(&db, "p1"), Ok(expected));
}

#[test]
fn history_is_found_by_address_too() {
    let mut db = Database::new();
    db.set_unique_empty_playlist("abc123");
    refresh_playlist(&mut db, "abc123", 100, Ok(fetched("mix", &["a"]))).unwrap();
    let shown = list_tracked_versions(&db, "https://open.spotify.com/playlist/abc123").unwrap();
    assert_eq!(shown.id, "abc123");
    assert_eq!(shown.versions, vec![VersionLine { index: 1, timestamp: 100 }]);
}

#[test]
fn history_of_a_playlist_never_fetched_is_not_available() {
    let mut db = Database::new();
    db.set_unique_empty_playlist("p1");
    assert_eq!(list_tracked_versions(&db, "p1"), Err(HistoryError::HistoryNotAvailable));
    assert_eq!(list_tracked_versions(&db, "p2"), Err(HistoryError::UnknownPlaylist));
    assert_eq!(
        list_tracked_versions(&db, "no such thing"),
        Err(HistoryError::Input(InputError::UnrecognizedUrl))
    );
    assert_eq!(
        list_tracked_versions(&db, "https://open.spotify.com/playlist/a_b"),
        Err(HistoryError::Input(InputError::InvalidId))
    );
}

#[test]
fn history_without_placeholder_shows_every_version() {
    let mut db = Database::new();
    db.set_playlist(&Playlist::captured("p1".to_string(), fetched("mix", &["a"]), 7)).unwrap();
    let shown = list_tracked_versions(&db, "p1").unwrap();
    assert_eq!(shown.versions, vec![VersionLine { index: 0, timestamp: 7 }]);
    assert_eq!(shown.name, Some("mix".to_string()));
}

#[test]
fn selection_finds_nothing_at_the_placeholder_or_beyond() {
    let mut db = Database::new();
    db.set_unique_empty_playlist("p1");
    refresh_playlist(&mut db, "p1", 100, Ok(fetched("mix", &["a"]))).unwrap();
    assert_eq!(select_for_export(&db, "p1", 0), Err(SelectionError::SelectionNotFound));
    assert_eq!(select_for_export(&db, "p1", 2), Err(SelectionError::SelectionNotFound));
    assert_eq!(select_for_export(&db, "p9", 1), Err(SelectionError::SelectionNotFound));
    assert_eq!(
        select_for_export(&db, "p 1", 1),
        Err(SelectionError::Input(InputError::UnrecognizedUrl))
    );
    let found = select_for_export(&db, "https://open.spotify.com/playlist/p1", 1).unwrap();
    assert_eq!(found.count, 1);
    assert_eq!(found.id, "p1");
}

#[test]
fn store_if_changed_decides_on_the_fingerprint_it_is_given() {
    let mut db = Database::new();
    db.set_unique_empty_playlist("p1");
    let version = |timestamp: u64, sha256: [u8; 32]| Playlist {
        id: "p1".to_string(),
        sha256,
        timestamp,
        count: 0,
        data: Some(fetched("mix", &["a"])),
    };
    // Over the placeholder anything is stored, the all-zero fingerprint too.
    assert_eq!(store_if_changed(&mut db, &version(10, [0u8; 32])), Ok(Refresh::Stored));
    assert_eq!(store_if_changed(&mut db, &version(20, [0u8; 32])), Ok(Refresh::Unchanged));
    assert_eq!(store_if_changed(&mut db, &version(20, [1u8; 32])), Ok(Refresh::Stored));
    assert_eq!(store_if_changed(&mut db, &version(30, [1u8; 32])), Ok(Refresh::Unchanged));
    let mut last_byte_differs = [1u8; 32];
    last_byte_differs[31] = 2;
    assert_eq!(store_if_changed(&mut db, &version(30, last_byte_differs)), Ok(Refresh::Stored));
    assert_eq!(
        store_if_changed(&mut db, &version(30, [9u8; 32])),
        Err(RefreshError::Store(StoreError::WriteFailed))
    );
    // An older capture is put in its place and the newest stays the newest.
    assert_eq!(store_if_changed(&mut db, &version(5, [7u8; 32])), Ok(Refresh::Stored));
    assert_eq!(store_if_changed(&mut db, &version(40, last_byte_differs)), Ok(Refresh::Unchanged));
    let stored: Vec<(u64, u64)> = db
        .get_all_tracked_versions("p1")
        .iter()
        .map(|version| (version.count, version.timestamp))
        .collect();
    assert_eq!(stored, vec![(0, 0), (1, 5), (2, 10), (3, 20), (4, 30)]);
    let other = Playlist { id: "p2".to_string(), ..version(10, [1u8; 32]) };
    assert_eq!(store_if_changed(&mut db, &other), Err(RefreshError::NotTracked));
}
