use archify::ids::{
    checked_id, parse_url, playlist_from_segments, playlist_from_url, resolve_playlist, InputError,
};

fn segments(parts: &[&str]) -> Option<Vec<String>> {
    Some(parts.iter().map(|part| part.to_string()).collect())
}

#[test]
fn parse_url_reads_the_second_segment_of_a_playlist_address() {
    assert_eq!(
        parse_url("https://open.spotify.com/playlist/37i9dQZF1DXcBWIGoYBM5M"),
        Some("37i9dQZF1DXcBWIGoYBM5M".to_string())
    );
    assert_eq!(
        parse_url("https://open.spotify.com/playlist/37i9dQZF1DXcBWIGoYBM5M?si=abc#frag"),
        Some("37i9dQZF1DXcBWIGoYBM5M".to_string())
    );
    assert_eq!(
        parse_url("https://open.spotify.com/playlist/abc/more/segments"),
        Some("abc".to_string())
    );
    assert_eq!(parse_url("https://open.spotify.com/playlist/"), Some(String::new()));
}

#[test]
fn parse_url_refuses_what_is_no_playlist_address() {
    assert_eq!(parse_url("https://open.spotify.com/album/37i9dQZF1DXcBWIGoYBM5M"), None);
    assert_eq!(parse_url("https://open.spotify.com/playlist"), None);
    assert_eq!(parse_url("https://open.spotify.com"), None);
    assert_eq!(parse_url("37i9dQZF1DXcBWIGoYBM5M"), None);
    assert_eq!(parse_url(""), None);
    assert_eq!(parse_url("mailto:someone@example.com"), None);
    assert_eq!(parse_url("https://open.spotify.com/Playlist/abc"), None);
}

#[test]
fn playlist_from_segments_wants_playlist_first_and_an_id_second() {
    assert_eq!(playlist_from_segments(segments(&["playlist", "abc"])), Some("abc".to_string()));
    assert_eq!(playlist_from_segments(segments(&["playlist", "abc", "x"])), Some("abc".to_string()));
    assert_eq!(playlist_from_segments(segments(&["playlist"])), None);
    assert_eq!(playlist_from_segments(segments(&["track", "abc"])), None);
    assert_eq!(playlist_from_segments(segments(&[])), None);
    assert_eq!(playlist_from_segments(None), None);
}

#[test]
fn checked_id_accepts_letters_and_digits_only() {
    assert_eq!(checked_id(Some("abcXYZ019".to_string())), Ok("abcXYZ019".to_string()));
    assert_eq!(checked_id(Some(String::new())), Ok(String::new()));
    assert_eq!(checked_id(Some("abc-def".to_string())), Err(InputError::InvalidId));
    assert_eq!(checked_id(Some("abc def".to_string())), Err(InputError::InvalidId));
    assert_eq!(checked_id(Some("abcé".to_string())), Err(InputError::InvalidId));
    assert_eq!(checked_id(None), Err(InputError::UnrecognizedUrl));
}

#[test]
fn playlist_from_url_gives_each_error_its_input() {
    assert_eq!(
        playlist_from_url("https://open.spotify.com/playlist/0lbiy3LKzIY2fnyjioC11p"),
        Ok("0lbiy3LKzIY2fnyjioC11p".to_string())
    );
    assert_eq!(
        playlist_from_url("https://open.spotify.com/playlist/0lbiy3LK_IY2"),
        Err(InputError::InvalidId)
    );
    assert_eq!(
        playlist_from_url("https://open.spotify.com/show/0lbiy3LKzIY2fnyjioC11p"),
        Err(InputError::UnrecognizedUrl)
    );
    assert_eq!(playlist_from_url("0lbiy3LKzIY2fnyjioC11p"), Err(InputError::UnrecognizedUrl));
}

#[test]
fn resolve_takes_an_id_as_it_is_and_an_address_apart() {
    assert_eq!(resolve_playlist("0lbiy3LKzIY2fnyjioC11p"), Ok("0lbiy3LKzIY2fnyjioC11p".to_string()));
    assert_eq!(
        resolve_playlist("https://open.spotify.com/playlist/0lbiy3LKzIY2fnyjioC11p"),
        Ok("0lbiy3LKzIY2fnyjioC11p".to_string())
    );
    assert_eq!(resolve_playlist("not-an-id"), Err(InputError::UnrecognizedUrl));
    assert_eq!(
        resolve_playlist("https://open.spotify.com/playlist/not-an-id"),
        Err(InputError::InvalidId)
    );
}
