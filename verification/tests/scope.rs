use spotify_oauth::{ErrorKind, SpotifyAuth, SpotifyScope};

fn every_scope() -> Vec<(SpotifyScope, &'static str)> {
    vec![
        (SpotifyScope::UserReadRecentlyPlayed, "user-read-recently-played"),
        (SpotifyScope::UserTopRead, "user-top-read"),
        (SpotifyScope::UserLibraryModify, "user-library-modify"),
        (SpotifyScope::UserLibraryRead, "user-library-read"),
        (SpotifyScope::PlaylistReadPrivate, "playlist-read-private"),
        (SpotifyScope::PlaylistModifyPublic, "playlist-modify-public"),
        (SpotifyScope::PlaylistModifyPrivate, "playlist-modify-private"),
        (SpotifyScope::PlaylistReadCollaborative, "playlist-read-collaborative"),
        (SpotifyScope::UserReadEmail, "user-read-email"),
        (SpotifyScope::UserReadBirthDate, "user-read-birthdate"),
        (SpotifyScope::UserReadPrivate, "user-read-private"),
        (SpotifyScope::UserReadPlaybackState, "user-read-playback-state"),
        (SpotifyScope::UserModifyPlaybackState, "user-modify-playback-state"),
        (SpotifyScope::UserReadCurrentlyPlaying, "user-read-currently-playing"),
        (SpotifyScope::AppRemoteControl, "app-remote-control"),
        (SpotifyScope::Streaming, "streaming"),
        (SpotifyScope::UserFollowRead, "user-follow-read"),
        (SpotifyScope::UserFollowModify, "user-follow-modify"),
    ]
}

#[test]
fn scope_reads_from_its_name() {
    let scope = SpotifyScope::from_str("streaming").unwrap();
    assert_eq!(scope, SpotifyScope::Streaming);
    assert_eq!(scope.to_string(), "streaming");
    assert_eq!(SpotifyScope::Streaming, scope);
}

#[test]
fn scope_names_are_fixed() {
    for (scope, name) in every_scope() {
        assert_eq!(scope.to_string(), name);
        assert_eq!(scope.as_str(), name);
        assert_eq!(SpotifyScope::from_str(name).unwrap(), scope);
    }
}

#[test]
fn scope_round_trip() {
    for (_, name) in every_scope() {
        let first = SpotifyScope::from_str(name).unwrap();
        let second = SpotifyScope::from_str(&first.to_string()).unwrap();
        assert_eq!(first, second);
    }
}

#[test]
fn scope_names_differ() {
    let all = every_scope();
    for (i, (_, a)) in all.iter().enumerate() {
        for (j, (_, b)) in all.iter().enumerate() {
            assert_eq!(a == b, i == j);
        }
    }
}

#[test]
fn unknown_scope_is_an_error() {
    for name in [
        "",
        "Streaming",
        "streaming ",
        " streaming",
        "stream",
        "streamingx",
        "user_read_email",
        "user-read-birthday",
        "user-read-email user-read-private",
        "UserReadEmail",
    ] {
        let error = SpotifyScope::from_str(name).unwrap_err();
        assert_eq!(error.kind(), ErrorKind::ParsingFailed);
        assert_eq!(error.context(), Some("unknown scope"));
        assert!(error.cause().is_none());
    }
}

#[test]
fn join_of_nothing_is_empty() {
    assert_eq!(SpotifyScope::join(&vec![]), "");
}

#[test]
fn join_of_one_is_its_name() {
    assert_eq!(SpotifyScope::join(&vec![SpotifyScope::Streaming]), "streaming");
}

#[test]
fn join_keeps_the_order() {
    let scopes = vec![
        SpotifyScope::UserReadPrivate,
        SpotifyScope::Streaming,
        SpotifyScope::UserReadEmail,
        SpotifyScope::Streaming,
    ];
    assert_eq!(
        SpotifyScope::join(&scopes),
        "user-read-private streaming user-read-email streaming"
    );
}

#[test]
fn scope_into_string_joins_the_scopes() {
    let auth = SpotifyAuth::new(
        "00000000000".into(),
        "secret".into(),
        "code".into(),
        "http://localhost:8000/callback".into(),
        vec![SpotifyScope::Streaming],
        false,
    )
    .unwrap();
    assert_eq!(auth.scope_into_string(), "streaming");

    let auth = SpotifyAuth::new(
        "00000000000".into(),
        "secret".into(),
        "code".into(),
        "http://localhost:8000/callback".into(),
        vec![SpotifyScope::UserTopRead, SpotifyScope::AppRemoteControl],
        false,
    )
    .unwrap();
    assert_eq!(auth.scope_into_string(), "user-top-read app-remote-control");
}
