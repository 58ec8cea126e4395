use spotify_oauth::{generate_random_string, ErrorCause, ErrorKind, SpotifyAuth, SpotifyError, SpotifyScope};

fn sample(state: &str, scope: Vec<SpotifyScope>, show_dialog: bool) -> SpotifyAuth {
    SpotifyAuth::with_state(
        "00000000000".into(),
        "secret".into(),
        "code".into(),
        "http://localhost:8000/callback".into(),
        state.into(),
        scope,
        show_dialog,
    )
    .unwrap()
}

#[test]
fn new_keeps_its_arguments() {
    let auth = SpotifyAuth::new(
        "00000000000".into(),
        "secret".into(),
        "code".into(),
        "http://localhost:8000/callback".into(),
        vec![SpotifyScope::Streaming],
        true,
    )
    .unwrap();
    assert_eq!(auth.client_id, "00000000000");
    assert_eq!(auth.client_secret, "secret");
    assert_eq!(auth.response_type, "code");
    assert_eq!(auth.redirect_uri.as_str(), "http://localhost:8000/callback");
    assert_eq!(auth.scope, vec![SpotifyScope::Streaming]);
    assert!(auth.show_dialog);
}

#[test]
fn new_makes_a_state_of_twenty_letters_and_digits() {
    let auth = SpotifyAuth::new(
        "id".into(),
        "secret".into(),
        "code".into(),
        "http://localhost:8000/callback".into(),
        vec![],
        false,
    )
    .unwrap();
    assert_eq!(auth.state.chars().count(), 20);
    assert!(auth.state.chars().all(|c| c.is_ascii_alphanumeric()));
}

#[test]
fn new_refuses_a_malformed_redirect() {
    for redirect in ["", "localhost/callback", "/callback", "http://", "://x", "http://[::1"] {
        let error = SpotifyAuth::new(
            "id".into(),
            "secret".into(),
            "code".into(),
            redirect.into(),
            vec![SpotifyScope::Streaming],
            false,
        )
        .err()
        .unwrap();
        assert_eq!(error.kind(), ErrorKind::ParsingFailed);
        assert_eq!(error.context(), Some("redirect URI failed to parse"));
        assert!(matches!(error.cause(), Some(ErrorCause::Url(_))));
    }
}

fn query_of(address: &str) -> Vec<(String, String)> {
    url::Url::parse(address).unwrap().query_pairs().into_owned().collect()
}

#[test]
fn two_requests_differ_in_their_state_only() {
    let make = || {
        SpotifyAuth::new(
            "00000000000".into(),
            "secret".into(),
            "code".into(),
            "http://localhost:8000/callback".into(),
            vec![SpotifyScope::Streaming, SpotifyScope::UserReadEmail],
            false,
        )
        .unwrap()
    };
    let first = make();
    let second = make();
    assert_ne!(first.state, second.state);

    let a = query_of(&first.authorize_url().unwrap());
    let b = query_of(&second.authorize_url().unwrap());
    assert_eq!(a.len(), 6);
    assert_eq!(b.len(), 6);
    for i in 0..6 {
        if i == 3 {
            assert_eq!(a[i], ("state".to_string(), first.state.clone()));
            assert_eq!(b[i], ("state".to_string(), second.state.clone()));
        } else {
            assert_eq!(a[i], b[i]);
        }
    }
}

#[test]
fn authorize_url_is_written_in_a_fixed_order() {
    let auth = sample("abcdefghij0123456789", vec![SpotifyScope::Streaming], false);
    assert_eq!(
        auth.authorize_url().unwrap(),
        "https://accounts.spotify.com/authorize?client_id=00000000000&response_type=code&redirect_uri=http%3A%2F%2Flocalhost%3A8000%2Fcallback&state=abcdefghij0123456789&scope=streaming&show_dialog=false"
    );
}

#[test]
fn authorize_url_encodes_its_values() {
    let auth = SpotifyAuth::with_state(
        "my id&x=1".into(),
        "secret".into(),
        "code token".into(),
        "https://example.com/cb?next=/home".into(),
        "Été+hiver".into(),
        vec![SpotifyScope::UserReadPrivate, SpotifyScope::UserReadEmail],
        true,
    )
    .unwrap();
    assert_eq!(
        auth.authorize_url().unwrap(),
        "https://accounts.spotify.com/authorize?client_id=my+id%26x%3D1&response_type=code+token&redirect_uri=https%3A%2F%2Fexample.com%2Fcb%3Fnext%3D%2Fhome&state=%C3%89t%C3%A9%2Bhiver&scope=user-read-private+user-read-email&show_dialog=true"
    );
}

#[test]
fn authorize_url_reads_back() {
    let auth = sample("sN", vec![SpotifyScope::UserTopRead, SpotifyScope::Streaming], true);
    let pairs = query_of(&auth.authorize_url().unwrap());
    let expected: Vec<(String, String)> = vec![
        ("client_id".into(), "00000000000".into()),
        ("response_type".into(), "code".into()),
        ("redirect_uri".into(), "http://localhost:8000/callback".into()),
        ("state".into(), "sN".into()),
        ("scope".into(), "user-top-read streaming".into()),
        ("show_dialog".into(), "true".into()),
    ];
    assert_eq!(pairs, expected);
}

#[test]
fn query_params_come_in_a_fixed_order() {
    let auth = sample("sN", vec![SpotifyScope::UserTopRead, SpotifyScope::Streaming], false);
    let expected: Vec<(String, String)> = vec![
        ("client_id".into(), "00000000000".into()),
        ("response_type".into(), "code".into()),
        ("redirect_uri".into(), "http://localhost:8000/callback".into()),
        ("state".into(), "sN".into()),
        ("scope".into(), "user-top-read streaming".into()),
        ("show_dialog".into(), "false".into()),
    ];
    assert_eq!(auth.query_params(), expected);
}

#[test]
fn authorize_url_with_no_scope() {
    let auth = sample("sN", vec![], false);
    assert_eq!(
        auth.authorize_url().unwrap(),
        "https://accounts.spotify.com/authorize?client_id=00000000000&response_type=code&redirect_uri=http%3A%2F%2Flocalhost%3A8000%2Fcallback&state=sN&scope=&show_dialog=false"
    );
}

#[test]
fn with_state_keeps_the_state() {
    let auth = sample("fixed", vec![], false);
    assert_eq!(auth.state, "fixed");
    let error = SpotifyAuth::with_state(
        "id".into(),
        "secret".into(),
        "code".into(),
        "nowhere".into(),
        "fixed".into(),
        vec![],
        false,
    )
    .err()
    .unwrap();
    assert_eq!(error.kind(), ErrorKind::ParsingFailed);
}

#[test]
fn redirect_is_kept_as_url_writes_it() {
    let auth = SpotifyAuth::with_state(
        "id".into(),
        "secret".into(),
        "code".into(),
        "HTTP://LOCALHOST:80/a b".into(),
        "s".into(),
        vec![],
        false,
    )
    .unwrap();
    assert_eq!(auth.redirect_uri.as_str(), "http://localhost/a%20b");
}

#[test]
fn with_defaults_fills_the_gaps() {
    let auth = SpotifyAuth::with_defaults(None, "secret".into(), None).unwrap();
    assert_eq!(auth.client_id, "INVALID_ID");
    assert_eq!(auth.client_secret, "secret");
    assert_eq!(auth.response_type, "code");
    assert_eq!(auth.redirect_uri.as_str(), "http://localhost:8000/callback");
    assert_eq!(auth.state.chars().count(), 20);
    assert_eq!(auth.scope, vec![]);
    assert!(!auth.show_dialog);

    let auth =
        SpotifyAuth::with_defaults(Some("abc".into()), "secret".into(), Some("https://example.com/cb".into()))
            .unwrap();
    assert_eq!(auth.client_id, "abc");
    assert_eq!(auth.redirect_uri.as_str(), "https://example.com/cb");

    let error = SpotifyAuth::with_defaults(None, "secret".into(), Some("nowhere".into())).err().unwrap();
    assert_eq!(error.kind(), ErrorKind::ParsingFailed);
}

#[test]
fn random_string_has_the_length_asked_for() {
    for length in [0usize, 1, 20, 257] {
        let text = generate_random_string(length);
        assert_eq!(text.chars().count(), length);
        assert_eq!(text.len(), length);
        assert!(text.chars().all(|c| c.is_ascii_alphanumeric()));
    }
}

#[test]
fn random_strings_differ() {
    assert_ne!(generate_random_string(20), generate_random_string(20));
}

#[test]
fn error_is_built_step_by_step() {
    let error = SpotifyError::new(ErrorKind::RequestFailed);
    assert_eq!(error.kind(), ErrorKind::RequestFailed);
    assert_eq!(error.context(), None);
    assert!(error.cause().is_none());

    let error = error.set_context("first").set_cause(ErrorCause::Other("inner".to_string()));
    assert_eq!(error.kind(), ErrorKind::RequestFailed);
    assert_eq!(error.context(), Some("first"));
    assert!(matches!(error.cause(), Some(ErrorCause::Other(message)) if message == "inner"));

    let error = error.set_context("second");
    assert_eq!(error.context(), Some("second"));
    assert!(matches!(error.cause(), Some(ErrorCause::Other(_))));
}

#[test]
fn error_is_built_at_once() {
    let error = SpotifyError::plain(ErrorKind::ParsingFailed, "missing code");
    assert_eq!(error.kind(), ErrorKind::ParsingFailed);
    assert_eq!(error.context(), Some("missing code"));
    assert!(error.cause().is_none());

    let error =
        SpotifyError::caused(ErrorKind::RequestFailed, "token request failed", ErrorCause::Other("x".into()));
    assert_eq!(error.kind(), ErrorKind::RequestFailed);
    assert_eq!(error.context(), Some("token request failed"));
    assert!(matches!(error.cause(), Some(ErrorCause::Other(message)) if message == "x"));
}

#[test]
fn error_is_shown_in_one_line() {
    assert_eq!(SpotifyError::new(ErrorKind::ParsingFailed).to_string(), "parsing failed");
    assert_eq!(SpotifyError::new(ErrorKind::RequestFailed).to_string(), "request failed");
    assert_eq!(
        SpotifyError::new(ErrorKind::InvalidCallbackURL).set_context("no state parameter").to_string(),
        "invalid callback URL: no state parameter"
    );
    assert_eq!(
        SpotifyError::new(ErrorKind::RequestFailed)
            .set_cause(ErrorCause::Other("refused".to_string()))
            .set_context("token request failed")
            .to_string(),
        "request failed: token request failed"
    );
    assert_eq!(ErrorKind::InvalidCallbackURL.as_str(), "invalid callback URL");
}

#[test]
fn error_kinds_differ() {
    assert_ne!(ErrorKind::ParsingFailed, ErrorKind::RequestFailed);
    assert_ne!(ErrorKind::ParsingFailed, ErrorKind::InvalidCallbackURL);
    assert_ne!(ErrorKind::RequestFailed, ErrorKind::InvalidCallbackURL);
}
