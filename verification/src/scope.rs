//! The permissions that an application can ask for.

use vstd::prelude::*;
use vstd::string::*;

use crate::error::{outcome_is, ErrorKind, ErrorView, SpotifyError};
use crate::text::{is_space, str_eq};

verus! {

/// A permission of the Spotify Web API.
///
/// Each scope has one name on the wire, a lower-case word with hyphens, and no two
/// scopes share a name.
#[derive(Debug, Clone, Copy, PartialEq, Eq, Structural)]
pub enum SpotifyScope {
    UserReadRecentlyPlayed,
    UserTopRead,
    UserLibraryModify,
    UserLibraryRead,
    PlaylistReadPrivate,
    PlaylistModifyPublic,
    PlaylistModifyPrivate,
    PlaylistReadCollaborative,
    UserReadEmail,
    UserReadBirthDate,
    UserReadPrivate,
    UserReadPlaybackState,
    UserModifyPlaybackState,
    UserReadCurrentlyPlaying,
    AppRemoteControl,
    Streaming,
    UserFollowRead,
    UserFollowModify,
}

impl View for SpotifyScope {
    type V = SpotifyScope;

    open spec fn view(&self) -> SpotifyScope {
        *self
    }
}

/// The scope whose name on the wire is `name`, where there is one.
pub open spec fn scope_named(name: Seq<char>) -> Option<SpotifyScope> {
    if exists|scope: SpotifyScope| scope.wire() == name {
        Some(choose|scope: SpotifyScope| scope.wire() == name)
    } else {
        None
    }
}

/// What [`SpotifyScope::from_str`] returns for a text.
pub open spec fn scope_of_text(name: Seq<char>) -> Result<SpotifyScope, ErrorView> {
    match scope_named(name) {
        Some(scope) => Ok(scope),
        None => Err(ErrorView::plain(ErrorKind::ParsingFailed, "unknown scope"@)),
    }
}

/// The names of the given scopes, in their order, with one space between two
/// neighbours.
pub open spec fn joined(scopes: Seq<SpotifyScope>) -> Seq<char>
    decreases scopes.len(),
{
    if scopes.len() == 0 {
        Seq::empty()
    } else if scopes.len() == 1 {
        scopes[0].wire()
    } else {
        joined(scopes.drop_last()) + seq![' '] + scopes.last().wire()
    }
}

impl SpotifyScope {
    /// The scope's name on the wire.
    pub open spec fn wire(self) -> Seq<char> {
        match self {
            SpotifyScope::UserReadRecentlyPlayed => "user-read-recently-played"@,
            SpotifyScope::UserTopRead => "user-top-read"@,
            SpotifyScope::UserLibraryModify => "user-library-modify"@,
            SpotifyScope::UserLibraryRead => "user-library-read"@,
            SpotifyScope::PlaylistReadPrivate => "playlist-read-private"@,
            SpotifyScope::PlaylistModifyPublic => "playlist-modify-public"@,
            SpotifyScope::PlaylistModifyPrivate => "playlist-modify-private"@,
            SpotifyScope::PlaylistReadCollaborative => "playlist-read-collaborative"@,
            SpotifyScope::UserReadEmail => "user-read-email"@,
            SpotifyScope::UserReadBirthDate => "user-read-birthdate"@,
            SpotifyScope::UserReadPrivate => "user-read-private"@,
            SpotifyScope::UserReadPlaybackState => "user-read-playback-state"@,
            SpotifyScope::UserModifyPlaybackState => "user-modify-playback-state"@,
            SpotifyScope::UserReadCurrentlyPlaying => "user-read-currently-playing"@,
            SpotifyScope::AppRemoteControl => "app-remote-control"@,
            SpotifyScope::Streaming => "streaming"@,
            SpotifyScope::UserFollowRead => "user-follow-read"@,
            SpotifyScope::UserFollowModify => "user-follow-modify"@,
        }
    }

    /// The scope's name on the wire.
    pub fn as_str(&self) -> (name: &'static str)
        ensures
            name@ == self.wire(),
    {
        match self {
            SpotifyScope::UserReadRecentlyPlayed => "user-read-recently-played",
            SpotifyScope::UserTopRead => "user-top-read",
            SpotifyScope::UserLibraryModify => "user-library-modify",
            SpotifyScope::UserLibraryRead => "user-library-read",
            SpotifyScope::PlaylistReadPrivate => "playlist-read-private",
            SpotifyScope::PlaylistModifyPublic => "playlist-modify-public",
            SpotifyScope::PlaylistModifyPrivate => "playlist-modify-private",
            SpotifyScope::PlaylistReadCollaborative => "playlist-read-collaborative",
            SpotifyScope::UserReadEmail => "user-read-email",
            SpotifyScope::UserReadBirthDate => "user-read-birthdate",
            SpotifyScope::UserReadPrivate => "user-read-private",
            SpotifyScope::UserReadPlaybackState => "user-read-playback-state",
            SpotifyScope::UserModifyPlaybackState => "user-modify-playback-state",
            SpotifyScope::UserReadCurrentlyPlaying => "user-read-currently-playing",
            SpotifyScope::AppRemoteControl => "app-remote-control",
            SpotifyScope::Streaming => "streaming",
            SpotifyScope::UserFollowRead => "user-follow-read",
            SpotifyScope::UserFollowModify => "user-follow-modify",
        }
    }

    /// The scope's name on the wire, as an owned string.
    pub fn to_string(&self) -> (name: String)
        ensures
            name@ == self.wire(),
    {
        self.as_str().to_owned()
    }

    /// Reads a scope from its name on the wire. Any other text is an error.
    pub fn from_str(s: &str) -> (parsed: Result<SpotifyScope, SpotifyError>)
        ensures
            outcome_is(parsed, scope_of_text(s@)),
            parsed is Ok <==> exists|scope: SpotifyScope| scope.wire() == s@,
    {
        let scopes = every_scope();
        let mut i: usize = 0;
        while i < scopes.len()
            invariant
                i <= scopes.len(),
                forall|scope: SpotifyScope| scopes@.contains(scope),
                forall|j: int| 0 <= j < i ==> (#[trigger] scopes@[j]).wire() != s@,
            decreases scopes.len() - i,
        {
            let scope = scopes[i];
            if str_eq(scope.as_str(), s) {
                proof {
                    lemma_wire_names_differ();
                }
                return Ok(scope);
            }
            i += 1;
        }
        assert forall|scope: SpotifyScope| scope.wire() != s@ by {
            assert(scopes@.contains(scope));
        }
        Err(SpotifyError::plain(ErrorKind::ParsingFailed, "unknown scope"))
    }

    /// The names of the given scopes with one space between two neighbours; the
    /// empty string for no scope.
    pub fn join(scopes: &[SpotifyScope]) -> (text: String)
        ensures
            text@ == joined(scopes@),
    {
        let mut text = String::new();
        let mut i: usize = 0;
        while i < scopes.len()
            invariant
                i <= scopes.len(),
                text@ == joined(scopes@.take(i as int)),
            decreases scopes.len() - i,
        {
            proof {
                assert(scopes@.take(i as int + 1).drop_last() =~= scopes@.take(i as int));
                reveal_strlit(" ");
                assert(" "@ =~= seq![' ']);
            }
            if i > 0 {
                text.append(" ");
            }
            text.append(scopes[i].as_str());
            i += 1;
        }
        assert(scopes@.take(scopes.len() as int) =~= scopes@);
        text
    }
}

/// Every scope, in the order of the declaration.
fn every_scope() -> (scopes: Vec<SpotifyScope>)
    ensures
        forall|scope: SpotifyScope| scopes@.contains(scope),
{
    let scopes = vec![
        SpotifyScope::UserReadRecentlyPlayed,
        SpotifyScope::UserTopRead,
        SpotifyScope::UserLibraryModify,
        SpotifyScope::UserLibraryRead,
        SpotifyScope::PlaylistReadPrivate,
        SpotifyScope::PlaylistModifyPublic,
        SpotifyScope::PlaylistModifyPrivate,
        SpotifyScope::PlaylistReadCollaborative,
        SpotifyScope::UserReadEmail,
        SpotifyScope::UserReadBirthDate,
        SpotifyScope::UserReadPrivate,
        SpotifyScope::UserReadPlaybackState,
        SpotifyScope::UserModifyPlaybackState,
        SpotifyScope::UserReadCurrentlyPlaying,
        SpotifyScope::AppRemoteControl,
        SpotifyScope::Streaming,
        SpotifyScope::UserFollowRead,
        SpotifyScope::UserFollowModify,
    ];
    assert forall|scope: SpotifyScope| scopes@.contains(scope) by {
        assert(scopes@[0] == scope || scopes@[1] == scope || scopes@[2] == scope || scopes@[3]
            == scope || scopes@[4] == scope || scopes@[5] == scope || scopes@[6] == scope
            || scopes@[7] == scope || scopes@[8] == scope || scopes@[9] == scope || scopes@[10]
            == scope || scopes@[11] == scope || scopes@[12] == scope || scopes@[13] == scope
            || scopes@[14] == scope || scopes@[15] == scope || scopes@[16] == scope || scopes@[17]
            == scope);
    }
    scopes
}

/// The length of a scope's name and two of its characters: enough to tell any two
/// scopes apart.
spec fn wire_mark(scope: SpotifyScope) -> (nat, char, char) {
    match scope {
        SpotifyScope::UserReadRecentlyPlayed => (25, 'u', 'r'),
        SpotifyScope::UserTopRead => (13, 'u', 't'),
        SpotifyScope::UserLibraryModify => (19, 'u', 'l'),
        SpotifyScope::UserLibraryRead => (17, 'u', 'l'),
        SpotifyScope::PlaylistReadPrivate => (21, 'p', 'i'),
        SpotifyScope::PlaylistModifyPublic => (22, 'p', 'i'),
        SpotifyScope::PlaylistModifyPrivate => (23, 'p', 'i'),
        SpotifyScope::PlaylistReadCollaborative => (27, 'p', 'i'),
        SpotifyScope::UserReadEmail => (15, 'u', 'r'),
        SpotifyScope::UserReadBirthDate => (19, 'u', 'r'),
        SpotifyScope::UserReadPrivate => (17, 'u', 'r'),
        SpotifyScope::UserReadPlaybackState => (24, 'u', 'r'),
        SpotifyScope::UserModifyPlaybackState => (26, 'u', 'm'),
        SpotifyScope::UserReadCurrentlyPlaying => (27, 'u', 'r'),
        SpotifyScope::AppRemoteControl => (18, 'a', 'e'),
        SpotifyScope::Streaming => (9, 's', 'm'),
        SpotifyScope::UserFollowRead => (16, 'u', 'f'),
        SpotifyScope::UserFollowModify => (18, 'u', 'f'),
    }
}

proof fn lemma_wire_mark(scope: SpotifyScope)
    ensures
        wire_mark(scope) == (scope.wire().len(), scope.wire()[0], scope.wire()[5]),
{
    reveal_strlit("user-read-recently-played");
    reveal_strlit("user-top-read");
    reveal_strlit("user-library-modify");
    reveal_strlit("user-library-read");
    reveal_strlit("playlist-read-private");
    reveal_strlit("playlist-modify-public");
    reveal_strlit("playlist-modify-private");
    reveal_strlit("playlist-read-collaborative");
    reveal_strlit("user-read-email");
    reveal_strlit("user-read-birthdate");
    reveal_strlit("user-read-private");
    reveal_strlit("user-read-playback-state");
    reveal_strlit("user-modify-playback-state");
    reveal_strlit("user-read-currently-playing");
    reveal_strlit("app-remote-control");
    reveal_strlit("streaming");
    reveal_strlit("user-follow-read");
    reveal_strlit("user-follow-modify");
}

/// No two scopes share a name on the wire.
pub proof fn lemma_wire_names_differ()
    ensures
        forall|a: SpotifyScope, b: SpotifyScope| a.wire() == b.wire() ==> a == b,
{
    assert forall|a: SpotifyScope, b: SpotifyScope| a.wire() == b.wire() implies a == b by {
        lemma_wire_mark(a);
        lemma_wire_mark(b);
    }
}

/// A scope's name on the wire is one word: it is not empty and holds no white
/// space.
pub proof fn lemma_wire_name_is_a_word(scope: SpotifyScope)
    ensures
        scope.wire().len() > 0,
        forall|j: int| 0 <= j < scope.wire().len() ==> !is_space(#[trigger] scope.wire()[j]),
{
    reveal_strlit("user-read-recently-played");
    reveal_strlit("user-top-read");
    reveal_strlit("user-library-modify");
    reveal_strlit("user-library-read");
    reveal_strlit("playlist-read-private");
    reveal_strlit("playlist-modify-public");
    reveal_strlit("playlist-modify-private");
    reveal_strlit("playlist-read-collaborative");
    reveal_strlit("user-read-email");
    reveal_strlit("user-read-birthdate");
    reveal_strlit("user-read-private");
    reveal_strlit("user-read-playback-state");
    reveal_strlit("user-modify-playback-state");
    reveal_strlit("user-read-currently-playing");
    reveal_strlit("app-remote-control");
    reveal_strlit("streaming");
    reveal_strlit("user-follow-read");
    reveal_strlit("user-follow-modify");
}

/// Reading a scope's name on the wire gives the scope back.
pub proof fn lemma_parse_inverts_wire(scope: SpotifyScope)
    ensures
        scope_named(scope.wire()) == Some(scope),
        scope_of_text(scope.wire()) == Ok::<SpotifyScope, ErrorView>(scope),
{
    lemma_wire_names_differ();
}

/// A text that reads as a scope is that scope's name on the wire, so that writing
/// the scope and reading it again gives what the first reading gave.
pub proof fn lemma_parse_round_trip(name: Seq<char>)
    requires
        scope_named(name) is Some,
    ensures
        scope_named(name)->0.wire() == name,
        scope_named(scope_named(name)->0.wire()) == scope_named(name),
{
}

/// A text that is no scope's name on the wire does not read as a scope.
pub proof fn lemma_unknown_name_fails(name: Seq<char>)
    requires
        forall|scope: SpotifyScope| scope.wire() != name,
    ensures
        scope_named(name) is None,
        scope_of_text(name) is Err,
{
}

} // verus!
