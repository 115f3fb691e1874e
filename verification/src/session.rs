//! Entries of a media server's session list, and the choice among them.

use crate::snapshot::{Media, MediaSnapshot};
use vstd::prelude::*;
use vstd::string::*;

verus! {

/// What a session says of the item it is playing. A field is `None` where the
/// server left it out or gave it another type than expected.
#[derive(Debug, PartialEq, Eq)]
pub struct NowPlayingItem {
    /// The item's own title.
    pub name: Option<String>,
    /// The item's type, such as `Episode` or `Movie`.
    pub kind: Option<String>,
    /// The series that an episode belongs to.
    pub series_name: Option<String>,
    /// The season's number.
    pub season: Option<i64>,
    /// The episode's number within its season.
    pub episode: Option<i64>,
}

/// The mathematical value of a [`NowPlayingItem`].
pub struct Item {
    pub name: Option<Seq<char>>,
    pub kind: Option<Seq<char>>,
    pub series_name: Option<Seq<char>>,
    pub season: Option<i64>,
    pub episode: Option<i64>,
}

/// The characters of an optional text.
pub open spec fn chars_of(text: Option<String>) -> Option<Seq<char>> {
    match text {
        Some(s) => Some(s@),
        None => None,
    }
}

impl View for NowPlayingItem {
    type V = Item;

    open spec fn view(&self) -> Item {
        Item {
            name: chars_of(self.name),
            kind: chars_of(self.kind),
            series_name: chars_of(self.series_name),
            season: self.season,
            episode: self.episode,
        }
    }
}

/// One entry of the session list.
#[derive(Debug, PartialEq, Eq)]
pub struct SessionEntry {
    /// The user that the session belongs to.
    pub user_name: Option<String>,
    /// What the session is playing, if anything.
    pub now_playing: Option<NowPlayingItem>,
}

/// The mathematical value of a [`SessionEntry`].
pub struct Session {
    pub user_name: Option<Seq<char>>,
    pub now_playing: Option<Item>,
}

impl View for SessionEntry {
    type V = Session;

    open spec fn view(&self) -> Session {
        Session {
            user_name: chars_of(self.user_name),
            now_playing: match self.now_playing {
                Some(item) => Some(item@),
                None => None,
            },
        }
    }
}

/// The values of a list of entries, in order.
pub open spec fn sessions_of(entries: Seq<SessionEntry>) -> Seq<Session> {
    Seq::new(entries.len(), |i: int| entries[i]@)
}

/// A text that is there and not empty.
pub open spec fn filled(text: Option<Seq<char>>) -> bool {
    text is Some && text->0.len() > 0
}

impl Item {
    /// An episode with everything that an episode needs.
    pub open spec fn is_full_episode(self) -> bool {
        &&& self.kind == Some("Episode"@)
        &&& filled(self.series_name)
        &&& filled(self.name)
        &&& self.season is Some
        &&& self.episode is Some
    }

    /// A film with a title.
    pub open spec fn is_full_movie(self) -> bool {
        &&& self.kind == Some("Movie"@)
        &&& filled(self.name)
    }

    /// The snapshot that the item stands for: an episode or a film where all
    /// that the variant needs is there, and idle in every other case.
    pub open spec fn snapshot(self) -> Media {
        if self.is_full_episode() {
            Media::Episode {
                series: self.series_name->0,
                episode_title: self.name->0,
                season_number: self.season->0 as int,
                episode_number: self.episode->0 as int,
            }
        } else if self.is_full_movie() {
            Media::Movie { title: self.name->0 }
        } else {
            Media::Idle
        }
    }
}

impl Session {
    /// The session belongs to `user` and is playing something.
    pub open spec fn matches(self, user: Seq<char>) -> bool {
        self.user_name == Some(user) && self.now_playing is Some
    }
}

/// The snapshot for `user`: that of the first session in the list that
/// matches, and idle where none does.
pub open spec fn snapshot_for(sessions: Seq<Session>, user: Seq<char>) -> Media
    decreases sessions.len(),
{
    if sessions.len() == 0 {
        Media::Idle
    } else if sessions[0].matches(user) {
        sessions[0].now_playing->0.snapshot()
    } else {
        snapshot_for(sessions.drop_first(), user)
    }
}

/// Whether a text is there and reads exactly `word`.
fn reads(text: &Option<String>, word: &str) -> (yes: bool)
    ensures
        yes == (chars_of(*text) == Some(word@)),
{
    match text {
        Some(s) => {
            let wanted = String::from_str(word);
            *s == wanted
        },
        None => false,
    }
}

impl NowPlayingItem {
    /// Classifies the item: see [`Item::snapshot`].
    pub fn snapshot(&self) -> (snapshot: MediaSnapshot)
        ensures
            snapshot@ == self@.snapshot(),
            snapshot@.complete(),
    {
        if reads(&self.kind, "Episode") {
            proof {
                different_kinds();
            }
            match (&self.series_name, &self.name, self.season, self.episode) {
                (Some(series), Some(name), Some(season), Some(episode)) => {
                    if series.as_str().is_empty() || name.as_str().is_empty() {
                        MediaSnapshot::Idle
                    } else {
                        MediaSnapshot::Episode {
                            series: series.clone(),
                            episode_title: name.clone(),
                            season_number: season,
                            episode_number: episode,
                        }
                    }
                },
                _ => MediaSnapshot::Idle,
            }
        } else if reads(&self.kind, "Movie") {
            match &self.name {
                Some(name) => {
                    if name.as_str().is_empty() {
                        MediaSnapshot::Idle
                    } else {
                        MediaSnapshot::Movie { title: name.clone() }
                    }
                },
                None => MediaSnapshot::Idle,
            }
        } else {
            MediaSnapshot::Idle
        }
    }
}

/// The two types that are shown differ.
pub proof fn different_kinds()
    ensures
        "Episode"@ != "Movie"@,
{
    reveal_strlit("Episode");
    reveal_strlit("Movie");
    assert("Movie"@.len() == 5);
}

impl SessionEntry {
    /// Whether the session belongs to `user` and is playing something.
    pub fn matches(&self, user: &str) -> (yes: bool)
        ensures
            yes == self@.matches(user@),
    {
        reads(&self.user_name, user) && self.now_playing.is_some()
    }
}

/// Picks the snapshot for `user` out of a session list.
pub fn select_snapshot(entries: &Vec<SessionEntry>, user: &str) -> (snapshot: MediaSnapshot)
    ensures
        snapshot@ == snapshot_for(sessions_of(entries@), user@),
        snapshot@.complete(),
{
    let ghost all = sessions_of(entries@);
    let mut i: usize = 0;
    assert(all.skip(0) =~= all);
    while i < entries.len()
        invariant
            i <= entries.len(),
            all == sessions_of(entries@),
            snapshot_for(all, user@) == snapshot_for(all.skip(i as int), user@),
        decreases entries.len() - i,
    {
        let entry = &entries[i];
        proof {
            let rest = all.skip(i as int);
            assert(rest.drop_first() =~= all.skip(i + 1));
        }
        if entry.matches(user) {
            match &entry.now_playing {
                Some(item) => {
                    return item.snapshot();
                },
                None => {},
            }
        }
        i = i + 1;
    }
    MediaSnapshot::Idle
}

/// Whatever the list, the snapshot is that of the first matching session.
pub proof fn first_match_decides(sessions: Seq<Session>, user: Seq<char>, at: int)
    requires
        0 <= at < sessions.len(),
        sessions[at].matches(user),
        forall|j: int| 0 <= j < at ==> !sessions[j].matches(user),
    ensures
        snapshot_for(sessions, user) == sessions[at].now_playing->0.snapshot(),
    decreases sessions.len(),
{
    if at > 0 {
        let rest = sessions.drop_first();
        first_match_decides(rest, user, at - 1);
    }
}

/// Where no session matches, the snapshot is idle.
pub proof fn no_match_is_idle(sessions: Seq<Session>, user: Seq<char>)
    requires
        forall|j: int| 0 <= j < sessions.len() ==> !sessions[j].matches(user),
    ensures
        snapshot_for(sessions, user) is Idle,
    decreases sessions.len(),
{
    if sessions.len() > 0 {
        let rest = sessions.drop_first();
        no_match_is_idle(rest, user);
    }
}

/// Where no session carries the user's name, the snapshot is idle.
pub proof fn unknown_user_is_idle(sessions: Seq<Session>, user: Seq<char>)
    requires
        forall|j: int| 0 <= j < sessions.len() ==> sessions[j].user_name != Some(user),
    ensures
        snapshot_for(sessions, user) is Idle,
{
    no_match_is_idle(sessions, user);
}

/// Where the first matching session plays an episode with series, title,
/// season and episode number, the snapshot is that episode, with every field
/// as the session gave it.
pub proof fn full_episode_is_copied(sessions: Seq<Session>, user: Seq<char>, at: int)
    requires
        0 <= at < sessions.len(),
        sessions[at].matches(user),
        forall|j: int| 0 <= j < at ==> !sessions[j].matches(user),
        sessions[at].now_playing->0.kind == Some("Episode"@),
        filled(sessions[at].now_playing->0.series_name),
        filled(sessions[at].now_playing->0.name),
        sessions[at].now_playing->0.season is Some,
        sessions[at].now_playing->0.episode is Some,
    ensures
        snapshot_for(sessions, user) == (Media::Episode {
            series: sessions[at].now_playing->0.series_name->0,
            episode_title: sessions[at].now_playing->0.name->0,
            season_number: sessions[at].now_playing->0.season->0 as int,
            episode_number: sessions[at].now_playing->0.episode->0 as int,
        }),
{
    first_match_decides(sessions, user, at);
}

/// Where the first matching session plays a film with a title, the snapshot is
/// that film.
pub proof fn full_movie_is_copied(sessions: Seq<Session>, user: Seq<char>, at: int)
    requires
        0 <= at < sessions.len(),
        sessions[at].matches(user),
        forall|j: int| 0 <= j < at ==> !sessions[j].matches(user),
        sessions[at].now_playing->0.kind == Some("Movie"@),
        filled(sessions[at].now_playing->0.name),
    ensures
        snapshot_for(sessions, user) == (Media::Movie {
            title: sessions[at].now_playing->0.name->0,
        }),
{
    different_kinds();
    first_match_decides(sessions, user, at);
}

impl Item {
    /// Something that the item's type needs is missing or empty. An episode
    /// needs series, title, season and episode number; a film needs its title;
    /// an item of another type, or of none, can never be shown.
    pub open spec fn lacks_required(self) -> bool {
        if self.kind == Some("Episode"@) {
            !filled(self.series_name) || !filled(self.name) || self.season is None
                || self.episode is None
        } else if self.kind == Some("Movie"@) {
            !filled(self.name)
        } else {
            true
        }
    }
}

/// Where the first matching session lacks something that its type needs, the
/// snapshot is idle.
pub proof fn incomplete_match_is_idle(sessions: Seq<Session>, user: Seq<char>, at: int)
    requires
        0 <= at < sessions.len(),
        sessions[at].matches(user),
        forall|j: int| 0 <= j < at ==> !sessions[j].matches(user),
        sessions[at].now_playing->0.lacks_required(),
    ensures
        snapshot_for(sessions, user) is Idle,
{
    different_kinds();
    first_match_decides(sessions, user, at);
}

/// No list gives a snapshot with an empty text in it.
pub proof fn snapshot_is_complete(sessions: Seq<Session>, user: Seq<char>)
    ensures
        snapshot_for(sessions, user).complete(),
    decreases sessions.len(),
{
    if sessions.len() > 0 && !sessions[0].matches(user) {
        snapshot_is_complete(sessions.drop_first(), user);
    }
}

} // verus!
