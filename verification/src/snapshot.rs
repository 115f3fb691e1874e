//! What is playing, and the text that announces it.

use crate::decimal::{decimal, decimal_text};
use vstd::prelude::*;
use vstd::string::*;

verus! {

/// The normalized result of one look at the session list, for one user.
#[derive(Debug, PartialEq, Eq)]
pub enum MediaSnapshot {
    /// No qualifying session was found.
    Idle,
    /// A film is playing.
    Movie { title: String },
    /// An episode of a series is playing.
    Episode { series: String, episode_title: String, season_number: i64, episode_number: i64 },
}

/// The mathematical value of a [`MediaSnapshot`].
pub enum Media {
    Idle,
    Movie { title: Seq<char> },
    Episode { series: Seq<char>, episode_title: Seq<char>, season_number: int, episode_number: int },
}

impl View for MediaSnapshot {
    type V = Media;

    open spec fn view(&self) -> Media {
        match self {
            MediaSnapshot::Idle => Media::Idle,
            MediaSnapshot::Movie { title } => Media::Movie { title: title@ },
            MediaSnapshot::Episode { series, episode_title, season_number, episode_number } => {
                Media::Episode {
                    series: series@,
                    episode_title: episode_title@,
                    season_number: *season_number as int,
                    episode_number: *episode_number as int,
                }
            },
        }
    }
}

impl Media {
    /// Every text that the variant carries is non-empty.
    pub open spec fn complete(self) -> bool {
        match self {
            Media::Idle => true,
            Media::Movie { title } => title.len() > 0,
            Media::Episode { series, episode_title, .. } => series.len() > 0 && episode_title.len()
                > 0,
        }
    }
}

impl MediaSnapshot {
    /// Whether nothing is playing.
    pub fn is_idle(&self) -> (idle: bool)
        ensures
            idle == (self@ is Idle),
    {
        match self {
            MediaSnapshot::Idle => true,
            _ => false,
        }
    }
}

impl Clone for MediaSnapshot {
    fn clone(&self) -> (copy: Self)
        ensures
            copy@ == self@,
    {
        match self {
            MediaSnapshot::Idle => MediaSnapshot::Idle,
            MediaSnapshot::Movie { title } => MediaSnapshot::Movie { title: title.clone() },
            MediaSnapshot::Episode { series, episode_title, season_number, episode_number } => {
                MediaSnapshot::Episode {
                    series: series.clone(),
                    episode_title: episode_title.clone(),
                    season_number: *season_number,
                    episode_number: *episode_number,
                }
            },
        }
    }
}

/// The display-ready pair that is shown for a snapshot.
#[derive(Debug, PartialEq, Eq)]
pub struct PresentationText {
    /// The headline.
    pub details: String,
    /// The second line; empty where there is none.
    pub state: String,
}

/// The mathematical value of a [`PresentationText`].
pub struct Presentation {
    pub details: Seq<char>,
    pub state: Seq<char>,
}

impl View for PresentationText {
    type V = Presentation;

    open spec fn view(&self) -> Presentation {
        Presentation { details: self.details@, state: self.state@ }
    }
}

impl Clone for PresentationText {
    fn clone(&self) -> (copy: Self)
        ensures
            copy@ == self@,
    {
        PresentationText { details: self.details.clone(), state: self.state.clone() }
    }
}

impl PresentationText {
    /// Whether two presentations show the same text.
    pub fn same_as(&self, other: &PresentationText) -> (same: bool)
        ensures
            same == (self@ == other@),
    {
        self.details == other.details && self.state == other.state
    }
}

/// The second line of an episode: season and episode number as they are,
/// then the episode's title.
pub open spec fn episode_line(season_number: int, episode_number: int, episode_title: Seq<char>) -> Seq<
    char,
> {
    "S"@ + decimal_text(season_number) + "E"@ + decimal_text(episode_number) + " "@ + episode_title
}

/// The text shown for a snapshot; none for an idle one.
pub open spec fn presentation_of(media: Media) -> Option<Presentation> {
    match media {
        Media::Idle => None,
        Media::Movie { title } => Some(Presentation { details: title, state: Seq::empty() }),
        Media::Episode { series, episode_title, season_number, episode_number } => Some(
            Presentation {
                details: "Watching "@ + series,
                state: episode_line(season_number, episode_number, episode_title),
            },
        ),
    }
}

/// Computes the text shown for a snapshot.
pub fn present(snapshot: &MediaSnapshot) -> (shown: Option<PresentationText>)
    ensures
        match shown {
            Some(text) => presentation_of(snapshot@) == Some(text@),
            None => presentation_of(snapshot@) is None,
        },
{
    match snapshot {
        MediaSnapshot::Idle => None,
        MediaSnapshot::Movie { title } => Some(
            PresentationText { details: title.clone(), state: String::new() },
        ),
        MediaSnapshot::Episode { series, episode_title, season_number, episode_number } => {
            let mut details = String::from_str("Watching ");
            details.append(series.as_str());
            let mut state = String::from_str("S");
            state.append(decimal(*season_number).as_str());
            state.append("E");
            state.append(decimal(*episode_number).as_str());
            state.append(" ");
            state.append(episode_title.as_str());
            Some(PresentationText { details, state })
        },
    }
}

/// Equal snapshots are shown with identical text, character for character.
pub proof fn presentation_is_determined(first: MediaSnapshot, second: MediaSnapshot)
    requires
        first@ == second@,
    ensures
        presentation_of(first@) == presentation_of(second@),
        match (presentation_of(first@), presentation_of(second@)) {
            (Some(a), Some(b)) => a.details =~= b.details && a.state =~= b.state,
            (None, None) => true,
            _ => false,
        },
{
}

/// Only an idle snapshot is shown with no text.
pub proof fn presentation_absent_only_when_idle(media: Media)
    ensures
        presentation_of(media) is None <==> media is Idle,
{
}

} // verus!
