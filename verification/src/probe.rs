//! From the body of a session query to a snapshot.

use crate::json::{array_of_text, classify, documents, json_of, member, parse_array, Failure, Json};
use crate::session::{
    chars_of, select_snapshot, sessions_of, snapshot_for, Item, NowPlayingItem, Session,
    SessionEntry,
};
use crate::snapshot::{Media, MediaSnapshot};
use vstd::prelude::*;
use vstd::string::*;

verus! {

/// Why a probe gave no snapshot. Whichever it is, the caller goes on as if
/// nothing were playing: see [`fail_open`].
#[derive(Debug, Clone, Copy, PartialEq, Eq, Structural)]
pub enum ProbeError {
    /// The server could not be reached or did not answer.
    Network,
    /// The answer is not JSON.
    Malformed,
    /// The answer is JSON, but no list of sessions.
    UnexpectedShape,
}

impl ProbeError {
    /// The probe's error for a parser's failure: a document of another shape
    /// is an unexpected shape, anything else a malformed answer.
    pub open spec fn of_failure(failure: Failure) -> ProbeError {
        match failure {
            Failure::Data => ProbeError::UnexpectedShape,
            _ => ProbeError::Malformed,
        }
    }

    /// Maps a parser's failure to the probe's error.
    pub fn from_failure(failure: Failure) -> (error: ProbeError)
        ensures
            error == ProbeError::of_failure(failure),
    {
        match failure {
            Failure::Data => ProbeError::UnexpectedShape,
            Failure::Io => ProbeError::Malformed,
            Failure::Syntax => ProbeError::Malformed,
            Failure::Eof => ProbeError::Malformed,
        }
    }
}

/// Seconds after which a session query is given up.
pub const FETCH_TIMEOUT_SECS: u64 = 10;

/// The address of the session query: the server's base address, the path of
/// the session list, and the key.
pub open spec fn sessions_url_of(base: Seq<char>, api_key: Seq<char>) -> Seq<char> {
    base + "/Sessions?api_key="@ + api_key
}

/// Builds the address of the session query.
pub fn sessions_url(base: &str, api_key: &str) -> (url: String)
    ensures
        url@ == sessions_url_of(base@, api_key@),
{
    let mut url = String::from_str(base);
    url.append("/Sessions?api_key=");
    url.append(api_key);
    url
}

/// The text under `key`, where the document is an object that has a string
/// there.
pub open spec fn text_member(doc: Json, key: Seq<char>) -> Option<Seq<char>> {
    match doc.member(key) {
        Some(inner) => inner.text(),
        None => None,
    }
}

/// The number under `key`, where the document is an object that has an
/// integer there that fits in sixty-four signed bits.
pub open spec fn number_member(doc: Json, key: Seq<char>) -> Option<i64> {
    match doc.member(key) {
        Some(inner) => inner.int64(),
        None => None,
    }
}

/// The item that a document describes.
pub open spec fn item_of(doc: Json) -> Item {
    Item {
        name: text_member(doc, "Name"@),
        kind: text_member(doc, "Type"@),
        series_name: text_member(doc, "SeriesName"@),
        season: number_member(doc, "ParentIndexNumber"@),
        episode: number_member(doc, "IndexNumber"@),
    }
}

/// The session that a document describes.
pub open spec fn session_of(doc: Json) -> Session {
    Session {
        user_name: text_member(doc, "UserName"@),
        now_playing: match doc.member("NowPlayingItem"@) {
            Some(inner) => Some(item_of(inner)),
            None => None,
        },
    }
}

/// The sessions that a list of documents describes, in order.
pub open spec fn sessions_in(docs: Seq<Json>) -> Seq<Session> {
    Seq::new(docs.len(), |i: int| session_of(docs[i]))
}

/// What a probe makes of a parsed body: the snapshot for `user` out of the
/// sessions in it, or the error for the parser's failure.
pub open spec fn probe_outcome(parsed: Result<Seq<Json>, Failure>, user: Seq<char>) -> Result<
    Media,
    ProbeError,
> {
    match parsed {
        Ok(docs) => Ok(snapshot_for(sessions_in(docs), user)),
        Err(failure) => Err(ProbeError::of_failure(failure)),
    }
}

/// Reads the string under `key`.
fn text_field(value: &serde_json::Value, key: &str) -> (text: Option<String>)
    ensures
        chars_of(text) == text_member(json_of(*value), key@),
{
    match member(value, key) {
        Some(inner) => match inner.as_str() {
            Some(chars) => Some(String::from_str(chars)),
            None => None,
        },
        None => None,
    }
}

/// Reads the integer under `key`.
fn number_field(value: &serde_json::Value, key: &str) -> (number: Option<i64>)
    ensures
        number == number_member(json_of(*value), key@),
{
    match member(value, key) {
        Some(inner) => inner.as_i64(),
        None => None,
    }
}

/// Reads what a session says of the item it is playing.
pub fn read_item(value: &serde_json::Value) -> (item: NowPlayingItem)
    ensures
        item@ == item_of(json_of(*value)),
{
    NowPlayingItem {
        name: text_field(value, "Name"),
        kind: text_field(value, "Type"),
        series_name: text_field(value, "SeriesName"),
        season: number_field(value, "ParentIndexNumber"),
        episode: number_field(value, "IndexNumber"),
    }
}

/// Reads one entry of the session list.
pub fn read_session(value: &serde_json::Value) -> (entry: SessionEntry)
    ensures
        entry@ == session_of(json_of(*value)),
{
    let now_playing = match member(value, "NowPlayingItem") {
        Some(inner) => Some(read_item(inner)),
        None => None,
    };
    SessionEntry { user_name: text_field(value, "UserName"), now_playing }
}

/// Reads every entry of the session list, in order.
pub fn read_sessions(values: &Vec<serde_json::Value>) -> (entries: Vec<SessionEntry>)
    ensures
        sessions_of(entries@) == sessions_in(documents(values@)),
{
    let mut entries: Vec<SessionEntry> = Vec::new();
    let mut i: usize = 0;
    while i < values.len()
        invariant
            i <= values.len(),
            entries@.len() == i,
            forall|j: int| 0 <= j < i ==> (#[trigger] entries@[j])@ == session_of(json_of(values@[j])),
        decreases values.len() - i,
    {
        entries.push(read_session(&values[i]));
        i = i + 1;
    }
    entries
}

/// Reads the body of a session query and picks the snapshot for `user`.
///
/// The body is parsed as a JSON array. Where it is one, the result is the
/// snapshot of the first entry that belongs to `user` and is playing
/// something, and idle where there is no such entry; where it is not, the
/// result is the error for the parser's failure.
pub fn probe_body(body: &str, user: &str) -> (probed: Result<MediaSnapshot, ProbeError>)
    ensures
        match probed {
            Ok(snapshot) => probe_outcome(array_of_text(body@), user@) == Ok::<Media, ProbeError>(
                snapshot@,
            ) && snapshot@.complete(),
            Err(error) => probe_outcome(array_of_text(body@), user@) == Err::<Media, ProbeError>(
                error,
            ),
        },
{
    match parse_array(body) {
        Ok(values) => {
            let entries = read_sessions(&values);
            Ok(select_snapshot(&entries, user))
        },
        Err(error) => Err(ProbeError::from_failure(classify(&error))),
    }
}

/// The snapshot that a probe's result counts as: its own where there is one,
/// and idle for every error.
pub open spec fn fail_open_of(probed: Result<MediaSnapshot, ProbeError>) -> Media {
    match probed {
        Ok(snapshot) => snapshot@,
        Err(_) => Media::Idle,
    }
}

/// Turns a probe's result into a snapshot; a failed probe counts as idle.
pub fn fail_open(probed: Result<MediaSnapshot, ProbeError>) -> (snapshot: MediaSnapshot)
    ensures
        snapshot@ == fail_open_of(probed),
{
    match probed {
        Ok(snapshot) => snapshot,
        Err(_) => MediaSnapshot::Idle,
    }
}

} // verus!
