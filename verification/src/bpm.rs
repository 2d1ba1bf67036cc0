//! Looking up the tempo of a track at a music service, step by step: what to
//! ask the service for, and what to make of its replies. Talking to the
//! service is left to the caller.

use vstd::prelude::*;
use vstd::string::{StrSliceExecFns, StringExecFns};
use vstd::utf8::encode_utf8;
use crate::numbers::{decimal, digit, digits};

verus! {

/// Whether a character is white space.
pub open spec fn is_white_space(c: char) -> bool {
    let u = c as u32;
    (0x09 <= u <= 0x0d) || u == 0x20 || u == 0x85 || u == 0xa0 || u == 0x1680 || (0x2000 <= u
        <= 0x200a) || u == 0x2028 || u == 0x2029 || u == 0x202f || u == 0x205f || u == 0x3000
}

/// The place of the first character from `from` on that is no white space, or
/// the length of the text.
pub open spec fn first_kept(s: Seq<char>, from: int) -> int
    decreases s.len() - from,
{
    if from >= s.len() || !is_white_space(s[from]) {
        from
    } else {
        first_kept(s, from + 1)
    }
}

/// The place behind the last character before `to` that is no white space, or 0.
pub open spec fn last_kept(s: Seq<char>, to: int) -> int
    decreases to,
{
    if to <= 0 || !is_white_space(s[to - 1]) {
        to
    } else {
        last_kept(s, to - 1)
    }
}

/// A text without the white space at its ends.
pub open spec fn trimmed(s: Seq<char>) -> Seq<char> {
    if first_kept(s, 0) >= last_kept(s, s.len() as int) {
        Seq::empty()
    } else {
        s.subrange(first_kept(s, 0), last_kept(s, s.len() as int))
    }
}

/// Whether a character is white space.
pub fn is_space(c: char) -> (r: bool)
    ensures
        r == is_white_space(c),
{
    let u = c as u32;
    (0x09 <= u && u <= 0x0d) || u == 0x20 || u == 0x85 || u == 0xa0 || u == 0x1680 || (0x2000 <= u
        && u <= 0x200a) || u == 0x2028 || u == 0x2029 || u == 0x202f || u == 0x205f || u == 0x3000
}

/// A text without the white space at its ends.
pub fn trim_text(s: &str) -> (r: String)
    ensures
        r@ == trimmed(s@),
{
    let n = s.unicode_len();
    let mut a: usize = 0;
    let mut scanning = n > 0;
    while scanning
        invariant
            a <= n,
            n == s@.len(),
            first_kept(s@, 0) == first_kept(s@, a as int),
            scanning ==> a < n,
            !scanning ==> a >= n || !is_white_space(s@[a as int]),
        decreases n - a + if scanning { 1int } else { 0int },
    {
        if is_space(s.get_char(a)) {
            a = a + 1;
            scanning = a < n;
        } else {
            scanning = false;
        }
    }
    let mut b: usize = n;
    let mut scanning = b > 0;
    while scanning
        invariant
            b <= n,
            n == s@.len(),
            last_kept(s@, n as int) == last_kept(s@, b as int),
            scanning ==> b > 0,
            !scanning ==> b == 0 || !is_white_space(s@[b - 1]),
        decreases b + if scanning { 1int } else { 0int },
    {
        if is_space(s.get_char(b - 1)) {
            b = b - 1;
            scanning = b > 0;
        } else {
            scanning = false;
        }
    }
    if a >= b {
        String::new()
    } else {
        s.substring_char(a, b).to_owned()
    }
}

/// The bytes that stand for themselves in a query: letters, digits, hyphen,
/// full stop, underscore and tilde.
pub open spec fn is_unreserved(b: u8) -> bool {
    (48 <= b <= 57) || (65 <= b <= 90) || (97 <= b <= 122) || b == 45 || b == 46 || b == 95 || b
        == 126
}

/// The upper-case hexadecimal digit for a number below sixteen.
pub open spec fn hex_upper(d: int) -> char {
    if d < 10 {
        digit(d)
    } else if d == 10 {
        'A'
    } else if d == 11 {
        'B'
    } else if d == 12 {
        'C'
    } else if d == 13 {
        'D'
    } else if d == 14 {
        'E'
    } else {
        'F'
    }
}

/// A byte as it stands in a query: itself, or a percent sign and its two
/// hexadecimal digits.
pub open spec fn percent_encoded_byte(b: u8) -> Seq<char> {
    if is_unreserved(b) {
        seq![b as char]
    } else {
        seq!['%', hex_upper(b as int / 16), hex_upper(b as int % 16)]
    }
}

/// Bytes as they stand in a query, byte by byte.
pub open spec fn percent_encoded(bytes: Seq<u8>) -> Seq<char>
    decreases bytes.len(),
{
    if bytes.len() == 0 {
        Seq::empty()
    } else {
        percent_encoded(bytes.drop_last()) + percent_encoded_byte(bytes.last())
    }
}

/// Calls `urlencoding::encode`.
///
/// Believed, not proved: every byte of the text's UTF-8 encoding but letters,
/// digits, `-`, `.`, `_` and `~` is replaced by `%` and its two upper-case
/// hexadecimal digits.
#[verifier::external_body]
pub(crate) fn url_encode(s: &str) -> (r: String)
    ensures
        r@ == percent_encoded(encode_utf8(s@)),
{
    urlencoding::encode(s).into_owned()
}

/// What `serde_json` finds in the JSON text `body` as an unsigned number under
/// the key `field` of the element `index` of the list under the key `list`:
/// `Err` with the parser's message where `body` is no JSON text, `Ok(None)`
/// where it holds no such number, `Ok(Some(n))` else.
pub uninterp spec fn number_in_reply(
    body: Seq<char>,
    list: Seq<char>,
    index: int,
    field: Seq<char>,
) -> Result<Option<u64>, Seq<char>>;

/// What was looked for in a reply, with the message as a mathematical text.
pub open spec fn found_value(found: Result<Option<u64>, String>) -> Result<Option<u64>, Seq<char>> {
    match found {
        Ok(n) => Ok(n),
        Err(message) => Err(message@),
    }
}

/// Calls `serde_json::from_str` for a `serde_json::Value`, reads
/// `[list][index][field]` of it by `Value::as_u64`, and renders the parser's
/// error by its `Display`.
///
/// Believed, not proved: the result is what `number_in_reply` names, the same
/// for the same text, keys and index.
#[verifier::external_body]
pub(crate) fn number_in(body: &str, list: &str, index: usize, field: &str) -> (r: Result<
    Option<u64>,
    String,
>)
    ensures
        found_value(r) == number_in_reply(body@, list@, index as int, field@),
{
    match serde_json::from_str::<serde_json::Value>(body) {
        Ok(value) => Ok(value[list][index][field].as_u64()),
        Err(e) => Err(e.to_string()),
    }
}

/// The key under which the reply to a search lists the tracks it found.
pub open spec fn tracks_key() -> Seq<char> {
    "data"@
}

/// The key under which a track of the reply holds its id.
pub open spec fn id_key() -> Seq<char> {
    "id"@
}

/// What the reply `body` to a search says of the id of the first track found.
pub open spec fn reply_track_id(body: Seq<char>) -> Result<Option<u64>, Seq<char>> {
    number_in_reply(body, tracks_key(), 0, id_key())
}

/// Looks for the id of the first track in the reply `body` to a search.
pub fn track_id_in(body: &str) -> (r: Result<Option<u64>, String>)
    ensures
        found_value(r) == reply_track_id(body@),
{
    number_in(body, "data", 0, "id")
}

/// What has happened in a lookup.
#[derive(Clone, Debug, PartialEq, Eq)]
pub enum BpmEvent {
    /// The tempo of a track was asked for.
    Asked { title: String, artist: String },
    /// The service has replied to the search with this text.
    SearchReplied { body: String },
    /// The service has replied to the question for the track; the caller has
    /// read this tempo from the reply, or none.
    TrackReplied { bpm: Option<i64> },
}

/// What to do next in a lookup.
#[derive(Clone, Debug, PartialEq, Eq)]
pub enum BpmAction {
    /// Ask the service for the address `url` and hand in the reply as `SearchReplied`.
    Search { url: String },
    /// Ask the service for the address `url` and hand in the tempo as `TrackReplied`.
    Track { url: String },
    /// The lookup is over: this is the tempo, or there is none.
    Answer { bpm: Option<i64> },
    /// The lookup has failed: the reply of the service could not be read, for
    /// the reason that `message` gives.
    Fail { message: String },
}

/// Mathematical value of a [`BpmAction`].
pub enum BpmActionValue {
    Search { url: Seq<char> },
    Track { url: Seq<char> },
    Answer { bpm: Option<i64> },
    Fail { message: Seq<char> },
}

impl View for BpmAction {
    type V = BpmActionValue;

    open spec fn view(&self) -> BpmActionValue {
        match self {
            BpmAction::Search { url } => BpmActionValue::Search { url: url@ },
            BpmAction::Track { url } => BpmActionValue::Track { url: url@ },
            BpmAction::Answer { bpm } => BpmActionValue::Answer { bpm: *bpm },
            BpmAction::Fail { message } => BpmActionValue::Fail { message: message@ },
        }
    }
}

/// The search for a track by title and artist, as the service wants it.
pub open spec fn search_query(title: Seq<char>, artist: Seq<char>) -> Seq<char> {
    "track:\""@ + title + "\" artist:\""@ + artist + "\""@
}

/// The address of the search for a track.
pub open spec fn search_url(title: Seq<char>, artist: Seq<char>) -> Seq<char> {
    "https://api.deezer.com/search?q="@ + percent_encoded(
        encode_utf8(search_query(title, artist)),
    ) + "&limit=1"@
}

/// The address of the track with the id `id`.
pub open spec fn track_url(id: u64) -> Seq<char> {
    "https://api.deezer.com/track/"@ + digits(id as nat)
}

/// What to do for a track with the title and the artist given, both without
/// white space at their ends: nothing for an empty title, else the search.
pub open spec fn after_asked(title: Seq<char>, artist: Seq<char>) -> BpmActionValue {
    if title.len() == 0 {
        BpmActionValue::Answer { bpm: None }
    } else {
        BpmActionValue::Search { url: search_url(title, artist) }
    }
}

/// What to do once the id of the track was looked for in the reply to the
/// search: fail where the reply could not be read, answer that there is no
/// tempo where it names no track, else ask for the track.
pub open spec fn after_search(found: Result<Option<u64>, Seq<char>>) -> BpmActionValue {
    match found {
        Err(message) => BpmActionValue::Fail { message },
        Ok(None) => BpmActionValue::Answer { bpm: None },
        Ok(Some(id)) => BpmActionValue::Track { url: track_url(id) },
    }
}

/// What to do for a track with the title and the artist given, both without
/// white space at their ends.
pub fn search_request(title: &str, artist: &str) -> (r: BpmAction)
    ensures
        r@ == after_asked(title@, artist@),
{
    if title.is_empty() {
        return BpmAction::Answer { bpm: None };
    }
    let mut query = String::from_str("track:\"");
    query.append(title);
    query.append("\" artist:\"");
    query.append(artist);
    query.append("\"");
    let mut url = String::from_str("https://api.deezer.com/search?q=");
    let encoded = url_encode(query.as_str());
    url.append(encoded.as_str());
    url.append("&limit=1");
    BpmAction::Search { url }
}

/// What to do once the id of the track was looked for in the reply to the search.
pub fn track_request(found: Result<Option<u64>, String>) -> (r: BpmAction)
    ensures
        r@ == after_search(found_value(found)),
{
    match found {
        Err(message) => BpmAction::Fail { message },
        Ok(None) => BpmAction::Answer { bpm: None },
        Ok(Some(id)) => {
            let mut url = String::from_str("https://api.deezer.com/track/");
            let number = decimal(id);
            url.append(number.as_str());
            BpmAction::Track { url }
        },
    }
}

/// What to do next in a lookup, given what has happened.
pub open spec fn next_action(event: BpmEvent) -> BpmActionValue {
    match event {
        BpmEvent::Asked { title, artist } => after_asked(trimmed(title@), trimmed(artist@)),
        BpmEvent::SearchReplied { body } => after_search(reply_track_id(body@)),
        BpmEvent::TrackReplied { bpm } => BpmActionValue::Answer { bpm },
    }
}

/// One step of the lookup of a tempo: says what to do next, given what has
/// happened. A lookup begins with `Asked` and is over with `Answer` or `Fail`.
pub fn bpm_lookup(event: BpmEvent) -> (r: BpmAction)
    ensures
        r@ == next_action(event),
{
    match event {
        BpmEvent::Asked { title, artist } => {
            let t = trim_text(title.as_str());
            let a = trim_text(artist.as_str());
            search_request(t.as_str(), a.as_str())
        },
        BpmEvent::SearchReplied { body } => track_request(track_id_in(body.as_str())),
        BpmEvent::TrackReplied { bpm } => BpmAction::Answer { bpm },
    }
}

} // verus!
