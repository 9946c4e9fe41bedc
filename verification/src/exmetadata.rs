//! What is known of a loaded track.

use audiotags::{AudioTagEdit, Id3v2Tag};
use std::path::Path;
use vstd::prelude::*;
use vstd::string::StringExecFns;

use crate::audiosink::AudioSink;
use crate::exceptions::PlayerError;

verus! {

/// `audiotags::Id3v2Tag`, a tag read from a file. It is carried through
/// as it is: nothing is known of what it holds.
#[verifier::external_type_specification]
#[verifier::external_body]
pub struct ExId3v2Tag(audiotags::Id3v2Tag);

/// The tags and stream properties of a track. A field is `None` where the
/// file does not say. `duration` is in microseconds.
#[derive(Debug)]
pub struct MetaData {
    pub title: Option<String>,
    pub artist: Option<String>,
    pub date: Option<String>,
    pub year: Option<String>,
    pub album_title: Option<String>,
    pub album_artist: Option<String>,
    pub track_number: Option<String>,
    pub total_tracks: Option<String>,
    pub disc_number: Option<String>,
    pub total_discs: Option<String>,
    pub genre: Option<String>,
    pub composer: Option<String>,
    pub comment: Option<String>,
    pub sample_rate: Option<u32>,
    pub channels: Option<String>,
    pub duration: Option<i64>,
}

/// The character of the decimal digit `d`.
pub open spec fn digit(d: nat) -> char {
    if d == 0 {
        '0'
    } else if d == 1 {
        '1'
    } else if d == 2 {
        '2'
    } else if d == 3 {
        '3'
    } else if d == 4 {
        '4'
    } else if d == 5 {
        '5'
    } else if d == 6 {
        '6'
    } else if d == 7 {
        '7'
    } else if d == 8 {
        '8'
    } else {
        '9'
    }
}

/// `n` written out in decimal, without leading zeros.
pub open spec fn decimal(n: nat) -> Seq<char>
    decreases n,
{
    if n < 10 {
        seq![digit(n)]
    } else {
        decimal(n / 10).push(digit(n % 10))
    }
}

/// The text of one decimal digit.
fn digit_text(d: u16) -> (r: &'static str)
    requires
        d < 10,
    ensures
        r@ == seq![digit(d as nat)],
{
    proof {
        reveal_strlit("0");
        reveal_strlit("1");
        reveal_strlit("2");
        reveal_strlit("3");
        reveal_strlit("4");
        reveal_strlit("5");
        reveal_strlit("6");
        reveal_strlit("7");
        reveal_strlit("8");
        reveal_strlit("9");
    }
    let r = if d == 0 {
        "0"
    } else if d == 1 {
        "1"
    } else if d == 2 {
        "2"
    } else if d == 3 {
        "3"
    } else if d == 4 {
        "4"
    } else if d == 5 {
        "5"
    } else if d == 6 {
        "6"
    } else if d == 7 {
        "7"
    } else if d == 8 {
        "8"
    } else {
        "9"
    };
    assert(r@ =~= seq![digit(d as nat)]);
    r
}

/// `n` written out in decimal.
pub fn decimal_text(n: u16) -> (r: String)
    ensures
        r@ == decimal(n as nat),
    decreases n,
{
    if n < 10 {
        String::from_str(digit_text(n))
    } else {
        let mut text = decimal_text(n / 10);
        text.append(digit_text(n % 10));
        assert(text@ =~= decimal((n / 10) as nat).push(digit((n % 10) as nat)));
        text
    }
}

/// How the metadata of a file is to be read.
#[derive(Clone, Copy, Debug, PartialEq, Eq, Structural)]
pub enum MediaKind {
    /// From the file's tags.
    Tagged,
    /// From the audio stream itself.
    Wave,
}

/// How the metadata of a file with the extension `extension` is to be
/// read: from the tags for mp3, m4a, mp4 and flac, from the stream for wav,
/// and not at all for any other or none.
pub open spec fn kind_of(extension: Option<Seq<char>>) -> Result<MediaKind, PlayerError> {
    match extension {
        Some(e) => if e == "mp3"@ || e == "m4a"@ || e == "mp4"@ || e == "flac"@ {
            Ok(MediaKind::Tagged)
        } else if e == "wav"@ {
            Ok(MediaKind::Wave)
        } else {
            Err(PlayerError::MetadataExtractionFailure)
        },
        None => Err(PlayerError::MetadataExtractionFailure),
    }
}

/// The characters of an optional text.
pub open spec fn text_of(extension: Option<String>) -> Option<Seq<char>> {
    match extension {
        Some(e) => Some(e@),
        None => None,
    }
}

/// How the metadata of a file with the extension `extension` is to be
/// read.
pub fn media_kind(extension: &Option<String>) -> (r: Result<MediaKind, PlayerError>)
    ensures
        r == kind_of(text_of(*extension)),
{
    match extension {
        Some(e) => {
            if *e == String::from_str("mp3") || *e == String::from_str("m4a") || *e
                == String::from_str("mp4") || *e == String::from_str("flac") {
                Ok(MediaKind::Tagged)
            } else if *e == String::from_str("wav") {
                Ok(MediaKind::Wave)
            } else {
                Err(PlayerError::MetadataExtractionFailure)
            }
        },
        None => Err(PlayerError::MetadataExtractionFailure),
    }
}

/// The extension of the file that `file_path` names, from `Path::extension`,
/// where it is valid text. Nothing is claimed of it: what counts as the
/// file's name within a path depends on the platform.
#[verifier::external_body]
fn extension_of(file_path: &str) -> (extension: Option<String>) {
    Path::new(file_path).extension().and_then(|e| e.to_str()).map(|e| e.to_string())
}

/// How the metadata of the file at `file_path` is to be read, by the
/// extension that the path shows on this platform.
pub fn metadata(file_path: &str) -> (r: Result<MediaKind, PlayerError>)
    ensures
        exists|extension: Option<Seq<char>>| r == kind_of(extension),
{
    let extension = extension_of(file_path);
    let r = media_kind(&extension);
    assert(r == kind_of(text_of(extension)));
    r
}

/// A copy of an optional text.
fn copy_text(text: &Option<String>) -> (r: Option<String>)
    ensures
        r == *text,
{
    match text {
        Some(s) => Some(s.clone()),
        None => None,
    }
}

impl MetaData {
    /// The metadata of a track of which nothing is known.
    pub open spec fn unknown() -> MetaData {
        MetaData {
            title: None,
            artist: None,
            date: None,
            year: None,
            album_title: None,
            album_artist: None,
            track_number: None,
            total_tracks: None,
            disc_number: None,
            total_discs: None,
            genre: None,
            composer: None,
            comment: None,
            sample_rate: None,
            channels: None,
            duration: None,
        }
    }

    /// The metadata of the track that `audio_sink` holds.
    pub fn new(audio_sink: &AudioSink) -> (r: MetaData)
        ensures
            r == audio_sink@.metadata,
    {
        audio_sink.metadata().duplicate()
    }

    /// Whether each text field is what `contents` hold under the field's
    /// name.
    pub open spec fn holds_tags(self, contents: Map<Seq<char>, Seq<char>>) -> bool {
        &&& text_of(self.title) == held(contents, "title"@)
        &&& text_of(self.artist) == held(contents, "artist"@)
        &&& text_of(self.date) == held(contents, "date"@)
        &&& text_of(self.year) == held(contents, "year"@)
        &&& text_of(self.album_title) == held(contents, "album_title"@)
        &&& text_of(self.album_artist) == held(contents, "album_artist"@)
        &&& text_of(self.track_number) == held(contents, "track_number"@)
        &&& text_of(self.total_tracks) == held(contents, "total_tracks"@)
        &&& text_of(self.disc_number) == held(contents, "disc_number"@)
        &&& text_of(self.total_discs) == held(contents, "total_discs"@)
        &&& text_of(self.genre) == held(contents, "genre"@)
        &&& text_of(self.composer) == held(contents, "composer"@)
        &&& text_of(self.comment) == held(contents, "comment"@)
    }

    /// The metadata made of what a tag holds. A tag says nothing of the
    /// stream: sample rate, channels and duration are left open.
    pub fn from_tags(
        title: Option<String>,
        artist: Option<String>,
        date: Option<String>,
        year: Option<String>,
        album_title: Option<String>,
        album_artist: Option<String>,
        track_number: Option<String>,
        total_tracks: Option<String>,
        disc_number: Option<String>,
        total_discs: Option<String>,
        genre: Option<String>,
        composer: Option<String>,
        comment: Option<String>,
    ) -> (r: MetaData)
        ensures
            r == (MetaData {
                title,
                artist,
                date,
                year,
                album_title,
                album_artist,
                track_number,
                total_tracks,
                disc_number,
                total_discs,
                genre,
                composer,
                comment,
                sample_rate: None,
                channels: None,
                duration: None,
            }),
    {
        MetaData {
            title,
            artist,
            date,
            year,
            album_title,
            album_artist,
            track_number,
            total_tracks,
            disc_number,
            total_discs,
            genre,
            composer,
            comment,
            sample_rate: None,
            channels: None,
            duration: None,
        }
    }

    /// The metadata of an untagged stream: its sample rate, the number of
    /// its channels written out in decimal, and its length in microseconds,
    /// 0 where the stream does not tell.
    pub fn from_stream(sample_rate: u32, channels: u16, duration: Option<i64>) -> (r: MetaData)
        ensures
            r.sample_rate == Some(sample_rate),
            r.channels is Some,
            r.channels->0@ == decimal(channels as nat),
            r.duration == Some(
                match duration {
                    Some(d) => d,
                    None => 0i64,
                },
            ),
            r == (MetaData {
                sample_rate: r.sample_rate,
                channels: r.channels,
                duration: r.duration,
                ..MetaData::unknown()
            }),
    {
        let length: i64 = match duration {
            Some(d) => d,
            None => 0,
        };
        MetaData {
            title: None,
            artist: None,
            date: None,
            year: None,
            album_title: None,
            album_artist: None,
            track_number: None,
            total_tracks: None,
            disc_number: None,
            total_discs: None,
            genre: None,
            composer: None,
            comment: None,
            sample_rate: Some(sample_rate),
            channels: Some(decimal_text(channels)),
            duration: Some(length),
        }
    }

    /// A copy that is equal field by field.
    pub fn duplicate(&self) -> (r: MetaData)
        ensures
            r == *self,
    {
        MetaData {
            title: copy_text(&self.title),
            artist: copy_text(&self.artist),
            date: copy_text(&self.date),
            year: copy_text(&self.year),
            album_title: copy_text(&self.album_title),
            album_artist: copy_text(&self.album_artist),
            track_number: copy_text(&self.track_number),
            total_tracks: copy_text(&self.total_tracks),
            disc_number: copy_text(&self.disc_number),
            total_discs: copy_text(&self.total_discs),
            genre: copy_text(&self.genre),
            composer: copy_text(&self.composer),
            comment: copy_text(&self.comment),
            sample_rate: self.sample_rate,
            channels: copy_text(&self.channels),
            duration: self.duration,
        }
    }
}

impl Clone for MetaData {
    fn clone(&self) -> (r: Self)
        ensures
            r == *self,
    {
        self.duplicate()
    }
}

impl Default for MetaData {
    fn default() -> (r: Self)
        ensures
            r == MetaData::unknown(),
    {
        MetaData {
            title: None,
            artist: None,
            date: None,
            year: None,
            album_title: None,
            album_artist: None,
            track_number: None,
            total_tracks: None,
            disc_number: None,
            total_discs: None,
            genre: None,
            composer: None,
            comment: None,
            sample_rate: None,
            channels: None,
            duration: None,
        }
    }
}

/// What a tag holds, as texts by field. Under the name of a field stands
/// what the tag's getter of that name in `AudioTagEdit` yields, written
/// out; a field that the tag does not hold has no entry. The getters read
/// the tag and nothing else, so a tag holds the same at every reading.
pub uninterp spec fn tag_contents(tag: Id3v2Tag) -> Map<Seq<char>, Seq<char>>;

/// The text that `contents` hold under `field`, if any.
pub open spec fn held(contents: Map<Seq<char>, Seq<char>>, field: Seq<char>) -> Option<Seq<char>> {
    if contents.contains_key(field) {
        Some(contents[field])
    } else {
        None
    }
}

/// The title that `AudioTagEdit::title` finds in the tag, as an owned text.
/// The contract claims that it is the text the tag holds under `title`.
#[verifier::external_body]
fn tag_title(tag: &Id3v2Tag) -> (text: Option<String>)
    ensures
        text_of(text) == held(tag_contents(*tag), "title"@),
{
    tag.title().map(|v| v.to_string())
}

/// The artist that `AudioTagEdit::artist` finds in the tag, as an owned
/// text.
/// The contract claims that it is the text the tag holds under `artist`.
#[verifier::external_body]
fn tag_artist(tag: &Id3v2Tag) -> (text: Option<String>)
    ensures
        text_of(text) == held(tag_contents(*tag), "artist"@),
{
    tag.artist().map(|v| v.to_string())
}

/// The recording date that `AudioTagEdit::date` finds in the tag, written
/// out.
/// The contract claims that it is the text the tag holds under `date`.
#[verifier::external_body]
fn tag_date(tag: &Id3v2Tag) -> (text: Option<String>)
    ensures
        text_of(text) == held(tag_contents(*tag), "date"@),
{
    tag.date().map(|v| v.to_string())
}

/// The year that `AudioTagEdit::year` finds in the tag, written out.
/// The contract claims that it is the text the tag holds under `year`.
#[verifier::external_body]
fn tag_year(tag: &Id3v2Tag) -> (text: Option<String>)
    ensures
        text_of(text) == held(tag_contents(*tag), "year"@),
{
    tag.year().map(|v| v.to_string())
}

/// The album title that `AudioTagEdit::album_title` finds in the tag, as
/// an owned text.
/// The contract claims that it is the text the tag holds under `album_title`.
#[verifier::external_body]
fn tag_album_title(tag: &Id3v2Tag) -> (text: Option<String>)
    ensures
        text_of(text) == held(tag_contents(*tag), "album_title"@),
{
    tag.album_title().map(|v| v.to_string())
}

/// The album artist that `AudioTagEdit::album_artist` finds in the tag, as
/// an owned text.
/// The contract claims that it is the text the tag holds under `album_artist`.
#[verifier::external_body]
fn tag_album_artist(tag: &Id3v2Tag) -> (text: Option<String>)
    ensures
        text_of(text) == held(tag_contents(*tag), "album_artist"@),
{
    tag.album_artist().map(|v| v.to_string())
}

/// The track number that `AudioTagEdit::track_number` finds in the tag,
/// written out.
/// The contract claims that it is the text the tag holds under `track_number`.
#[verifier::external_body]
fn tag_track_number(tag: &Id3v2Tag) -> (text: Option<String>)
    ensures
        text_of(text) == held(tag_contents(*tag), "track_number"@),
{
    tag.track_number().map(|v| v.to_string())
}

/// The number of tracks that `AudioTagEdit::total_tracks` finds in the tag,
/// written out.
/// The contract claims that it is the text the tag holds under `total_tracks`.
#[verifier::external_body]
fn tag_total_tracks(tag: &Id3v2Tag) -> (text: Option<String>)
    ensures
        text_of(text) == held(tag_contents(*tag), "total_tracks"@),
{
    tag.total_tracks().map(|v| v.to_string())
}

/// The disc number that `AudioTagEdit::disc_number` finds in the tag,
/// written out.
/// The contract claims that it is the text the tag holds under `disc_number`.
#[verifier::external_body]
fn tag_disc_number(tag: &Id3v2Tag) -> (text: Option<String>)
    ensures
        text_of(text) == held(tag_contents(*tag), "disc_number"@),
{
    tag.disc_number().map(|v| v.to_string())
}

/// The number of discs that `AudioTagEdit::total_discs` finds in the tag,
/// written out.
/// The contract claims that it is the text the tag holds under `total_discs`.
#[verifier::external_body]
fn tag_total_discs(tag: &Id3v2Tag) -> (text: Option<String>)
    ensures
        text_of(text) == held(tag_contents(*tag), "total_discs"@),
{
    tag.total_discs().map(|v| v.to_string())
}

/// The genre that `AudioTagEdit::genre` finds in the tag, as an owned
/// text.
/// The contract claims that it is the text the tag holds under `genre`.
#[verifier::external_body]
fn tag_genre(tag: &Id3v2Tag) -> (text: Option<String>)
    ensures
        text_of(text) == held(tag_contents(*tag), "genre"@),
{
    tag.genre().map(|v| v.to_string())
}

/// The composer that `AudioTagEdit::composer` finds in the tag, as an
/// owned text.
/// The contract claims that it is the text the tag holds under `composer`.
#[verifier::external_body]
fn tag_composer(tag: &Id3v2Tag) -> (text: Option<String>)
    ensures
        text_of(text) == held(tag_contents(*tag), "composer"@),
{
    tag.composer().map(|v| v.to_string())
}

/// The comment that `AudioTagEdit::comment` finds in the tag, as an owned
/// text.
/// The contract claims that it is the text the tag holds under `comment`.
#[verifier::external_body]
fn tag_comment(tag: &Id3v2Tag) -> (text: Option<String>)
    ensures
        text_of(text) == held(tag_contents(*tag), "comment"@),
{
    tag.comment().map(|v| v.to_string())
}

/// A source of metadata.
pub trait AudioTag {
    /// What the source says of its track.
    fn metadata_fields(&self) -> MetaData;
}

impl AudioTag for Id3v2Tag {
    /// The tags as the tag holds them: each text field is what the tag
    /// holds under the field's name. A tag says nothing of the stream:
    /// sample rate, channels and duration are left open.
    fn metadata_fields(&self) -> (r: MetaData)
        ensures
            r.holds_tags(tag_contents(*self)),
            r.sample_rate is None,
            r.channels is None,
            r.duration is None,
    {
        MetaData::from_tags(
            tag_title(self),
            tag_artist(self),
            tag_date(self),
            tag_year(self),
            tag_album_title(self),
            tag_album_artist(self),
            tag_track_number(self),
            tag_total_tracks(self),
            tag_disc_number(self),
            tag_total_discs(self),
            tag_genre(self),
            tag_composer(self),
            tag_comment(self),
        )
    }
}

} // verus!
