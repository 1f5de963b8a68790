//! The tag fields of one file: what is shown of them, how they are offered
//! for editing, and what an edit changes.
//!
//! A [`TagData`] holds what this program reads of a file's tag container.
//! Reading the container from disk and writing it back is the caller's part:
//! it hands in the fields it found and carries out the [`FieldUpdate`] it is
//! given.

use crate::fields::Field;
use crate::text::{
    decimal, decimal_text, lemma_decimal_reads_back, lemma_signed_decimal_reads_back, parse_i32,
    parse_u32, parsed_i32, parsed_u32, signed_decimal, signed_decimal_text,
};
use vstd::prelude::*;
use vstd::string::*;

verus! {

/// A recording date as tag containers store it: a year, and as much of the
/// month, day and time of day as is known.
#[derive(Clone, Copy, Debug, PartialEq, Eq)]
pub struct Timestamp {
    pub year: i32,
    pub month: Option<u8>,
    pub day: Option<u8>,
    pub hour: Option<u8>,
    pub minute: Option<u8>,
    pub second: Option<u8>,
}

/// `digits` with zeros in front until the whole is at least `width`
/// characters long.
pub open spec fn zero_padded(digits: Seq<char>, width: nat) -> Seq<char> {
    if digits.len() >= width {
        digits
    } else {
        Seq::new((width - digits.len()) as nat, |i: int| '0') + digits
    }
}

/// A year as tag containers store it: in decimal, filled with zeros to four
/// characters, of which a minus sign is one.
pub open spec fn year_text(year: int) -> Seq<char> {
    if year < 0 {
        seq!['-'] + zero_padded(decimal((-year) as nat), 3)
    } else {
        zero_padded(decimal(year as nat), 4)
    }
}

/// A month, day, hour, minute or second as tag containers store it: in
/// decimal, with two digits at least.
pub open spec fn two_digits(n: u8) -> Seq<char> {
    zero_padded(decimal(n as nat), 2)
}

/// `part` behind the separator `mark`, followed by `rest`; nothing at all
/// where the part is not known.
pub open spec fn date_part(mark: char, part: Option<u8>, rest: Seq<char>) -> Seq<char> {
    match part {
        Some(n) => seq![mark] + two_digits(n) + rest,
        None => Seq::empty(),
    }
}

/// The text that tag containers store for a recording date: `yyyy`, then
/// `-MM`, `-dd`, `Thh`, `:mm` and `:ss` as far as each part and all those
/// before it are known.
pub open spec fn timestamp_text(date: Timestamp) -> Seq<char> {
    year_text(date.year as int) + date_part(
        '-',
        date.month,
        date_part(
            '-',
            date.day,
            date_part('T', date.hour, date_part(':', date.minute, date_part(':', date.second, Seq::empty()))),
        ),
    )
}

/// The date of which only the year is known.
pub open spec fn year_only(year: i32) -> Timestamp {
    Timestamp { year, month: None, day: None, hour: None, minute: None, second: None }
}

/// `<id3::Timestamp as Display>::fmt`: writes a recording date as the codec
/// stores it, the year with `{:04}` and each further part that is known, as
/// long as all before it are, behind its separator with `{:02}`.
#[verifier::external_body]
fn write_timestamp(date: &Timestamp) -> (r: String)
    ensures
        r@ == timestamp_text(*date),
{
    let t = id3::Timestamp {
        year: date.year,
        month: date.month,
        day: date.day,
        hour: date.hour,
        minute: date.minute,
        second: date.second,
    };
    t.to_string()
}

/// What this program reads of one file's tag container.
#[derive(Clone, Debug, PartialEq, Eq)]
pub struct TagData {
    pub title: Option<String>,
    pub artist: Option<String>,
    pub album: Option<String>,
    /// The container's recording date.
    pub date_recorded: Option<Timestamp>,
    pub track: Option<u32>,
    /// The raw bytes of the first embedded image.
    pub picture: Option<Vec<u8>>,
}

/// The mathematical content of a [`TagData`].
pub ghost struct TagView {
    pub title: Option<Seq<char>>,
    pub artist: Option<Seq<char>>,
    pub album: Option<Seq<char>>,
    pub date_recorded: Option<Timestamp>,
    pub track: Option<u32>,
    pub picture: Option<Seq<u8>>,
}

/// The characters of an optional string.
pub open spec fn text_of(value: Option<String>) -> Option<Seq<char>> {
    match value {
        Some(s) => Some(s@),
        None => None,
    }
}

/// The bytes of an optional byte vector.
pub open spec fn bytes_of(value: Option<Vec<u8>>) -> Option<Seq<u8>> {
    match value {
        Some(v) => Some(v@),
        None => None,
    }
}

impl View for TagData {
    type V = TagView;

    open spec fn view(&self) -> TagView {
        TagView {
            title: text_of(self.title),
            artist: text_of(self.artist),
            album: text_of(self.album),
            date_recorded: self.date_recorded,
            track: self.track,
            picture: bytes_of(self.picture),
        }
    }
}

/// The tag set of a file that has no tag container yet.
pub open spec fn empty_tag() -> TagView {
    TagView {
        title: None,
        artist: None,
        album: None,
        date_recorded: None,
        track: None,
        picture: None,
    }
}

/// The view of a tag that may be absent.
pub open spec fn view_of(tag: Option<TagData>) -> Option<TagView> {
    match tag {
        Some(t) => Some(t@),
        None => None,
    }
}

/// The view of a borrowed tag that may be absent.
pub open spec fn view_of_ref(tag: Option<&TagData>) -> Option<TagView> {
    match tag {
        Some(t) => Some(t@),
        None => None,
    }
}

/// The tag set that an edit starts from: the file's own, or the empty one
/// where the file has none.
pub open spec fn loaded(tag: Option<TagView>) -> TagView {
    match tag {
        Some(t) => t,
        None => empty_tag(),
    }
}

/// One file's tags as they are previewed.
#[derive(Clone, Debug, PartialEq, Eq)]
pub struct TagInfo {
    pub title: String,
    pub artist: String,
    pub album: String,
    pub year: String,
    pub track: String,
}

/// The mathematical content of a [`TagInfo`].
pub ghost struct TagInfoView {
    pub title: Seq<char>,
    pub artist: Seq<char>,
    pub album: Seq<char>,
    pub year: Seq<char>,
    pub track: Seq<char>,
}

impl View for TagInfo {
    type V = TagInfoView;

    open spec fn view(&self) -> TagInfoView {
        TagInfoView {
            title: self.title@,
            artist: self.artist@,
            album: self.album@,
            year: self.year@,
            track: self.track@,
        }
    }
}

/// What the preview shows in place of a value that the tags lack.
pub open spec fn unknown_text() -> Seq<char> {
    "Unknown"@
}

/// A value as the preview shows it.
pub open spec fn shown(value: Option<Seq<char>>) -> Seq<char> {
    match value {
        Some(v) => v,
        None => unknown_text(),
    }
}

/// The preview of a tag set.
pub open spec fn preview_of(tag: TagView) -> TagInfoView {
    TagInfoView {
        title: shown(tag.title),
        artist: shown(tag.artist),
        album: shown(tag.album),
        year: shown(
            match tag.date_recorded {
                Some(date) => Some(timestamp_text(date)),
                None => None,
            },
        ),
        track: shown(
            match tag.track {
                Some(n) => Some(decimal(n as nat)),
                None => None,
            },
        ),
    }
}

/// The text that editing a field starts from: the field's value, for the
/// date the year of the recording date, for the track its number.  A file
/// without tags, a value that the tags lack and a name outside the catalogue
/// all give the empty text.
pub open spec fn editable_text(tag: Option<TagView>, field: Seq<char>) -> Seq<char> {
    match tag {
        None => Seq::empty(),
        Some(t) => match Field::named(field) {
            Some(Field::SongName) => match t.title {
                Some(v) => v,
                None => Seq::empty(),
            },
            Some(Field::Artist) => match t.artist {
                Some(v) => v,
                None => Seq::empty(),
            },
            Some(Field::Album) => match t.album {
                Some(v) => v,
                None => Seq::empty(),
            },
            Some(Field::Date) => match t.date_recorded {
                Some(d) => signed_decimal(d.year as int),
                None => Seq::empty(),
            },
            Some(Field::Track) => match t.track {
                Some(n) => decimal(n as nat),
                None => Seq::empty(),
            },
            None => Seq::empty(),
        },
    }
}

/// The change that one edit makes to a tag set.
#[derive(Clone, Debug, PartialEq, Eq)]
pub enum FieldUpdate {
    Title(String),
    Artist(String),
    Album(String),
    DateRecorded(Timestamp),
    Track(u32),
    /// The edit changes nothing.
    Unchanged,
}

/// The mathematical content of a [`FieldUpdate`].
pub ghost enum UpdateView {
    Title(Seq<char>),
    Artist(Seq<char>),
    Album(Seq<char>),
    DateRecorded(Timestamp),
    Track(u32),
    Unchanged,
}

impl View for FieldUpdate {
    type V = UpdateView;

    open spec fn view(&self) -> UpdateView {
        match self {
            FieldUpdate::Title(v) => UpdateView::Title(v@),
            FieldUpdate::Artist(v) => UpdateView::Artist(v@),
            FieldUpdate::Album(v) => UpdateView::Album(v@),
            FieldUpdate::DateRecorded(d) => UpdateView::DateRecorded(*d),
            FieldUpdate::Track(n) => UpdateView::Track(*n),
            FieldUpdate::Unchanged => UpdateView::Unchanged,
        }
    }
}

/// The update for the date field, given the year read from the value: a
/// year becomes the recording date, of which then only the year is known; no
/// year changes nothing.
pub open spec fn date_update_of(parsed: Option<i32>) -> UpdateView {
    match parsed {
        Some(year) => UpdateView::DateRecorded(year_only(year)),
        None => UpdateView::Unchanged,
    }
}

/// The update for the track field, given the number read from the value: a
/// positive number becomes the track, zero and no number change nothing.
pub open spec fn track_update_of(parsed: Option<u32>) -> UpdateView {
    match parsed {
        Some(n) => if n > 0 {
            UpdateView::Track(n)
        } else {
            UpdateView::Unchanged
        },
        None => UpdateView::Unchanged,
    }
}

/// The update that writing `value` to the field called `field` makes.  The
/// three text fields take the value as it is; the date takes it only where
/// it is an integer year, the track only where it is a positive integer; a
/// name outside the catalogue changes nothing.
pub open spec fn update_for(field: Seq<char>, value: Seq<char>) -> UpdateView {
    match Field::named(field) {
        Some(Field::SongName) => UpdateView::Title(value),
        Some(Field::Artist) => UpdateView::Artist(value),
        Some(Field::Album) => UpdateView::Album(value),
        Some(Field::Date) => date_update_of(parsed_i32(value)),
        Some(Field::Track) => track_update_of(parsed_u32(value)),
        None => UpdateView::Unchanged,
    }
}

/// A tag set after an update: the one field named by the update is replaced,
/// every other stays.
pub open spec fn applied(tag: TagView, update: UpdateView) -> TagView {
    match update {
        UpdateView::Title(v) => TagView { title: Some(v), ..tag },
        UpdateView::Artist(v) => TagView { artist: Some(v), ..tag },
        UpdateView::Album(v) => TagView { album: Some(v), ..tag },
        UpdateView::DateRecorded(d) => TagView { date_recorded: Some(d), ..tag },
        UpdateView::Track(n) => TagView { track: Some(n), ..tag },
        UpdateView::Unchanged => tag,
    }
}

impl TagData {
    /// The tag set of a file that has no tag container yet.
    pub fn new() -> (tag: TagData)
        ensures
            tag@ == empty_tag(),
    {
        TagData {
            title: None,
            artist: None,
            album: None,
            date_recorded: None,
            track: None,
            picture: None,
        }
    }

    /// Carries out one update on this tag set.
    pub fn apply(&mut self, update: FieldUpdate)
        ensures
            final(self)@ == applied(old(self)@, update@),
    {
        match update {
            FieldUpdate::Title(v) => {
                self.title = Some(v);
            },
            FieldUpdate::Artist(v) => {
                self.artist = Some(v);
            },
            FieldUpdate::Album(v) => {
                self.album = Some(v);
            },
            FieldUpdate::DateRecorded(d) => {
                self.date_recorded = Some(d);
            },
            FieldUpdate::Track(n) => {
                self.track = Some(n);
            },
            FieldUpdate::Unchanged => {},
        }
    }

    /// Whether the tags hold an embedded image.
    pub fn has_picture(&self) -> (r: bool)
        ensures
            r == self@.picture.is_some(),
    {
        self.picture.is_some()
    }
}

/// Gives the update for the date field once the value has been read as a
/// year.
pub fn date_update(parsed: Option<i32>) -> (update: FieldUpdate)
    ensures
        update@ == date_update_of(parsed),
{
    match parsed {
        Some(year) => FieldUpdate::DateRecorded(
            Timestamp { year, month: None, day: None, hour: None, minute: None, second: None },
        ),
        None => FieldUpdate::Unchanged,
    }
}

/// Gives the update for the track field once the value has been read as a
/// number.
pub fn track_update(parsed: Option<u32>) -> (update: FieldUpdate)
    ensures
        update@ == track_update_of(parsed),
{
    match parsed {
        Some(n) => if n > 0 {
            FieldUpdate::Track(n)
        } else {
            FieldUpdate::Unchanged
        },
        None => FieldUpdate::Unchanged,
    }
}

/// Decides what writing `value` to the field called `field` changes.
pub fn field_update(field: &str, value: &str) -> (update: FieldUpdate)
    ensures
        update@ == update_for(field@, value@),
{
    match Field::from_name(field) {
        Some(Field::SongName) => FieldUpdate::Title(String::from_str(value)),
        Some(Field::Artist) => FieldUpdate::Artist(String::from_str(value)),
        Some(Field::Album) => FieldUpdate::Album(String::from_str(value)),
        Some(Field::Date) => date_update(parse_i32(value)),
        Some(Field::Track) => track_update(parse_u32(value)),
        None => FieldUpdate::Unchanged,
    }
}

/// Writes `value` to one field of a file's tags and returns the tag set to
/// store.  `tag` is what the file held, `None` where it had no readable tags:
/// the edit then starts from the empty tag set.  A date that is no integer
/// year and a track that is no positive integer leave the tags as they were.
pub fn modify_field(tag: Option<TagData>, field: &str, value: &str) -> (stored: TagData)
    ensures
        stored@ == applied(loaded(view_of(tag)), update_for(field@, value@)),
{
    let mut stored = match tag {
        Some(t) => t,
        None => TagData::new(),
    };
    stored.apply(field_update(field, value));
    stored
}

fn text_or_unknown(value: &Option<String>) -> (r: String)
    ensures
        r@ == shown(text_of(*value)),
{
    match value {
        Some(v) => v.clone(),
        None => String::from_str("Unknown"),
    }
}

fn text_or_empty(value: &Option<String>) -> (r: String)
    ensures
        r@ == match text_of(*value) {
            Some(v) => v,
            None => Seq::empty(),
        },
{
    match value {
        Some(v) => v.clone(),
        None => String::new(),
    }
}

/// Builds the preview of a tag set, given the text that the codec writes for
/// its recording date (`None` where it has none).
pub fn preview(tag: &TagData, date_text: Option<String>) -> (info: TagInfo)
    ensures
        info@ == (TagInfoView {
            title: shown(tag@.title),
            artist: shown(tag@.artist),
            album: shown(tag@.album),
            year: shown(text_of(date_text)),
            track: shown(
                match tag@.track {
                    Some(n) => Some(decimal(n as nat)),
                    None => None,
                },
            ),
        }),
{
    let track = match tag.track {
        Some(n) => decimal_text(n),
        None => String::from_str("Unknown"),
    };
    TagInfo {
        title: text_or_unknown(&tag.title),
        artist: text_or_unknown(&tag.artist),
        album: text_or_unknown(&tag.album),
        year: text_or_unknown(&date_text),
        track,
    }
}

/// Builds the preview of a file's tags.  A file without readable tags has no
/// preview; a value that the tags lack is shown as `Unknown`.
pub fn tags_for_file(tag: Option<&TagData>) -> (info: Option<TagInfo>)
    ensures
        info.is_some() == tag.is_some(),
        tag.is_some() ==> info.unwrap()@ == preview_of(tag.unwrap()@),
{
    match tag {
        None => None,
        Some(t) => {
            let date_text = match &t.date_recorded {
                Some(date) => Some(write_timestamp(date)),
                None => None,
            };
            Some(preview(t, date_text))
        },
    }
}

/// Gives the text that editing the field called `field` starts from.
pub fn field_text(tag: Option<&TagData>, field: &str) -> (text: String)
    ensures
        text@ == editable_text(view_of_ref(tag), field@),
{
    match tag {
        None => String::new(),
        Some(t) => match Field::from_name(field) {
            Some(Field::SongName) => text_or_empty(&t.title),
            Some(Field::Artist) => text_or_empty(&t.artist),
            Some(Field::Album) => text_or_empty(&t.album),
            Some(Field::Date) => match &t.date_recorded {
                Some(d) => signed_decimal_text(d.year),
                None => String::new(),
            },
            Some(Field::Track) => match t.track {
                Some(n) => decimal_text(n),
                None => String::new(),
            },
            None => String::new(),
        },
    }
}

/// Takes the raw bytes of the first embedded image out of a file's tags.
pub fn extract_album_art_bytes(tag: Option<&TagData>) -> (bytes: Option<Vec<u8>>)
    ensures
        bytes_of(bytes) == match view_of_ref(tag) {
            Some(t) => t.picture,
            None => None,
        },
{
    match tag {
        None => None,
        Some(t) => match &t.picture {
            Some(data) => Some(data.clone()),
            None => None,
        },
    }
}

/// Writing a value to one of the three text fields and reading the field back
/// gives that value, whatever the value and whatever the file held before:
/// in the editing text and in the preview alike.
pub proof fn lemma_write_then_read(tag: Option<TagView>, field: Field, value: Seq<char>)
    requires
        field == Field::SongName || field == Field::Artist || field == Field::Album,
    ensures
        editable_text(Some(applied(loaded(tag), update_for(field.name(), value))), field.name())
            == value,
        field == Field::SongName ==> preview_of(
            applied(loaded(tag), update_for(field.name(), value)),
        ).title == value,
        field == Field::Artist ==> preview_of(
            applied(loaded(tag), update_for(field.name(), value)),
        ).artist == value,
        field == Field::Album ==> preview_of(
            applied(loaded(tag), update_for(field.name(), value)),
        ).album == value,
{
    crate::fields::lemma_field_names_distinct(field);
}

/// A date value that is no integer year, and a track value that is no
/// positive integer, leave the whole tag set as it was: every field reads as
/// before.
pub proof fn lemma_unreadable_value_changes_nothing(tag: Option<TagView>, field: Field, value: Seq<char>)
    requires
        (field == Field::Date && parsed_i32(value).is_none()) || (field == Field::Track && (parsed_u32(
            value,
        ).is_none() || parsed_u32(value) == Some(0u32))),
    ensures
        applied(loaded(tag), update_for(field.name(), value)) == loaded(tag),
        forall|other: Seq<char>|
            editable_text(Some(applied(loaded(tag), update_for(field.name(), value))), other)
                == editable_text(Some(loaded(tag)), other),
        preview_of(applied(loaded(tag), update_for(field.name(), value))) == preview_of(loaded(tag)),
{
    crate::fields::lemma_field_names_distinct(field);
}

/// Writing an integer year to the date and reading the date back gives that
/// year: whatever text wrote the year, the recording date is that year alone,
/// the edit starts from the year in decimal, the preview shows it as tag
/// containers store a year, and a year written in decimal comes back for
/// editing as it was written.
pub proof fn lemma_written_year_is_offered(tag: Option<TagView>, value: Seq<char>, year: i32)
    ensures
        parsed_i32(value) == Some(year) ==> applied(
            loaded(tag),
            update_for(Field::Date.name(), value),
        ).date_recorded == Some(year_only(year)) && editable_text(
            Some(applied(loaded(tag), update_for(Field::Date.name(), value))),
            Field::Date.name(),
        ) == signed_decimal(year as int) && preview_of(
            applied(loaded(tag), update_for(Field::Date.name(), value)),
        ).year == year_text(year as int),
        editable_text(
            Some(applied(loaded(tag), update_for(Field::Date.name(), signed_decimal(year as int)))),
            Field::Date.name(),
        ) == signed_decimal(year as int),
{
    crate::fields::lemma_field_names_distinct(Field::Date);
    lemma_signed_decimal_reads_back(year);
    assert(timestamp_text(year_only(year)) =~= year_text(year as int));
}

/// Writing a positive integer to the track and opening the track for editing
/// gives that number in decimal, and a positive number written in decimal
/// comes back as it was written.
pub proof fn lemma_written_track_is_offered(tag: Option<TagView>, value: Seq<char>, track: u32)
    requires
        track > 0,
    ensures
        parsed_u32(value) == Some(track) ==> applied(
            loaded(tag),
            update_for(Field::Track.name(), value),
        ).track == Some(track) && editable_text(
            Some(applied(loaded(tag), update_for(Field::Track.name(), value))),
            Field::Track.name(),
        ) == decimal(track as nat),
        editable_text(
            Some(applied(loaded(tag), update_for(Field::Track.name(), decimal(track as nat)))),
            Field::Track.name(),
        ) == decimal(track as nat),
{
    crate::fields::lemma_field_names_distinct(Field::Track);
    lemma_decimal_reads_back(track);
}

/// An edit touches one field only: each of the others reads as before.
pub proof fn lemma_update_touches_one_field(tag: TagView, field: Field, value: Seq<char>)
    ensures
        ({
            let after = applied(tag, update_for(field.name(), value));
            &&& field != Field::SongName ==> after.title == tag.title
            &&& field != Field::Artist ==> after.artist == tag.artist
            &&& field != Field::Album ==> after.album == tag.album
            &&& field != Field::Date ==> after.date_recorded == tag.date_recorded
            &&& field != Field::Track ==> after.track == tag.track
            &&& after.picture == tag.picture
        }),
{
    crate::fields::lemma_field_names_distinct(field);
}

} // verus!
