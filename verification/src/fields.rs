//! The fixed catalogue of the tag fields that can be edited.

use crate::text::same_text;
use vstd::prelude::*;
use vstd::string::*;

verus! {

/// One of the five editable tag fields, in the order of the catalogue.
#[derive(Clone, Copy, Debug, PartialEq, Eq, Structural)]
pub enum Field {
    SongName,
    Artist,
    Album,
    Date,
    Track,
}

/// How many fields the catalogue holds.
pub const FIELD_COUNT: usize = 5;

impl Field {
    /// The name under which the field is listed.
    pub open spec fn name(self) -> Seq<char> {
        match self {
            Field::SongName => "Song Name"@,
            Field::Artist => "Artist"@,
            Field::Album => "Album"@,
            Field::Date => "Date"@,
            Field::Track => "Track"@,
        }
    }

    /// The field's place in the catalogue.
    pub open spec fn position(self) -> int {
        match self {
            Field::SongName => 0,
            Field::Artist => 1,
            Field::Album => 2,
            Field::Date => 3,
            Field::Track => 4,
        }
    }

    /// The field listed under `name`, if there is one.
    pub open spec fn named(name: Seq<char>) -> Option<Field> {
        if name == Field::SongName.name() {
            Some(Field::SongName)
        } else if name == Field::Artist.name() {
            Some(Field::Artist)
        } else if name == Field::Album.name() {
            Some(Field::Album)
        } else if name == Field::Date.name() {
            Some(Field::Date)
        } else if name == Field::Track.name() {
            Some(Field::Track)
        } else {
            None
        }
    }

    /// The name under which the field is listed.
    pub fn label(self) -> (s: &'static str)
        ensures
            s@ == self.name(),
    {
        match self {
            Field::SongName => "Song Name",
            Field::Artist => "Artist",
            Field::Album => "Album",
            Field::Date => "Date",
            Field::Track => "Track",
        }
    }

    /// Finds the field listed under `name`.
    pub fn from_name(name: &str) -> (r: Option<Field>)
        ensures
            r == Field::named(name@),
    {
        if same_text(name, "Song Name") {
            Some(Field::SongName)
        } else if same_text(name, "Artist") {
            Some(Field::Artist)
        } else if same_text(name, "Album") {
            Some(Field::Album)
        } else if same_text(name, "Date") {
            Some(Field::Date)
        } else if same_text(name, "Track") {
            Some(Field::Track)
        } else {
            None
        }
    }
}

/// The names of the catalogue, in order.
pub open spec fn catalog_names() -> Seq<Seq<char>> {
    seq![
        Field::SongName.name(),
        Field::Artist.name(),
        Field::Album.name(),
        Field::Date.name(),
        Field::Track.name(),
    ]
}

/// The catalogue of field names, in the order in which they are offered.
pub fn catalog() -> (names: Vec<String>)
    ensures
        names@.len() == FIELD_COUNT,
        forall|i: int| 0 <= i < names@.len() ==> (#[trigger] names@[i])@ == catalog_names()[i],
{
    let mut names: Vec<String> = Vec::new();
    names.push(String::from_str(Field::SongName.label()));
    names.push(String::from_str(Field::Artist.label()));
    names.push(String::from_str(Field::Album.label()));
    names.push(String::from_str(Field::Date.label()));
    names.push(String::from_str(Field::Track.label()));
    names
}

/// No two fields share a name, so a name finds the field it belongs to, and
/// each field's name stands at the field's place in the catalogue.
pub proof fn lemma_field_names_distinct(f: Field)
    ensures
        Field::named(f.name()) == Some(f),
        catalog_names()[f.position()] == f.name(),
        0 <= f.position() < FIELD_COUNT,
{
    reveal_strlit("Song Name");
    reveal_strlit("Artist");
    reveal_strlit("Album");
    reveal_strlit("Date");
    reveal_strlit("Track");
    assert("Song Name"@.len() == 9);
    assert("Artist"@.len() == 6);
    assert("Album"@.len() == 5);
    assert("Date"@.len() == 4);
    assert("Track"@.len() == 5);
    assert("Album"@[0] == 'A');
    assert("Track"@[0] == 'T');
}

} // verus!
