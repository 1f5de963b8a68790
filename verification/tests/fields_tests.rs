use metamusic::fields::{catalog, Field, FIELD_COUNT};

#[test]
fn the_catalogue_lists_the_five_fields_in_order() {
    assert_eq!(catalog(), vec!["Song Name", "Artist", "Album", "Date", "Track"]);
    assert_eq!(FIELD_COUNT, 5);
}

#[test]
fn a_name_finds_its_field() {
    assert_eq!(Field::from_name("Song Name"), Some(Field::SongName));
    assert_eq!(Field::from_name("Artist"), Some(Field::Artist));
    assert_eq!(Field::from_name("Album"), Some(Field::Album));
    assert_eq!(Field::from_name("Date"), Some(Field::Date));
    assert_eq!(Field::from_name("Track"), Some(Field::Track));
    assert_eq!(Field::from_name("track"), None);
    assert_eq!(Field::from_name(""), None);
    assert_eq!(Field::from_name("Song Name "), None);
}

#[test]
fn labels_agree_with_the_catalogue() {
    let fields = [Field::SongName, Field::Artist, Field::Album, Field::Date, Field::Track];
    let names = catalog();
    assert_eq!(names.len(), FIELD_COUNT);
    for (position, field) in fields.iter().enumerate() {
        assert_eq!(field.label(), names[position]);
        assert_eq!(Field::from_name(field.label()), Some(*field));
    }
}
