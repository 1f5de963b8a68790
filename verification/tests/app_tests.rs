use metamusic::app::{App, Mode};
use metamusic::files::DirEntry;
use metamusic::keys::{command_for_key, Command, Key};
use metamusic::tags::{modify_field, tags_for_file, FieldUpdate, TagData, Timestamp};
use ratatui_image::picker::Picker;
use std::sync::Arc;

fn app_with(names: &[&str]) -> App {
    let entries: Vec<DirEntry> =
        names.iter().map(|n| DirEntry { name: n.to_string(), is_file: true }).collect();
    App::new(&entries, Picker::from_fontsize((10, 24)))
}

fn tag_with_artist(artist: &str) -> TagData {
    let mut tag = TagData::new();
    tag.artist = Some(artist.to_string());
    tag
}

#[test]
fn a_new_app_starts_in_the_file_list() {
    let app = app_with(&["b.mp3", "a.mp3", "notes.txt"]);
    assert_eq!(app.files(), ["a.mp3".to_string(), "b.mp3".to_string()]);
    assert_eq!(app.selected_file(), 0);
    assert_eq!(app.current_file(), "a.mp3");
    assert_eq!(app.fields(), ["Song Name", "Artist", "Album", "Date", "Track"]);
    assert_eq!(app.selected_field(), 0);
    assert_eq!(app.input_buffer(), "");
    assert_eq!(app.current_field(), None);
    assert_eq!(*app.mode(), Mode::FileSelection);
    assert_eq!(app.message(), "Select a file to edit");
    assert!(!app.has_album_art("a.mp3", None));
}

#[test]
fn the_file_selection_goes_round() {
    let mut app = app_with(&["a.mp3", "b.mp3", "c.mp3"]);
    app.next_item();
    assert_eq!(app.selected_file(), 1);
    assert_eq!(app.current_file(), "b.mp3");
    app.next_item();
    assert_eq!(app.selected_file(), 2);
    app.next_item();
    assert_eq!(app.selected_file(), 0);
    assert_eq!(app.current_file(), "a.mp3");
    app.previous_item();
    assert_eq!(app.selected_file(), 2);
    assert_eq!(app.current_file(), "c.mp3");
    app.previous_item();
    assert_eq!(app.selected_file(), 1);
    assert_eq!(app.selected_field(), 0);
}

#[test]
fn a_single_file_stays_selected() {
    let mut app = app_with(&["only.mp3"]);
    app.next_item();
    assert_eq!(app.selected_file(), 0);
    app.previous_item();
    assert_eq!(app.selected_file(), 0);
}

#[test]
fn the_field_selection_goes_round() {
    let mut app = app_with(&["a.mp3", "b.mp3"]);
    app.start_field_selection();
    for expected in [1, 2, 3, 4, 0, 1] {
        app.next_item();
        assert_eq!(app.selected_field(), expected);
    }
    for expected in [0, 4, 3, 2, 1, 0, 4] {
        app.previous_item();
        assert_eq!(app.selected_field(), expected);
    }
    assert_eq!(app.selected_file(), 0);
}

#[test]
fn without_files_nothing_can_be_chosen() {
    let mut app = app_with(&[]);
    assert!(app.files().is_empty());
    assert_eq!(app.current_file(), "");
    app.start_field_selection();
    assert_eq!(*app.mode(), Mode::FileSelection);
    assert_eq!(app.message(), "Select a file to edit");
    app.next_item();
    app.previous_item();
    assert_eq!(app.selected_file(), 0);
    assert_eq!(*app.mode(), Mode::FileSelection);
}

#[test]
fn choosing_a_file_opens_the_field_list() {
    let mut app = app_with(&["a.mp3", "b.mp3"]);
    app.next_item();
    app.start_field_selection();
    assert_eq!(*app.mode(), Mode::FieldSelection);
    assert_eq!(app.message(), "Editing: b.mp3");
    assert_eq!(app.current_file(), "b.mp3");
    app.back_to_files();
    assert_eq!(*app.mode(), Mode::FileSelection);
    assert_eq!(app.message(), "Select a file to edit");
    assert_eq!(app.selected_file(), 1);
}

#[test]
fn editing_an_artist_from_old_to_new() {
    let mut stored = tag_with_artist("Old");
    let mut app = app_with(&["a.mp3", "b.mp3"]);
    assert_eq!(*app.mode(), Mode::FileSelection);

    app.start_field_selection();
    assert_eq!(*app.mode(), Mode::FieldSelection);

    app.next_item();
    assert_eq!(app.fields()[app.selected_field()], "Artist");
    app.start_editing(Some(&stored));
    assert_eq!(*app.mode(), Mode::Editing);
    assert_eq!(app.current_field().map(|f| f.as_str()), Some("Artist"));
    assert_eq!(app.input_buffer(), "Old");

    app.pop_from_buffer();
    app.pop_from_buffer();
    app.pop_from_buffer();
    assert_eq!(app.input_buffer(), "");
    app.push_to_buffer('N');
    app.push_to_buffer('e');
    app.push_to_buffer('w');
    assert_eq!(app.input_buffer(), "New");

    let request = app.pending_write().unwrap();
    assert_eq!(request.file, "a.mp3");
    assert!(matches!(&request.update, FieldUpdate::Artist(v) if v == "New"));
    stored.apply(request.update);
    app.finish_editing(Ok(()));

    assert_eq!(*app.mode(), Mode::FieldSelection);
    assert_eq!(app.message(), "\u{2713} Updated Artist to 'New'");
    assert_eq!(app.input_buffer(), "");
    assert_eq!(app.current_field(), None);
    assert_eq!(tags_for_file(Some(&stored)).unwrap().artist, "New");
    assert_eq!(app.tags_for_file(Some(&stored)).unwrap().artist, "New");
}

#[test]
fn the_same_edit_driven_by_keys() {
    let mut stored = Some(tag_with_artist("Old"));
    let mut app = app_with(&["a.mp3", "b.mp3"]);
    let keys = [
        Key::Enter,
        Key::Down,
        Key::Enter,
        Key::Backspace,
        Key::Backspace,
        Key::Backspace,
        Key::Char('N'),
        Key::Char('e'),
        Key::Char('w'),
        Key::Enter,
    ];
    for key in keys {
        match command_for_key(*app.mode(), key) {
            Command::Quit => panic!("no key quits here"),
            Command::Next => app.next_item(),
            Command::Previous => app.previous_item(),
            Command::SelectFile => app.start_field_selection(),
            Command::BackToFiles => app.back_to_files(),
            Command::StartEditing => app.start_editing(stored.as_ref()),
            Command::FinishEditing => {
                if let Some(request) = app.pending_write() {
                    let mut tag = stored.take().unwrap_or_else(TagData::new);
                    tag.apply(request.update);
                    stored = Some(tag);
                }
                app.finish_editing(Ok(()));
            }
            Command::CancelEditing => app.cancel_editing(),
            Command::Type(c) => app.push_to_buffer(c),
            Command::DeleteLast => app.pop_from_buffer(),
            Command::Ignore => {}
        }
    }
    assert_eq!(*app.mode(), Mode::FieldSelection);
    assert_eq!(stored.as_ref().unwrap().artist.as_deref(), Some("New"));
    assert_eq!(app.message(), "\u{2713} Updated Artist to 'New'");
}

#[test]
fn a_pending_write_matches_modify_field() {
    let mut app = app_with(&["a.mp3"]);
    app.start_field_selection();
    app.start_editing(None);
    assert_eq!(app.input_buffer(), "");
    for c in "Title".chars() {
        app.push_to_buffer(c);
    }
    let request = app.pending_write().unwrap();
    let mut by_request = TagData::new();
    by_request.apply(request.update);
    let by_write = modify_field(None, "Song Name", "Title");
    assert_eq!(by_request.title, by_write.title);
    assert_eq!(by_write.title.as_deref(), Some("Title"));
}

#[test]
fn a_failed_write_is_reported_and_the_edit_ends() {
    let mut app = app_with(&["a.mp3"]);
    app.start_field_selection();
    app.start_editing(Some(&tag_with_artist("x")));
    app.push_to_buffer('y');
    app.finish_editing(Err("permission denied".to_string()));
    assert_eq!(*app.mode(), Mode::FieldSelection);
    assert_eq!(app.message(), "\u{2717} Error: permission denied");
    assert_eq!(app.input_buffer(), "");
    assert_eq!(app.current_field(), None);
    assert!(app.pending_write().is_none());
}

#[test]
fn a_cancelled_edit_leaves_no_session() {
    let mut app = app_with(&["a.mp3"]);
    app.start_field_selection();
    app.start_editing(None);
    app.push_to_buffer('x');
    app.cancel_editing();
    assert_eq!(*app.mode(), Mode::FieldSelection);
    assert_eq!(app.message(), "Edit cancelled");
    assert_eq!(app.input_buffer(), "");
    assert_eq!(app.current_field(), None);
    assert!(app.pending_write().is_none());
}

#[test]
fn an_edit_starts_from_the_selected_field_s_value() {
    let mut tag = TagData::new();
    tag.title = Some("T".to_string());
    tag.album = Some("L".to_string());
    tag.date_recorded =
        Some(Timestamp { year: 1984, month: Some(6), day: None, hour: None, minute: None, second: None });
    tag.track = Some(12);
    let expected = [("Song Name", "T"), ("Artist", ""), ("Album", "L"), ("Date", "1984"), ("Track", "12")];
    let mut app = app_with(&["a.mp3"]);
    app.start_field_selection();
    for (field, text) in expected {
        app.start_editing(Some(&tag));
        assert_eq!(app.current_field().map(|f| f.as_str()), Some(field));
        assert_eq!(app.input_buffer(), text);
        app.cancel_editing();
        app.next_item();
    }
}

#[test]
fn an_edit_of_a_file_without_tags_starts_empty() {
    let mut app = app_with(&["a.mp3"]);
    app.start_field_selection();
    app.start_editing(None);
    assert_eq!(*app.mode(), Mode::Editing);
    assert_eq!(app.input_buffer(), "");
    app.pop_from_buffer();
    assert_eq!(app.input_buffer(), "");
}

#[test]
fn the_selection_does_not_move_while_editing() {
    let mut app = app_with(&["a.mp3", "b.mp3"]);
    app.start_field_selection();
    app.next_item();
    app.start_editing(None);
    app.next_item();
    app.previous_item();
    app.previous_item();
    assert_eq!(app.selected_file(), 0);
    assert_eq!(app.selected_field(), 1);
    assert_eq!(*app.mode(), Mode::Editing);
}

#[test]
fn typing_outside_an_edit_does_nothing() {
    let mut app = app_with(&["a.mp3"]);
    app.push_to_buffer('x');
    app.pop_from_buffer();
    assert_eq!(app.input_buffer(), "");
    assert_eq!(*app.mode(), Mode::FileSelection);
    app.start_field_selection();
    app.push_to_buffer('x');
    assert_eq!(app.input_buffer(), "");
    assert!(app.pending_write().is_none());
}

#[test]
fn ending_an_edit_that_never_started_keeps_the_message() {
    let mut app = app_with(&["a.mp3"]);
    app.start_field_selection();
    app.finish_editing(Ok(()));
    assert_eq!(*app.mode(), Mode::FieldSelection);
    assert_eq!(app.message(), "Editing: a.mp3");
}

#[test]
fn the_status_line_can_be_replaced() {
    let mut app = app_with(&["a.mp3"]);
    app.set_message("Error: disk full".to_string());
    assert_eq!(app.message(), "Error: disk full");
    assert_eq!(*app.mode(), Mode::FileSelection);
    assert_eq!(app.selected_file(), 0);
}

#[test]
fn the_app_caches_artwork_per_file() {
    let image = image::DynamicImage::new_rgb8(2, 2);
    let mut bytes = Vec::new();
    image.write_to(&mut std::io::Cursor::new(&mut bytes), image::ImageFormat::Png).unwrap();
    let mut tag = TagData::new();
    tag.picture = Some(bytes);

    let mut app = app_with(&["a.mp3", "b.mp3"]);
    assert!(app.has_album_art("a.mp3", Some(&tag)));
    assert!(!app.has_album_art("b.mp3", None));
    let first = app.load_album_art("a.mp3", Some(&tag)).unwrap();
    let second = app.load_album_art("a.mp3", None).unwrap();
    assert!(Arc::ptr_eq(&first, &second));
    assert!(app.has_album_art("a.mp3", None));
    assert!(app.load_album_art("b.mp3", None).is_none());
    assert!(!app.has_album_art("b.mp3", None));
    assert_eq!(*app.mode(), Mode::FileSelection);
    assert_eq!(app.selected_file(), 0);
}

#[test]
fn the_preview_of_a_file_without_tags_is_absent() {
    let app = app_with(&["a.mp3"]);
    assert!(app.tags_for_file(None).is_none());
    let info = app.tags_for_file(Some(&TagData::new())).unwrap();
    assert_eq!(info.title, "Unknown");
}

#[test]
fn a_written_date_is_what_the_next_edit_starts_from() {
    let mut stored: Option<TagData> = None;
    let mut app = app_with(&["a.mp3"]);
    app.start_field_selection();
    app.next_item();
    app.next_item();
    app.next_item();
    assert_eq!(app.fields()[app.selected_field()], "Date");
    app.start_editing(stored.as_ref());
    assert_eq!(app.input_buffer(), "");
    for c in "1999".chars() {
        app.push_to_buffer(c);
    }
    let request = app.pending_write().unwrap();
    let mut tag = stored.take().unwrap_or_else(TagData::new);
    tag.apply(request.update);
    stored = Some(tag);
    app.finish_editing(Ok(()));
    assert_eq!(app.message(), "\u{2713} Updated Date to '1999'");
    app.start_editing(stored.as_ref());
    assert_eq!(app.input_buffer(), "1999");
}
