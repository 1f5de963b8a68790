//! The state machine behind the editor's screen: which file and which field
//! are selected, whether a value is being edited, and what the status line
//! says.
//!
//! The machine never touches the disk.  Where a transition needs a file's
//! tags, the caller reads them and passes them in; where it ends an edit, the
//! caller asks for the pending write, carries it out and reports how it went.

use crate::artwork::{load_outcome, reports_artwork, ArtHandle, ArtworkCache};
use crate::fields::{catalog, catalog_names, Field, FIELD_COUNT};
use crate::files::{get_mp3_files, is_file_list, names_of, strictly_sorted, DirEntry};
use crate::tags::{
    editable_text, field_text, field_update, preview_of, update_for, view_of_ref, FieldUpdate, TagData,
    TagInfo, TagView, UpdateView,
};
use crate::text::{pop_char, push_char};
use vstd::prelude::*;
use vstd::string::*;

verus! {

/// Which part of the screen takes the user's input.
#[derive(Clone, Copy, Debug, PartialEq, Eq, Structural)]
pub enum Mode {
    FileSelection,
    FieldSelection,
    Editing,
}

/// Where the machine stands.  An edit session, the field being edited and the
/// text typed so far, exists in the editing stage only.
enum Stage {
    FileSelection,
    FieldSelection,
    Editing { field: String, buffer: String },
}

/// The mathematical content of the machine's stage.
pub ghost enum StageView {
    FileSelection,
    FieldSelection,
    Editing { field: Seq<char>, buffer: Seq<char> },
}

impl StageView {
    /// The mode that the stage shows as.
    pub open spec fn mode(self) -> Mode {
        match self {
            StageView::FileSelection => Mode::FileSelection,
            StageView::FieldSelection => Mode::FieldSelection,
            StageView::Editing { .. } => Mode::Editing,
        }
    }

    /// The text typed so far; empty outside an edit.
    pub open spec fn buffer(self) -> Seq<char> {
        match self {
            StageView::Editing { buffer, .. } => buffer,
            _ => Seq::empty(),
        }
    }

    /// The name of the field being edited, if one is.
    pub open spec fn field(self) -> Option<Seq<char>> {
        match self {
            StageView::Editing { field, .. } => Some(field),
            _ => None,
        }
    }
}

/// The mathematical content of an [`App`].
pub ghost struct AppView {
    pub files: Seq<Seq<char>>,
    pub selected_file: int,
    pub selected_field: int,
    pub stage: StageView,
    pub message: Seq<char>,
    pub artwork: Map<Seq<char>, ArtHandle>,
}

/// The status line while a file is to be chosen.
pub open spec fn select_file_message() -> Seq<char> {
    "Select a file to edit"@
}

/// The status line once `file` has been chosen.
pub open spec fn editing_message(file: Seq<char>) -> Seq<char> {
    "Editing: "@ + file
}

/// The status line after `value` has been written to `field`.
pub open spec fn updated_message(field: Seq<char>, value: Seq<char>) -> Seq<char> {
    "\u{2713} Updated "@ + field + " to '"@ + value + "'"@
}

/// The status line after a write has failed with `error`.
pub open spec fn failed_message(error: Seq<char>) -> Seq<char> {
    "\u{2717} Error: "@ + error
}

/// The status line after an edit has been given up.
pub open spec fn cancelled_message() -> Seq<char> {
    "Edit cancelled"@
}

/// The index after `index` in a list of `len` items, going round to the
/// first after the last.
pub open spec fn wrap_next(index: int, len: int) -> int {
    (index + 1) % len
}

/// The index before `index` in a list of `len` items, going round to the
/// last before the first.
pub open spec fn wrap_previous(index: int, len: int) -> int {
    if index > 0 {
        index - 1
    } else {
        len - 1
    }
}

/// The error text of a failed write.
pub open spec fn error_of(outcome: Result<(), String>) -> Option<Seq<char>> {
    match outcome {
        Ok(_) => None,
        Err(e) => Some(e@),
    }
}

impl AppView {
    /// What holds of every state of the machine: the file list is sorted
    /// and free of duplicates, both selections point into their lists, and an
    /// edit is an edit of the selected field.
    pub open spec fn valid(self) -> bool {
        &&& strictly_sorted(self.files)
        &&& self.files.len() > 0 ==> 0 <= self.selected_file < self.files.len()
        &&& self.files.len() == 0 ==> self.selected_file == 0
        &&& 0 <= self.selected_field < FIELD_COUNT
        &&& self.stage matches StageView::Editing { field, .. } ==> field == catalog_names()[self.selected_field]
    }

    /// The name of the selected file; empty where there are no files.
    pub open spec fn current_file(self) -> Seq<char> {
        if self.files.len() > 0 {
            self.files[self.selected_file]
        } else {
            Seq::empty()
        }
    }

    /// The state after moving the selection one item on.
    pub open spec fn next(self) -> AppView {
        match self.stage {
            StageView::FileSelection => if self.files.len() > 0 {
                AppView { selected_file: wrap_next(self.selected_file, self.files.len() as int), ..self }
            } else {
                self
            },
            StageView::FieldSelection => AppView {
                selected_field: wrap_next(self.selected_field, FIELD_COUNT as int),
                ..self
            },
            StageView::Editing { .. } => self,
        }
    }

    /// The state after moving the selection one item back.
    pub open spec fn previous(self) -> AppView {
        match self.stage {
            StageView::FileSelection => if self.files.len() > 0 {
                AppView {
                    selected_file: wrap_previous(self.selected_file, self.files.len() as int),
                    ..self
                }
            } else {
                self
            },
            StageView::FieldSelection => AppView {
                selected_field: wrap_previous(self.selected_field, FIELD_COUNT as int),
                ..self
            },
            StageView::Editing { .. } => self,
        }
    }

    /// The state after choosing the selected file.  Without files nothing
    /// can be chosen and the state stays.
    pub open spec fn field_selection(self) -> AppView {
        if self.files.len() > 0 {
            AppView {
                stage: StageView::FieldSelection,
                message: editing_message(self.current_file()),
                ..self
            }
        } else {
            self
        }
    }

    /// The state after opening the selected field of a file whose tags are
    /// `tag` for editing.
    pub open spec fn editing(self, tag: Option<TagView>) -> AppView {
        let field = catalog_names()[self.selected_field];
        AppView { stage: StageView::Editing { field, buffer: editable_text(tag, field) }, ..self }
    }

    /// The state after an edit has ended with a write that went as `error`
    /// says: `None` for a success, the error's text for a failure.
    pub open spec fn finished(self, error: Option<Seq<char>>) -> AppView {
        match self.stage {
            StageView::Editing { field, buffer } => AppView {
                stage: StageView::FieldSelection,
                message: match error {
                    None => updated_message(field, buffer),
                    Some(e) => failed_message(e),
                },
                ..self
            },
            _ => AppView { stage: StageView::FieldSelection, ..self },
        }
    }

    /// The state after giving an edit up.
    pub open spec fn cancelled(self) -> AppView {
        AppView { stage: StageView::FieldSelection, message: cancelled_message(), ..self }
    }

    /// The state after going back to the file list.
    pub open spec fn back(self) -> AppView {
        AppView { stage: StageView::FileSelection, message: select_file_message(), ..self }
    }

    /// The state after typing `c`.
    pub open spec fn pushed(self, c: char) -> AppView {
        match self.stage {
            StageView::Editing { field, buffer } => AppView {
                stage: StageView::Editing { field, buffer: buffer.push(c) },
                ..self
            },
            _ => self,
        }
    }

    /// The state after deleting the last character typed.
    pub open spec fn popped(self) -> AppView {
        match self.stage {
            StageView::Editing { field, buffer } => if buffer.len() > 0 {
                AppView { stage: StageView::Editing { field, buffer: buffer.drop_last() }, ..self }
            } else {
                self
            },
            _ => self,
        }
    }

    /// The write that ending the edit asks for: which file, and what to
    /// change in its tags.
    pub open spec fn pending_write(self) -> Option<(Seq<char>, UpdateView)> {
        match self.stage {
            StageView::Editing { field, buffer } => Some((self.current_file(), update_for(field, buffer))),
            _ => None,
        }
    }
}

/// A write that the caller is to carry out before the edit ends.
#[derive(Debug)]
pub struct WriteRequest {
    /// The name of the file whose tags change.
    pub file: String,
    /// What changes in them.
    pub update: FieldUpdate,
}

/// The editor's state.
pub struct App {
    files: Vec<String>,
    selected_file: usize,
    fields: Vec<String>,
    selected_field: usize,
    stage: Stage,
    message: String,
    album_art_cache: ArtworkCache,
}

impl View for App {
    type V = AppView;

    closed spec fn view(&self) -> AppView {
        AppView {
            files: names_of(self.files@),
            selected_file: self.selected_file as int,
            selected_field: self.selected_field as int,
            stage: match self.stage {
                Stage::FileSelection => StageView::FileSelection,
                Stage::FieldSelection => StageView::FieldSelection,
                Stage::Editing { field, buffer } => StageView::Editing { field: field@, buffer: buffer@ },
            },
            message: self.message@,
            artwork: self.album_art_cache@,
        }
    }
}

impl App {
    /// Whether the state is one that the machine can be in.  [`App::new`]
    /// gives such a state and every method keeps it.
    pub closed spec fn wf(&self) -> bool {
        &&& self@.valid()
        &&& self.fields@.len() == FIELD_COUNT
        &&& forall|i: int| 0 <= i < self.fields@.len() ==> (#[trigger] self.fields@[i])@ == catalog_names()[i]
    }

    /// A state that the machine can be in is valid.
    pub proof fn lemma_wf_is_valid(&self)
        requires
            self.wf(),
        ensures
            self@.valid(),
    {
    }

    /// Starts in the file list of the directory listing `entries`, with the
    /// first file selected, no artwork cached, and `image_picker` to prepare
    /// artwork with.
    pub fn new(entries: &Vec<DirEntry>, image_picker: ratatui_image::picker::Picker) -> (app: App)
        ensures
            app.wf(),
            app@.valid(),
            is_file_list(entries@, app@.files),
            app@.selected_file == 0,
            app@.selected_field == 0,
            app@.stage == StageView::FileSelection,
            app@.message == select_file_message(),
            app@.artwork == Map::<Seq<char>, ArtHandle>::empty(),
    {
        App {
            files: get_mp3_files(entries),
            selected_file: 0,
            fields: catalog(),
            selected_field: 0,
            stage: Stage::FileSelection,
            message: String::from_str("Select a file to edit"),
            album_art_cache: ArtworkCache::new(image_picker),
        }
    }

    /// Hands out the artwork of the file called `filename`, whose tags are
    /// `tag` (`None` where the file has no readable tags): the cached handle
    /// where there is one, else a handle made from the first embedded image
    /// and cached from now on, else nothing.
    pub fn load_album_art(&mut self, filename: &str, tag: Option<&TagData>) -> (r: Option<ArtHandle>)
        requires
            old(self).wf(),
        ensures
            final(self).wf(),
            load_outcome(old(self)@.artwork, filename@, view_of_ref(tag), final(self)@.artwork, r),
            final(self)@ == (AppView { artwork: final(self)@.artwork, ..old(self)@ }),
            final(self)@.valid(),
    {
        self.album_art_cache.load(filename, tag)
    }

    /// Tells whether there is artwork for the file called `filename`, whose
    /// tags are `tag`.
    pub fn has_album_art(&self, filename: &str, tag: Option<&TagData>) -> (r: bool)
        ensures
            r == reports_artwork(self@.artwork, filename@, view_of_ref(tag)),
    {
        self.album_art_cache.has_artwork(filename, tag)
    }

    /// Moves the selection one item on: in the file list or in the field
    /// list, whichever is open, going round at the end.
    pub fn next_item(&mut self)
        requires
            old(self).wf(),
        ensures
            final(self).wf(),
            final(self)@ == old(self)@.next(),
            final(self)@.valid(),
    {
        match self.stage {
            Stage::FileSelection => {
                if self.files.len() > 0 {
                    self.selected_file = (self.selected_file + 1) % self.files.len();
                }
            },
            Stage::FieldSelection => {
                self.selected_field = (self.selected_field + 1) % FIELD_COUNT;
            },
            Stage::Editing { .. } => {},
        }
    }

    /// Moves the selection one item back, going round at the start.
    pub fn previous_item(&mut self)
        requires
            old(self).wf(),
        ensures
            final(self).wf(),
            final(self)@ == old(self)@.previous(),
            final(self)@.valid(),
    {
        match self.stage {
            Stage::FileSelection => {
                if self.files.len() > 0 {
                    if self.selected_file > 0 {
                        self.selected_file = self.selected_file - 1;
                    } else {
                        self.selected_file = self.files.len() - 1;
                    }
                }
            },
            Stage::FieldSelection => {
                if self.selected_field > 0 {
                    self.selected_field = self.selected_field - 1;
                } else {
                    self.selected_field = FIELD_COUNT - 1;
                }
            },
            Stage::Editing { .. } => {},
        }
    }

    /// Chooses the selected file and opens its field list.  Without files
    /// nothing happens.
    pub fn start_field_selection(&mut self)
        requires
            old(self).wf(),
        ensures
            final(self).wf(),
            final(self)@ == old(self)@.field_selection(),
            final(self)@.valid(),
    {
        if self.files.len() > 0 {
            let mut message = String::from_str("Editing: ");
            message.append(self.files[self.selected_file].as_str());
            self.message = message;
            self.stage = Stage::FieldSelection;
        }
    }

    /// Opens the selected field for editing.  `tag` is what the selected file
    /// holds (`None` where it has no readable tags); the edit starts from the
    /// field's value in it.
    pub fn start_editing(&mut self, tag: Option<&TagData>)
        requires
            old(self).wf(),
        ensures
            final(self).wf(),
            final(self)@ == old(self)@.editing(view_of_ref(tag)),
            final(self)@.valid(),
    {
        let field = self.fields[self.selected_field].clone();
        let buffer = field_text(tag, field.as_str());
        self.stage = Stage::Editing { field, buffer };
    }

    /// Gives the write that ending the edit asks for; outside an edit there
    /// is none.
    pub fn pending_write(&self) -> (r: Option<WriteRequest>)
        requires
            self.wf(),
        ensures
            match (r, self@.pending_write()) {
                (Some(request), Some((file, update))) => request.file@ == file && request.update@ == update,
                (None, None) => true,
                _ => false,
            },
    {
        match &self.stage {
            Stage::Editing { field, buffer } => Some(
                WriteRequest {
                    file: self.current_file(),
                    update: field_update(field.as_str(), buffer.as_str()),
                },
            ),
            _ => None,
        }
    }

    /// Ends the edit and goes back to the field list.  `outcome` is how the
    /// pending write went; the status line says so.  The typed text is
    /// dropped either way.
    pub fn finish_editing(&mut self, outcome: Result<(), String>)
        requires
            old(self).wf(),
        ensures
            final(self).wf(),
            final(self)@ == old(self)@.finished(error_of(outcome)),
            final(self)@.valid(),
    {
        match &self.stage {
            Stage::Editing { field, buffer } => {
                let message = match &outcome {
                    Ok(_) => {
                        let mut text = String::from_str("\u{2713} Updated ");
                        text.append(field.as_str());
                        text.append(" to '");
                        text.append(buffer.as_str());
                        text.append("'");
                        text
                    },
                    Err(e) => {
                        let mut text = String::from_str("\u{2717} Error: ");
                        text.append(e.as_str());
                        text
                    },
                };
                self.message = message;
            },
            _ => {},
        }
        self.stage = Stage::FieldSelection;
    }

    /// Gives the edit up and goes back to the field list.
    pub fn cancel_editing(&mut self)
        requires
            old(self).wf(),
        ensures
            final(self).wf(),
            final(self)@ == old(self)@.cancelled(),
            final(self)@.valid(),
    {
        self.message = String::from_str("Edit cancelled");
        self.stage = Stage::FieldSelection;
    }

    /// Goes back to the file list.
    pub fn back_to_files(&mut self)
        requires
            old(self).wf(),
        ensures
            final(self).wf(),
            final(self)@ == old(self)@.back(),
            final(self)@.valid(),
    {
        self.message = String::from_str("Select a file to edit");
        self.stage = Stage::FileSelection;
    }

    /// The file list, in display order.
    pub fn files(&self) -> (r: &[String])
        requires
            self.wf(),
        ensures
            names_of(r@) == self@.files,
            strictly_sorted(self@.files),
    {
        self.files.as_slice()
    }

    /// The index of the selected file.
    pub fn selected_file(&self) -> (r: usize)
        requires
            self.wf(),
        ensures
            r == self@.selected_file,
            self@.files.len() > 0 ==> r < self@.files.len(),
    {
        self.selected_file
    }

    /// The name of the selected file; empty where there are no files.
    pub fn current_file(&self) -> (r: String)
        requires
            self.wf(),
        ensures
            r@ == self@.current_file(),
    {
        if self.files.len() > 0 {
            self.files[self.selected_file].clone()
        } else {
            String::new()
        }
    }

    /// The catalogue of field names.
    pub fn fields(&self) -> (r: &[String])
        requires
            self.wf(),
        ensures
            names_of(r@) == catalog_names(),
    {
        proof {
            assert(names_of(self.fields@) =~= catalog_names());
        }
        self.fields.as_slice()
    }

    /// The index of the selected field.
    pub fn selected_field(&self) -> (r: usize)
        requires
            self.wf(),
        ensures
            r == self@.selected_field,
            r < FIELD_COUNT,
    {
        self.selected_field
    }

    /// The text typed so far; empty outside an edit.
    pub fn input_buffer(&self) -> (r: &str)
        ensures
            r@ == self@.stage.buffer(),
    {
        proof {
            reveal_strlit("");
            assert(""@ =~= Seq::<char>::empty());
        }
        match &self.stage {
            Stage::Editing { buffer, .. } => buffer.as_str(),
            _ => "",
        }
    }

    /// The name of the field being edited, if one is.
    pub fn current_field(&self) -> (r: Option<&String>)
        ensures
            match r {
                Some(field) => self@.stage.field() == Some(field@),
                None => self@.stage.field().is_none(),
            },
    {
        match &self.stage {
            Stage::Editing { field, .. } => Some(field),
            _ => None,
        }
    }

    /// The mode that the machine is in.
    pub fn mode(&self) -> (r: &Mode)
        ensures
            *r == self@.stage.mode(),
    {
        match self.stage {
            Stage::FileSelection => &Mode::FileSelection,
            Stage::FieldSelection => &Mode::FieldSelection,
            Stage::Editing { .. } => &Mode::Editing,
        }
    }

    /// The status line.
    pub fn message(&self) -> (r: &str)
        ensures
            r@ == self@.message,
    {
        self.message.as_str()
    }

    /// Replaces the status line.
    pub fn set_message(&mut self, message: String)
        requires
            old(self).wf(),
        ensures
            final(self).wf(),
            final(self)@ == (AppView { message: message@, ..old(self)@ }),
            final(self)@.valid(),
    {
        self.message = message;
    }

    /// Appends a typed character to the text of the edit.  Outside an edit
    /// nothing happens.
    pub fn push_to_buffer(&mut self, c: char)
        requires
            old(self).wf(),
        ensures
            final(self).wf(),
            final(self)@ == old(self)@.pushed(c),
            final(self)@.valid(),
    {
        match &mut self.stage {
            Stage::Editing { buffer, .. } => {
                push_char(buffer, c);
            },
            _ => {},
        }
    }

    /// Deletes the last character of the text of the edit.  With no text, and
    /// outside an edit, nothing happens.
    pub fn pop_from_buffer(&mut self)
        requires
            old(self).wf(),
        ensures
            final(self).wf(),
            final(self)@ == old(self)@.popped(),
            final(self)@.valid(),
    {
        match &mut self.stage {
            Stage::Editing { buffer, .. } => {
                let _ = pop_char(buffer);
            },
            _ => {},
        }
    }

    /// Builds the preview of a file whose tags are `tag`.  A file without
    /// readable tags has no preview; a value that the tags lack is shown as
    /// `Unknown`.
    pub fn tags_for_file(&self, tag: Option<&TagData>) -> (info: Option<TagInfo>)
        ensures
            info.is_some() == tag.is_some(),
            tag.is_some() ==> info.unwrap()@ == preview_of(tag.unwrap()@),
    {
        crate::tags::tags_for_file(tag)
    }
}

/// Moving on from the last item of a list arrives at the first, moving back
/// from the first arrives at the last, every move stays inside the list, and
/// a move back undoes a move on.
pub proof fn lemma_selection_wraps(index: int, len: int)
    requires
        0 <= index < len,
    ensures
        wrap_next(len - 1, len) == 0,
        wrap_previous(0, len) == len - 1,
        0 <= wrap_next(index, len) < len,
        0 <= wrap_previous(index, len) < len,
        wrap_previous(wrap_next(index, len), len) == index,
        wrap_next(wrap_previous(index, len), len) == index,
{
    if index + 1 < len {
        assert((index + 1) % len == index + 1) by (nonlinear_arith)
            requires
                0 <= index + 1 < len,
        ;
    } else {
        assert((index + 1) % len == 0) by (nonlinear_arith)
            requires
                index + 1 == len,
                len > 0,
        ;
    }
    assert((len - 1 + 1) % len == 0) by (nonlinear_arith)
        requires
            len > 0,
    ;
    if index > 0 {
        assert((index - 1 + 1) % len == index) by (nonlinear_arith)
            requires
                0 <= index < len,
        ;
    }
}

/// In the file list, moving on from the last file selects the first and
/// moving back from the first selects the last; the field list goes round in
/// the same way.
pub proof fn lemma_lists_go_round(state: AppView)
    requires
        state.valid(),
    ensures
        state.stage == StageView::FileSelection && state.files.len() > 0 && state.selected_file
            == state.files.len() - 1 ==> state.next().selected_file == 0,
        state.stage == StageView::FileSelection && state.files.len() > 0 && state.selected_file == 0
            ==> state.previous().selected_file == state.files.len() - 1,
        state.stage == StageView::FieldSelection && state.selected_field == FIELD_COUNT - 1
            ==> state.next().selected_field == 0,
        state.stage == StageView::FieldSelection && state.selected_field == 0
            ==> state.previous().selected_field == FIELD_COUNT - 1,
{
    if state.files.len() > 0 {
        lemma_selection_wraps(state.selected_file, state.files.len() as int);
    }
    lemma_selection_wraps(state.selected_field, FIELD_COUNT as int);
}

/// Every step takes a valid state to a valid state.
pub proof fn lemma_steps_keep_valid(
    state: AppView,
    tag: Option<TagView>,
    error: Option<Seq<char>>,
    c: char,
)
    requires
        state.valid(),
    ensures
        state.next().valid(),
        state.previous().valid(),
        state.field_selection().valid(),
        state.editing(tag).valid(),
        state.finished(error).valid(),
        state.cancelled().valid(),
        state.back().valid(),
        state.pushed(c).valid(),
        state.popped().valid(),
{
    if state.files.len() > 0 {
        lemma_selection_wraps(state.selected_file, state.files.len() as int);
    }
    lemma_selection_wraps(state.selected_field, FIELD_COUNT as int);
}

/// With an empty file list no file can be chosen: choosing and moving leave
/// the file list's state exactly as it was.
pub proof fn lemma_empty_list_stays(state: AppView)
    requires
        state.files.len() == 0,
    ensures
        state.field_selection() == state,
        state.stage == StageView::FileSelection ==> state.next() == state && state.previous() == state,
{
}

/// Only the file list moves the file selection: while a field is chosen or
/// edited, no step changes which file is selected, and no step ever changes
/// the file list.
pub proof fn lemma_file_fixed_outside_file_list(
    state: AppView,
    tag: Option<TagView>,
    error: Option<Seq<char>>,
    c: char,
)
    requires
        state.stage != StageView::FileSelection,
    ensures
        state.next().selected_file == state.selected_file,
        state.previous().selected_file == state.selected_file,
        state.editing(tag).selected_file == state.selected_file,
        state.finished(error).selected_file == state.selected_file,
        state.cancelled().selected_file == state.selected_file,
        state.pushed(c).selected_file == state.selected_file,
        state.popped().selected_file == state.selected_file,
        state.next().files == state.files,
        state.previous().files == state.files,
{
}

/// An edit session lives in the editing stage only: it starts with the
/// selected field and that field's text, and ending the edit, giving it up
/// and going back all leave no field and no typed text behind.
pub proof fn lemma_session_lives_in_editing(state: AppView, tag: Option<TagView>, error: Option<Seq<char>>)
    requires
        state.valid(),
    ensures
        state.editing(tag).stage.field() == Some(catalog_names()[state.selected_field]),
        state.editing(tag).stage.buffer() == editable_text(tag, catalog_names()[state.selected_field]),
        state.finished(error).stage == StageView::FieldSelection,
        state.cancelled().stage == StageView::FieldSelection,
        state.back().stage == StageView::FileSelection,
        state.finished(error).stage.field().is_none() && state.finished(error).stage.buffer().len() == 0,
        state.cancelled().stage.field().is_none() && state.cancelled().stage.buffer().len() == 0,
        state.back().stage.field().is_none() && state.back().stage.buffer().len() == 0,
{
}

} // verus!
