//! Decoded cover artwork, kept per file name.
//!
//! Decoding an embedded image and preparing it for the terminal is costly, so
//! each file's artwork is prepared once and the shared handle is handed out
//! again on every later request.  Only successes are remembered: a file
//! without a usable image is looked at afresh each time.

use crate::tags::{extract_album_art_bytes, view_of_ref, TagData, TagView};
use std::sync::Arc;
use std::sync::Mutex;
use vstd::hash_map::StringHashMap;
use vstd::prelude::*;
use vstd::string::*;

verus! {

/// A bitmap as the image decoder hands it out.
#[verifier::external_type_specification]
#[verifier::external_body]
pub struct ExDynamicImage(image::DynamicImage);

/// The terminal's image protocol and cell metrics.
#[verifier::external_type_specification]
#[verifier::external_body]
pub struct ExPicker(ratatui_image::picker::Picker);

/// An image prepared for display, with the state that rendering keeps in it.
#[verifier::external_type_specification]
#[verifier::external_body]
pub struct ExStatefulProtocol(ratatui_image::protocol::StatefulProtocol);

/// A lock around a value that several holders share.
#[verifier::external_type_specification]
#[verifier::external_body]
#[verifier::reject_recursive_types(T)]
pub struct ExMutex<T: ?Sized>(Mutex<T>);

/// A shared handle to one file's prepared artwork.  Whoever renders it takes
/// the lock for the time of the rendering.
pub type ArtHandle = Arc<Mutex<ratatui_image::protocol::StatefulProtocol>>;

/// `image::load_from_memory`: guesses the format of `bytes` and decodes them.
/// Whether that succeeds is the decoder's affair, and depends on the formats
/// and hooks that the process has registered with it: nothing is claimed of
/// the outcome, nor of the bitmap.
#[verifier::external_body]
fn decode_image(bytes: &[u8]) -> Option<image::DynamicImage> {
    image::load_from_memory(bytes).ok()
}

/// `Picker::new_resize_protocol`: wraps a bitmap for display at the picker's
/// cell metrics.  It always returns; nothing is claimed of the handle.
#[verifier::external_body]
fn new_resize_protocol(
    picker: &ratatui_image::picker::Picker,
    image: image::DynamicImage,
) -> ratatui_image::protocol::StatefulProtocol {
    picker.new_resize_protocol(image)
}

/// `Mutex::new`: puts a value behind a lock.
#[verifier::external_body]
fn new_mutex(protocol: ratatui_image::protocol::StatefulProtocol) -> Mutex<
    ratatui_image::protocol::StatefulProtocol,
> {
    Mutex::new(protocol)
}

/// `Arc::clone`: another handle to the same shared value.
#[verifier::external_body]
fn clone_handle(handle: &ArtHandle) -> (r: ArtHandle)
    ensures
        r == *handle,
{
    Arc::clone(handle)
}

/// Whether a file's tags hold an embedded image.
pub open spec fn holds_picture(tag: Option<TagView>) -> bool {
    match tag {
        Some(t) => t.picture.is_some(),
        None => false,
    }
}

/// Whether artwork is reported for a file: it is cached, or the file's tags
/// hold an embedded image.
pub open spec fn reports_artwork(
    cache: Map<Seq<char>, ArtHandle>,
    name: Seq<char>,
    tag: Option<TagView>,
) -> bool {
    cache.contains_key(name) || holds_picture(tag)
}

/// What a request for a file's artwork may do: `result` is handed out and the
/// cache goes from `before` to `after`.  A cached handle is handed out again
/// and nothing changes.  A file without an embedded image gives no handle and
/// nothing is cached.  An embedded image goes to the decoder: where a handle
/// comes of it, that handle is cached under the file's name; where none
/// does, nothing is cached.
pub open spec fn load_outcome(
    before: Map<Seq<char>, ArtHandle>,
    name: Seq<char>,
    tag: Option<TagView>,
    after: Map<Seq<char>, ArtHandle>,
    result: Option<ArtHandle>,
) -> bool {
    if before.contains_key(name) {
        result == Some(before[name]) && after == before
    } else if !holds_picture(tag) {
        result.is_none() && after == before
    } else {
        match result {
            Some(handle) => after == before.insert(name, handle),
            None => after == before,
        }
    }
}

/// The prepared artwork of the files seen so far, by file name.
pub struct ArtworkCache {
    entries: StringHashMap<ArtHandle>,
    picker: ratatui_image::picker::Picker,
}

impl View for ArtworkCache {
    type V = Map<Seq<char>, ArtHandle>;

    closed spec fn view(&self) -> Map<Seq<char>, ArtHandle> {
        self.entries@
    }
}

impl ArtworkCache {
    /// An empty cache that prepares images with `picker`.
    pub fn new(picker: ratatui_image::picker::Picker) -> (cache: ArtworkCache)
        ensures
            cache@ == Map::<Seq<char>, ArtHandle>::empty(),
    {
        ArtworkCache { entries: StringHashMap::new(), picker }
    }

    /// Tells whether artwork is cached under `name`.
    pub fn contains(&self, name: &str) -> (r: bool)
        ensures
            r == self@.contains_key(name@),
    {
        self.entries.contains_key(name)
    }

    /// Hands out the artwork cached under `name`, if there is any.
    pub fn get(&self, name: &str) -> (r: Option<ArtHandle>)
        ensures
            r == (if self@.contains_key(name@) {
                Some(self@[name@])
            } else {
                None
            }),
    {
        match self.entries.get(name) {
            Some(handle) => Some(clone_handle(handle)),
            None => None,
        }
    }

    /// Takes what the decoder made of a file's embedded image.  A bitmap is
    /// prepared for display, cached under `name` and handed out; a failed
    /// decoding caches nothing.
    pub fn store(&mut self, name: &str, decoded: Option<image::DynamicImage>) -> (r: Option<
        ArtHandle,
    >)
        ensures
            r.is_some() == decoded.is_some(),
            decoded.is_some() ==> final(self)@ == old(self)@.insert(name@, r.unwrap()),
            decoded.is_none() ==> final(self)@ == old(self)@,
    {
        match decoded {
            Some(image) => {
                let protocol = new_resize_protocol(&self.picker, image);
                let handle: ArtHandle = Arc::new(new_mutex(protocol));
                self.entries.insert(String::from_str(name), clone_handle(&handle));
                Some(handle)
            },
            None => None,
        }
    }

    /// Hands out the artwork of the file called `name`, whose tags are `tag`
    /// (`None` where the file has no readable tags).
    pub fn load(&mut self, name: &str, tag: Option<&TagData>) -> (r: Option<ArtHandle>)
        ensures
            load_outcome(old(self)@, name@, view_of_ref(tag), final(self)@, r),
    {
        match self.get(name) {
            Some(handle) => Some(handle),
            None => match extract_album_art_bytes(tag) {
                Some(bytes) => {
                    let decoded = decode_image(bytes.as_slice());
                    self.store(name, decoded)
                },
                None => None,
            },
        }
    }

    /// Tells whether there is artwork for the file called `name`, whose tags
    /// are `tag`: it is cached already, or the tags hold an embedded image.
    pub fn has_artwork(&self, name: &str, tag: Option<&TagData>) -> (r: bool)
        ensures
            r == reports_artwork(self@, name@, view_of_ref(tag)),
    {
        self.contains(name) || match tag {
            Some(t) => t.has_picture(),
            None => false,
        }
    }
}

/// Asking twice for a file's artwork gives the same handle twice: once a
/// request has succeeded, the next one for that file hands out the very same
/// handle and leaves the cache alone, whatever the file holds by then.
pub proof fn lemma_load_is_idempotent(
    start: Map<Seq<char>, ArtHandle>,
    name: Seq<char>,
    first_tag: Option<TagView>,
    between: Map<Seq<char>, ArtHandle>,
    first: Option<ArtHandle>,
    second_tag: Option<TagView>,
    end: Map<Seq<char>, ArtHandle>,
    second: Option<ArtHandle>,
)
    requires
        load_outcome(start, name, first_tag, between, first),
        first.is_some(),
        load_outcome(between, name, second_tag, end, second),
    ensures
        second == first,
        end == between,
{
}

/// A request for one file's artwork leaves every other file's entry alone,
/// and never drops an entry.
pub proof fn lemma_load_keeps_other_entries(
    before: Map<Seq<char>, ArtHandle>,
    name: Seq<char>,
    tag: Option<TagView>,
    after: Map<Seq<char>, ArtHandle>,
    result: Option<ArtHandle>,
    other: Seq<char>,
)
    requires
        load_outcome(before, name, tag, after, result),
    ensures
        before.contains_key(other) ==> after.contains_key(other) && after[other] == before[other],
        other != name ==> after.contains_key(other) == before.contains_key(other),
        after.contains_key(name) ==> result.is_some() && after[name] == result.unwrap(),
{
}

/// Whether artwork is reported for a file does not depend on whether its
/// artwork has been requested: a request changes no report for the file it
/// was made for.
pub proof fn lemma_report_is_independent_of_load(
    before: Map<Seq<char>, ArtHandle>,
    name: Seq<char>,
    tag: Option<TagView>,
    after: Map<Seq<char>, ArtHandle>,
    result: Option<ArtHandle>,
)
    requires
        load_outcome(before, name, tag, after, result),
    ensures
        reports_artwork(after, name, tag) == reports_artwork(before, name, tag),
{
}

/// As long as every cached file still holds an embedded image, artwork is
/// reported for a file exactly when its tags hold one; and a request keeps
/// the cache in that state.
pub proof fn lemma_report_matches_tags(
    cache: Map<Seq<char>, ArtHandle>,
    name: Seq<char>,
    tag: Option<TagView>,
    after: Map<Seq<char>, ArtHandle>,
    result: Option<ArtHandle>,
)
    requires
        cache.contains_key(name) ==> holds_picture(tag),
        load_outcome(cache, name, tag, after, result),
    ensures
        reports_artwork(cache, name, tag) == holds_picture(tag),
        after.contains_key(name) ==> holds_picture(tag),
        reports_artwork(after, name, tag) == holds_picture(tag),
{
}

} // verus!
