//! Recognising a chat message that shares a clip, and turning the shared
//! address into the canonical address under which the clip can be embedded.

use crate::text::{chars_of, contains, contains_text, find_first, find_last};
use vstd::prelude::*;

verus! {

/// The platform's name, which a message that shares a clip holds.
pub const PLATFORM_KEYWORD: &'static str = "twitch";

/// The word that a message that shares a clip holds beside the platform's name.
pub const CLIP_KEYWORD: &'static str = "clip";

/// What every canonical address begins with; the clip's slug follows.
pub const EMBED_PREFIX: &'static str = "https://clips.twitch.tv/embed?clip=";

/// Why a text yields no clip reference.
#[derive(Debug, Clone, Copy, PartialEq, Eq)]
pub enum MalformedReferenceError {
    /// The text holds no `/`, so it has no path segment.
    MissingSeparator,
    /// Nothing stands between the last `/` and the end or the query string.
    EmptySlug,
}

/// A message qualifies as a candidate when it holds the platform's name and
/// the word "clip", in any place and in exactly this spelling.
pub open spec fn is_candidate(text: Seq<char>) -> bool {
    contains_text(text, PLATFORM_KEYWORD@) && contains_text(text, CLIP_KEYWORD@)
}

/// What follows the last `/` of `text`, if it holds one.
pub open spec fn last_segment(text: Seq<char>) -> Option<Seq<char>> {
    match text.index_of_last('/') {
        Some(at) => Some(text.subrange(at + 1, text.len() as int)),
        None => None,
    }
}

/// `segment` up to its first `?`, or all of it where it holds none.
pub open spec fn without_query(segment: Seq<char>) -> Seq<char> {
    match segment.index_of_first('?') {
        Some(at) => segment.subrange(0, at),
        None => segment,
    }
}

/// The slug of the address in `text`: its last path segment without the query
/// string; or the reason why it has none.
pub open spec fn slug_of(text: Seq<char>) -> Result<Seq<char>, MalformedReferenceError> {
    match last_segment(text) {
        None => Err(MalformedReferenceError::MissingSeparator),
        Some(segment) => if without_query(segment).len() == 0 {
            Err(MalformedReferenceError::EmptySlug)
        } else {
            Ok(without_query(segment))
        },
    }
}

/// The canonical address of the clip with the given slug.
pub open spec fn canonical_of(slug: Seq<char>) -> Seq<char> {
    EMBED_PREFIX@ + slug
}

/// The canonical address that `text` leads to on its way through the filter
/// and the transformer, if it passes both.
pub open spec fn accepted(text: Seq<char>) -> Option<Seq<char>> {
    if is_candidate(text) && slug_of(text) is Ok {
        Some(canonical_of(slug_of(text)->Ok_0))
    } else {
        None
    }
}

/// A reference to a clip, as read from a text.
pub struct ClipReference {
    /// The text that the reference was read from.
    pub raw_text: String,
    /// The last path segment of the address in the text, without its query
    /// string; never empty.
    pub slug: String,
    /// The canonical address of the clip.
    pub canonical_url: String,
}

impl ClipReference {
    /// The slug and the canonical address are those of the text.
    pub open spec fn wf(&self) -> bool {
        &&& slug_of(self.raw_text@) == Ok::<Seq<char>, MalformedReferenceError>(self.slug@)
        &&& self.slug@.len() > 0
        &&& self.canonical_url@ == canonical_of(self.slug@)
    }

    /// Reads the reference that `text` holds.
    pub fn parse(text: &str) -> (parsed: Result<ClipReference, MalformedReferenceError>)
        ensures
            match parsed {
                Ok(reference) => reference.wf() && reference.raw_text@ == text@,
                Err(e) => slug_of(text@) == Err::<Seq<char>, MalformedReferenceError>(e),
            },
    {
        match extract_slug(text) {
            Ok(slug) => {
                let canonical_url = String::from_str(EMBED_PREFIX).concat(slug.as_str());
                Ok(ClipReference { raw_text: String::from_str(text), slug, canonical_url })
            },
            Err(e) => Err(e),
        }
    }
}

/// The filter: whether `text` may share a clip. It is a coarse guess by two
/// keywords, with false positives and false negatives; it does not look at
/// the shape of any address.
pub fn is_clip_candidate(text: &str) -> (candidate: bool)
    ensures
        candidate == is_candidate(text@),
{
    contains(text, PLATFORM_KEYWORD) && contains(text, CLIP_KEYWORD)
}

/// The slug of the address in `text`.
pub fn extract_slug(text: &str) -> (slug: Result<String, MalformedReferenceError>)
    ensures
        match slug {
            Ok(s) => slug_of(text@) == Ok::<Seq<char>, MalformedReferenceError>(s@),
            Err(e) => slug_of(text@) == Err::<Seq<char>, MalformedReferenceError>(e),
        },
{
    let chars = chars_of(text);
    match find_last(&chars, '/') {
        None => Err(MalformedReferenceError::MissingSeparator),
        Some(at) => {
            proof {
                chars@.index_of_last_ensures('/');
            }
            assert(at < chars.len());
            let segment = text.substring_char(at + 1, chars.len());
            let segment_chars = chars_of(segment);
            let end = match find_first(&segment_chars, '?') {
                Some(query) => query,
                None => segment_chars.len(),
            };
            proof {
                segment@.index_of_first_ensures('?');
            }
            if end == 0 {
                Err(MalformedReferenceError::EmptySlug)
            } else {
                let slug = segment.substring_char(0, end);
                assert(slug@ == without_query(segment@));
                Ok(String::from_str(slug))
            }
        },
    }
}

/// The transformer: the canonical address of the clip that `text` refers to.
pub fn canonical_url(text: &str) -> (url: Result<String, MalformedReferenceError>)
    ensures
        match url {
            Ok(u) => slug_of(text@) is Ok && u@ == canonical_of(slug_of(text@)->Ok_0),
            Err(e) => slug_of(text@) == Err::<Seq<char>, MalformedReferenceError>(e),
        },
{
    match ClipReference::parse(text) {
        Ok(reference) => Ok(reference.canonical_url),
        Err(e) => Err(e),
    }
}

} // verus!
