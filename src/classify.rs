use vstd::prelude::*;

use crate::item::ItemKind;
use crate::sample::{ClipboardSample, SampleView};
use crate::text::{chars_of, contains_seq, has_infix, has_prefix, starts_with_seq};

verus! {

/// What one clipboard read means for the history.
#[derive(Debug, Clone, Copy, PartialEq, Eq, Structural)]
pub enum Classification {
    /// Noise, nothing on the clipboard, or no change since the last read.
    Ignore,
    /// Text that already is an encoded image data URI.
    PassThrough,
    NovelText,
    NovelImage,
}

/// Text that the OS image probe itself writes out when it fails.
pub open spec fn is_noise(t: Seq<char>) -> bool {
    has_infix(t, "execution error"@) || has_infix(t, "osascript \u{8f93}\u{51fa}"@)
}

/// Text that already is an image data URI.
pub open spec fn is_image_uri(t: Seq<char>) -> bool {
    has_prefix(t, "data:image/"@) && has_infix(t, "base64,"@)
}

/// The decision for a sample, given the last content seen. Noise is dropped
/// first, then anything equal to the last content, so an unchanged clipboard
/// never counts twice.
pub open spec fn classification(s: SampleView, last: Seq<char>) -> Classification {
    match s {
        SampleView::Empty => Classification::Ignore,
        SampleView::Text(t) => if is_noise(t) || t == last {
            Classification::Ignore
        } else if is_image_uri(t) {
            Classification::PassThrough
        } else {
            Classification::NovelText
        },
        SampleView::Image(u) => if u == last {
            Classification::Ignore
        } else {
            Classification::NovelImage
        },
    }
}

/// The kind of entry that a recorded classification makes.
pub open spec fn kind_of(c: Classification) -> ItemKind {
    if c == Classification::NovelText {
        ItemKind::Text
    } else {
        ItemKind::Image
    }
}

/// Whether a text is diagnostic noise from the image probe.
pub fn is_noise_text(t: &str) -> (r: bool)
    ensures
        r == is_noise(t@),
{
    let cs = chars_of(t);
    let a = chars_of("execution error");
    let b = chars_of("osascript \u{8f93}\u{51fa}");
    contains_seq(&cs, &a) || contains_seq(&cs, &b)
}

/// Whether a text already is an image data URI.
pub fn is_image_uri_text(t: &str) -> (r: bool)
    ensures
        r == is_image_uri(t@),
{
    let cs = chars_of(t);
    let p = chars_of("data:image/");
    let m = chars_of("base64,");
    starts_with_seq(&cs, &p) && contains_seq(&cs, &m)
}

/// Classifies one raw clipboard sample against the last content seen.
pub fn classify(sample: &ClipboardSample, last: &String) -> (r: Classification)
    ensures
        r == classification(sample@, last@),
{
    match sample {
        ClipboardSample::Empty => Classification::Ignore,
        ClipboardSample::Text(t) => {
            if is_noise_text(t.as_str()) || t.eq(last) {
                Classification::Ignore
            } else if is_image_uri_text(t.as_str()) {
                Classification::PassThrough
            } else {
                Classification::NovelText
            }
        },
        ClipboardSample::Image(u) => {
            if u.eq(last) {
                Classification::Ignore
            } else {
                Classification::NovelImage
            }
        },
    }
}

} // verus!
