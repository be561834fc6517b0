use vstd::prelude::*;

use crate::classify::{is_image_uri, is_image_uri_text, is_noise, is_noise_text};
use crate::codec::{data_uri_from_base64, data_uri_of_base64};

verus! {

/// Why a clipboard read or write failed.
#[derive(Debug, Clone, PartialEq, Eq)]
pub enum PortError {
    /// The platform has no clipboard mechanism.
    Unavailable,
    /// The OS call failed; the text holds its diagnostic output.
    ExecutionFailed(String),
    /// The referenced image file is missing; the text is its path.
    NotFound(String),
}

/// One raw clipboard read, before classification. Images arrive as Base64
/// PNG data URIs.
#[derive(Debug, Clone)]
pub enum ClipboardSample {
    Empty,
    Text(String),
    Image(String),
}

/// The value of a [`ClipboardSample`].
pub enum SampleView {
    Empty,
    Text(Seq<char>),
    Image(Seq<char>),
}

impl View for ClipboardSample {
    type V = SampleView;

    open spec fn view(&self) -> SampleView {
        match self {
            ClipboardSample::Empty => SampleView::Empty,
            ClipboardSample::Text(t) => SampleView::Text(t@),
            ClipboardSample::Image(u) => SampleView::Image(u@),
        }
    }
}

/// A character with the Unicode `White_Space` property.
pub open spec fn is_white_space(c: char) -> bool {
    let u = c as u32;
    (0x09 <= u <= 0x0d) || u == 0x20 || u == 0x85 || u == 0xa0 || u == 0x1680 || (0x2000 <= u
        <= 0x200a) || u == 0x2028 || u == 0x2029 || u == 0x202f || u == 0x205f || u == 0x3000
}

/// `s` without its leading white space.
pub open spec fn trimmed_start(s: Seq<char>) -> Seq<char>
    decreases s.len(),
{
    if s.len() > 0 && is_white_space(s[0]) {
        trimmed_start(s.drop_first())
    } else {
        s
    }
}

/// `s` without its trailing white space.
pub open spec fn trimmed_end(s: Seq<char>) -> Seq<char>
    decreases s.len(),
{
    if s.len() > 0 && is_white_space(s.last()) {
        trimmed_end(s.drop_last())
    } else {
        s
    }
}

/// `s` without its leading and trailing white space.
pub open spec fn trimmed(s: Seq<char>) -> Seq<char> {
    trimmed_end(trimmed_start(s))
}

#[verifier::external_body]
fn trim(s: &str) -> (r: &str)
    ensures
        r@ == trimmed(s@),
{
    s.trim()
}

/// The character sequence of an optional text.
pub open spec fn opt_chars(o: Option<&str>) -> Option<Seq<char>> {
    match o {
        Some(s) => Some(s@),
        None => None,
    }
}

/// Whether a text read leaves the clipboard to the image probe: where the text
/// query failed or gave only white space.
pub open spec fn probe_needed(text: Option<Seq<char>>) -> bool {
    !(text is Some && trimmed(text->0).len() > 0)
}

/// The sample that a clipboard read stands for, given the text the OS
/// reported (if the text query succeeded) and the Base64 output of the image
/// probe (if it ran). Non-blank text wins: an image data URI is handed on as
/// it is, the probe's own diagnostic text is suppressed as an empty read, and
/// any other text is handed on. Otherwise a non-blank probe output is an
/// image; otherwise the clipboard is empty.
pub open spec fn sample_of_reads(text: Option<Seq<char>>, probe: Option<Seq<char>>) -> SampleView {
    if !probe_needed(text) {
        let t = text->0;
        if !is_image_uri(t) && is_noise(t) {
            SampleView::Empty
        } else {
            SampleView::Text(t)
        }
    } else if probe is Some && trimmed(probe->0).len() > 0 {
        SampleView::Image(data_uri_of_base64(trimmed(probe->0)))
    } else {
        SampleView::Empty
    }
}

/// Whether the image probe has to run after this text read.
pub fn needs_image_probe(text: Option<&str>) -> (r: bool)
    ensures
        r == probe_needed(opt_chars(text)),
{
    match text {
        Some(t) => trim(t).is_empty(),
        None => true,
    }
}

/// Builds the sample for one clipboard read from the platform's raw outputs.
pub fn sample_from_reads(text: Option<&str>, probe: Option<&str>) -> (r: ClipboardSample)
    ensures
        r@ == sample_of_reads(opt_chars(text), opt_chars(probe)),
{
    if !needs_image_probe(text) {
        let t = text.unwrap();
        if !is_image_uri_text(t) && is_noise_text(t) {
            return ClipboardSample::Empty;
        }
        return ClipboardSample::Text(t.to_owned());
    }
    if let Some(b) = probe {
        let tb = trim(b);
        if !tb.is_empty() {
            return ClipboardSample::Image(data_uri_from_base64(tb));
        }
    }
    ClipboardSample::Empty
}

/// Decides whether an image file may be handed to the OS clipboard: only
/// where it exists. A missing file gives `NotFound` carrying its path, and the
/// caller then makes no OS call.
pub fn check_image_source(path: &str, exists: bool) -> (r: Result<(), PortError>)
    ensures
        r is Ok <==> exists,
        r matches Err(e) ==> (e matches PortError::NotFound(p) && p@ == path@),
{
    if exists {
        Ok(())
    } else {
        Err(PortError::NotFound(path.to_owned()))
    }
}

} // verus!
