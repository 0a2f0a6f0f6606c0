//! The dimension core: renders two configured image dimensions, each an
//! optional string defaulting to `"0px"`, in structured, HTML and plain-text
//! form, plus a fixed diagnostic response reporting input length.

use crate::render::{dec_digits, u64_dec};
use vstd::prelude::*;

verus! {

/// Width and height of the configured image, as display strings.
pub struct ImageInfo {
    pub width: String,
    pub height: String,
}

impl Default for ImageInfo {
    /// Both dimensions default to `"0px"`.
    fn default() -> (r: Self)
        ensures
            r.width@ == "0px"@,
            r.height@ == "0px"@,
    {
        ImageInfo { width: "0px".to_owned(), height: "0px".to_owned() }
    }
}

/// The string a dimension renders as: the configured value when present,
/// `"0px"` when absent.
pub open spec fn dim_or_default(c: Option<String>) -> Seq<char> {
    match c {
        Some(s) => s@,
        None => "0px"@,
    }
}

/// Every formatted endpoint renders an absent dimension as `"0px"`: each of
/// their contracts goes through `dim_or_default`, which maps an absent value
/// to exactly that string.
pub proof fn lemma_absent_dimension_defaults()
    ensures
        dim_or_default(None::<String>) == "0px"@,
{
}

/// Resolves the two configured dimensions, substituting `"0px"` for each
/// absent one.
pub fn dimensions(width: Option<String>, height: Option<String>) -> (r: (String, String))
    ensures
        r.0@ == dim_or_default(width),
        r.1@ == dim_or_default(height),
{
    let w = match width {
        Some(s) => s,
        None => "0px".to_owned(),
    };
    let h = match height {
        Some(s) => s,
        None => "0px".to_owned(),
    };
    (w, h)
}

/// The structured form of the two dimensions, with defaults applied.
pub fn get_json(width: Option<String>, height: Option<String>) -> (r: ImageInfo)
    ensures
        r.width@ == dim_or_default(width),
        r.height@ == dim_or_default(height),
{
    let (w, h) = dimensions(width, height);
    ImageInfo { width: w, height: h }
}

/// The HTML fragment rendering dimensions `w` and `h`.
pub open spec fn html_text(w: Seq<char>, h: Seq<char>) -> Seq<char> {
    "<p>width: "@ + w + "</p><p>height: "@ + h
        + "</p> <img src='https://github.com/extism.png'/>"@
}

/// The HTML form: both dimensions in paragraphs, followed by a fixed
/// external image tag.
pub fn get_html(width: Option<String>, height: Option<String>) -> (r: String)
    ensures
        r@ == html_text(dim_or_default(width), dim_or_default(height)),
{
    let (w, h) = dimensions(width, height);
    let mut s = "<p>width: ".to_owned();
    s.append(w.as_str());
    s.append("</p><p>height: ");
    s.append(h.as_str());
    s.append("</p> <img src='https://github.com/extism.png'/>");
    proof {
        assert(s@ =~= html_text(dim_or_default(width), dim_or_default(height)));
    }
    s
}

/// The plain-text line rendering dimensions `w` and `h`.
pub open spec fn text_line(w: Seq<char>, h: Seq<char>) -> Seq<char> {
    "width: "@ + w + " ................ height: "@ + h
}

/// The plain-text form: the two dimensions joined by a fixed dotted
/// delimiter.
pub fn get_text(width: Option<String>, height: Option<String>) -> (r: String)
    ensures
        r@ == text_line(dim_or_default(width), dim_or_default(height)),
{
    let (w, h) = dimensions(width, height);
    let mut s = "width: ".to_owned();
    s.append(w.as_str());
    s.append(" ................ height: ");
    s.append(h.as_str());
    proof {
        assert(s@ =~= text_line(dim_or_default(width), dim_or_default(height)));
    }
    s
}

/// The diagnostic response for an input of `n` bytes.
pub open spec fn respond_text(n: nat) -> Seq<char> {
    "Default response from multi-content plugin... input length = "@ + dec_digits(n)
}

/// The fallback response: ignores the input's content and reports only its
/// byte length.
pub fn respond(input: Vec<u8>) -> (r: String)
    ensures
        r@ == respond_text(input@.len()),
{
    let mut s = "Default response from multi-content plugin... input length = ".to_owned();
    let n = u64_dec(input.len() as u64);
    s.append(n.as_str());
    s
}

} // verus!
