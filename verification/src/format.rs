//! The output formats the converter offers, and how a format is chosen
//! from the label of the button the user pressed.

use vstd::prelude::*;

verus! {

/// The two containers the converter can produce.
#[derive(Clone, Copy, Debug, PartialEq, Eq, Structural)]
pub enum Format {
    Mp4,
    Gif,
}

impl Format {
    /// The extension, dot included, of an output file of this format.
    pub open spec fn spec_extension(self) -> Seq<char> {
        match self {
            Format::Mp4 => ".mp4"@,
            Format::Gif => ".gif"@,
        }
    }

    /// The extension, dot included, of an output file of this format.
    pub fn extension(self) -> (r: &'static str)
        ensures
            r@ == self.spec_extension(),
    {
        match self {
            Format::Mp4 => ".mp4",
            Format::Gif => ".gif",
        }
    }
}

/// Character-for-character equality of two string slices.
fn str_eq(a: &str, b: &str) -> (r: bool)
    ensures
        r == (a@ == b@),
{
    let a_owned = String::from_str(a);
    let b_owned = String::from_str(b);
    a_owned == b_owned
}

/// The format selected by a button label: "mp4" asks for MP4, and any
/// other label falls back to GIF.
pub fn format_from_label(label: &str) -> (f: Format)
    ensures
        f is Mp4 <==> label@ == "mp4"@,
{
    if str_eq(label, "mp4") {
        Format::Mp4
    } else {
        Format::Gif
    }
}

} // verus!
