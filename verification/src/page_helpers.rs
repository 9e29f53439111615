//! Fitting text into a table column of a given width.

use ellipse::Ellipse;
use vstd::prelude::*;
use vstd::string::StringExecFns;
use vstd::utf8::encode_utf8;

verus! {

/// What `ellipse::Ellipse::truncate_ellipse` returns for `text` and `len`.
///
/// The crate counts extended grapheme clusters: a text of no more than `len`
/// of them comes back as it is, a longer one as its first `len` clusters and
/// three dots, and for `len` 0 as the empty text. Contracts use the name only;
/// nothing here says where the clusters of a text end.
pub uninterp spec fn truncate_ellipse_result(text: Seq<char>, len: usize) -> Seq<char>;

/// Calls `ellipse::Ellipse::truncate_ellipse` on `text` and copies the result
/// into a `String`.
///
/// Not proved: that the result is `truncate_ellipse_result` of the text and
/// the length, that is, that the crate computes it from these two alone.
#[verifier::external_body]
fn truncate_ellipse(text: &str, len: usize) -> (cut: String)
    ensures
        cut@ == truncate_ellipse_result(text@, len),
{
    text.truncate_ellipse(len).to_string()
}

/// `count` copies of `c`.
pub open spec fn repeated(c: char, count: nat) -> Seq<char> {
    Seq::new(count, |i: int| c)
}

/// The content of a column `width` wide that shows `text`.
///
/// A column narrower than four holds only dots. Otherwise the text is
/// measured in bytes: where it fills the column it is shown as it is, where it
/// is shorter it is padded with spaces on the right, and where it is longer it
/// is cut to `width - 3` grapheme clusters and three dots.
pub open spec fn column_string(text: Seq<char>, width: usize) -> Seq<char> {
    let length = encode_utf8(text).len() as usize;
    if width <= 3 {
        repeated('.', width as nat)
    } else if width == length {
        text
    } else if width > length {
        text + repeated(' ', (width - length) as nat)
    } else {
        truncate_ellipse_result(text, (width - 3) as usize)
    }
}

/// Fits `text` into a column `width` wide.
pub fn get_column_string(text: &str, width: usize) -> (column: String)
    ensures
        column@ == column_string(text@, width),
{
    if width == 0 {
        return String::new();
    }
    if width == 1 {
        proof {
            reveal_strlit(".");
        }
        return ".".to_owned();
    }
    if width == 2 {
        proof {
            reveal_strlit("..");
        }
        return "..".to_owned();
    }
    if width == 3 {
        proof {
            reveal_strlit("...");
        }
        return "...".to_owned();
    }
    let length = text.len();
    if width == length {
        return text.to_owned();
    }
    if width > length {
        let mut column = text.to_owned();
        let mut padded: usize = 0;
        while padded < width - length
            invariant
                length < width,
                padded <= width - length,
                column@ == text@ + repeated(' ', padded as nat),
            decreases width - length - padded,
        {
            proof {
                reveal_strlit(" ");
            }
            column.append(" ");
            padded += 1;
        }
        return column;
    }
    truncate_ellipse(text, width - 3)
}

} // verus!
