//! The size of one rem, read from what the host's style sheet says.

use vstd::prelude::*;

verus! {

/// The digits of a font size: `font_size` without its unit where it is
/// given in pixels, and "12" where it is missing or in another unit.
pub open spec fn rem_digits(font_size: Option<Seq<char>>) -> Seq<char> {
    let text = match font_size {
        Some(text) => text,
        None => Seq::<char>::empty(),
    };
    if "px"@.is_suffix_of(text) {
        text.take(text.len() - "px"@.len())
    } else {
        "12"@
    }
}

/// `str::strip_suffix` with a string for the pattern: where `text` ends
/// with `suffix`, the part of `text` before it; `None` where it does not.
#[verifier::external_body]
fn strip_suffix<'a>(text: &'a str, suffix: &str) -> (r: Option<&'a str>)
    ensures
        match r {
            Some(head) => text@ == head@ + suffix@,
            None => !suffix@.is_suffix_of(text@),
        },
{
    text.strip_suffix(suffix)
}

/// The text from which the size of one rem is read, given the font size
/// that the host computed for the root element, if it computed one.
pub fn rem_size_text<'a>(font_size: Option<&'a str>) -> (r: &'a str)
    ensures
        r@ == rem_digits(
            match font_size {
                Some(text) => Some(text@),
                None => None,
            },
        ),
{
    let text = match font_size {
        Some(text) => text,
        None => "",
    };
    proof {
        reveal_strlit("");
    }
    match strip_suffix(text, "px") {
        Some(head) => {
            proof {
                let unit = "px"@;
                assert(text@.subrange(text@.len() - unit.len(), text@.len() as int) =~= unit);
                assert(text@.take(text@.len() - unit.len()) =~= head@);
            }
            head
        },
        None => "12",
    }
}

} // verus!
