//! What the screen shows beside the listing: the pane with the details of
//! the selected entry, and the place of the cursor in the prompt.

use vstd::prelude::*;

verus! {

/// The number of columns that a text takes on a terminal, as
/// `unicode_width::UnicodeWidthStr::width` counts them.
pub uninterp spec fn display_width(text: Seq<char>) -> usize;

/// `unicode_width::UnicodeWidthStr::width` on `text`.
#[verifier::external_body]
fn text_width(text: &str) -> (width: usize)
    ensures
        width == display_width(text@),
{
    unicode_width::UnicodeWidthStr::width(text)
}

/// What the pane shows of the contents of an entry: the contents under a
/// heading, or nothing where there are none or they could not be read.
pub open spec fn contents_section<E>(contents: Result<Option<String>, E>) -> Seq<char> {
    match contents {
        Ok(Some(text)) => "File Contents:\n"@ + text@,
        _ => Seq::empty(),
    }
}

/// What the pane shows of the summary of an entry: the summary, or a line
/// that says that there is none.
pub open spec fn summary_section<E>(summary: Result<String, E>) -> Seq<char> {
    match summary {
        Ok(text) => text@,
        Err(_) => "Could not read metadata"@,
    }
}

/// What the pane shows: for a selected entry its summary, an empty line and
/// its contents; a line that says so where nothing is selected.
pub open spec fn detail_pane_text<D, C>(
    selected: Option<(Result<String, D>, Result<Option<String>, C>)>,
) -> Seq<char> {
    match selected {
        Some((summary, contents)) => summary_section(summary) + "\n\n"@ + contents_section(
            contents,
        ),
        None => "Nothing selected."@,
    }
}

/// Writes what the pane shows, given the summary and the contents of the
/// selected entry as far as they could be had, or nothing where no entry
/// is selected.
pub fn detail_pane<D, C>(selected: Option<(Result<String, D>, Result<Option<String>, C>)>) -> (text:
    String)
    ensures
        text@ == detail_pane_text(selected),
{
    match selected {
        Some((summary, contents)) => {
            let mut text = match summary {
                Ok(text) => text,
                Err(_) => String::from_str("Could not read metadata"),
            };
            text.append("\n\n");
            match contents {
                Ok(Some(body)) => {
                    text.append("File Contents:\n");
                    text.append(body.as_str());
                    assert(text@ =~= detail_pane_text(selected));
                },
                _ => {
                    assert(text@ =~= detail_pane_text(selected));
                },
            }
            text
        },
        None => String::from_str("Nothing selected."),
    }
}

/// Where the cursor stands in a prompt whose frame has its corner at
/// column `left` and row `top` and which holds a text `width` columns wide:
/// one row below the corner and one column past the text. It stands nowhere
/// if that is off the grid.
pub open spec fn cursor_place(left: u16, top: u16, width: usize) -> Option<(u16, u16)> {
    if left + width + 1 <= u16::MAX && top + 1 <= u16::MAX {
        Some(((left + width + 1) as u16, (top + 1) as u16))
    } else {
        None
    }
}

/// Tells where the cursor stands in a prompt, given the width of its text.
pub fn cursor_position(left: u16, top: u16, width: usize) -> (place: Option<(u16, u16)>)
    ensures
        place == cursor_place(left, top, width),
{
    if top == u16::MAX || width >= 0xffff {
        return None;
    }
    let room: u16 = u16::MAX - left;
    let wide: u16 = width as u16;
    if wide >= room {
        None
    } else {
        Some((left + wide + 1, top + 1))
    }
}

/// Tells where the cursor stands in a prompt that holds `text`.
pub fn prompt_cursor(left: u16, top: u16, text: &str) -> (place: Option<(u16, u16)>)
    ensures
        place == cursor_place(left, top, display_width(text@)),
{
    cursor_position(left, top, text_width(text))
}

} // verus!
