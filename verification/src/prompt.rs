use vstd::prelude::*;

use crate::text::{trim, trim_start_matches, trimmed, without_leading};

verus! {

/// Most characters of a prompt that a preview shows.
pub const PREVIEW_CHARACTERS: usize = 80;

/// What a terminal's prompt line holds in front of the cursor.
#[derive(Debug)]
pub enum PromptState {
    /// Nothing but prompt marks and white space.
    Empty,
    /// Typed text, of which the preview shows the start.
    Occupied { preview: String },
}

/// The typed text in front of the cursor: the line up to the cursor,
/// without white space around it and without the prompt marks `>` and `›`
/// at its start.
pub open spec fn typed_text(line: Seq<char>, cursor_column: int) -> Seq<char> {
    let prefix = line.take(if cursor_column < line.len() { cursor_column } else { line.len() as int });
    trimmed(without_leading(without_leading(trimmed(prefix), '>'), '›'))
}

impl PromptState {
    /// Reads the prompt state from the terminal line that holds the cursor.
    pub fn from_cursor_line(line: &str, cursor_column: u16) -> (state: Self)
        ensures
            typed_text(line@, cursor_column as int).len() == 0 ==> state is Empty,
            typed_text(line@, cursor_column as int).len() > 0 ==> (state matches PromptState::Occupied {
                preview,
            } && preview@ == typed_text(line@, cursor_column as int).take(
                if typed_text(line@, cursor_column as int).len() < PREVIEW_CHARACTERS {
                    typed_text(line@, cursor_column as int).len() as int
                } else {
                    PREVIEW_CHARACTERS as int
                },
            )),
    {
        let length = line.unicode_len();
        let end = if (cursor_column as usize) < length {
            cursor_column as usize
        } else {
            length
        };
        let prefix = line.substring_char(0, end);
        let trimmed_prefix = trim(prefix);
        let unmarked = trim_start_matches(trimmed_prefix.as_str(), '>');
        let unmarked = trim_start_matches(unmarked.as_str(), '›');
        let text = trim(unmarked.as_str());
        let count = text.as_str().unicode_len();
        if count == 0 {
            PromptState::Empty
        } else {
            let shown = if count < PREVIEW_CHARACTERS {
                count
            } else {
                PREVIEW_CHARACTERS
            };
            PromptState::Occupied { preview: String::from_str(text.as_str().substring_char(0, shown)) }
        }
    }
}

} // verus!
