//! The terminal adapter's error taxonomy and the safe status text each error is shown as.

use vstd::prelude::*;

use crate::text::{owned, spec_is_control};

verus! {

/// The kinds of failure the navigation core reports. Only the kind decides what the user
/// is told, so no diagnostic detail travels with it.
#[derive(Debug, Clone, Copy, PartialEq, Eq, Structural)]
pub enum CoreError {
    NavigationFailed,
    TabNotFound,
    Network,
    LocalFileNotFound,
    LocalPathIsDirectory,
    LocalFileTooLarge,
    LocalFileReadFailed,
    Parse,
    Layout,
    Storage,
    Privacy,
}

/// Errors produced by the terminal output adapter: a wrapped core failure, or a draw that
/// could not complete.
#[derive(Debug, Clone, Copy, PartialEq, Eq, Structural)]
pub enum TerminalError {
    Core(CoreError),
    RenderFailed,
}

impl From<CoreError> for TerminalError {
    fn from(error: CoreError) -> (r: TerminalError) {
        TerminalError::Core(error)
    }
}

impl vstd::std_specs::convert::FromSpecImpl<CoreError> for TerminalError {
    open spec fn obeys_from_spec() -> bool {
        true
    }

    open spec fn from_spec(error: CoreError) -> TerminalError {
        TerminalError::Core(error)
    }
}

/// The status line for a core failure.
pub open spec fn core_text(error: CoreError) -> Seq<char> {
    match error {
        CoreError::NavigationFailed => "Navigation failed"@,
        CoreError::TabNotFound => "Tab not found"@,
        CoreError::Network => "Connection failed"@,
        CoreError::LocalFileNotFound => "File not found"@,
        CoreError::LocalPathIsDirectory => "Path is a directory, not a file"@,
        CoreError::LocalFileTooLarge => "File is too large"@,
        CoreError::LocalFileReadFailed => "Could not read the file"@,
        CoreError::Parse => "Could not read the page"@,
        CoreError::Layout => "Could not display the page"@,
        CoreError::Storage => "Could not access local data"@,
        CoreError::Privacy => "Blocked by privacy policy"@,
    }
}

/// The status line for any terminal error.
pub open spec fn user_text(error: TerminalError) -> Seq<char> {
    match error {
        TerminalError::Core(e) => core_text(e),
        TerminalError::RenderFailed => "Could not render the page"@,
    }
}

/// Whether `text` is fit for the status line: non-empty, at most eighty characters, and
/// free of control characters and path separators.
pub open spec fn plain_status_text(text: Seq<char>) -> bool {
    &&& 0 < text.len() <= 80
    &&& forall|i: int| 0 <= i < text.len() ==> !spec_is_control(#[trigger] text[i]) && text[i] != '/'
}

impl TerminalError {
    /// A short, factual status message safe to write to the terminal. It carries no file
    /// path, crate name, or internal variant name, and never an escape sequence.
    pub fn user_message(&self) -> (r: String)
        ensures
            r@ == user_text(*self),
            plain_status_text(r@),
            !has_substring(ascii_lower(r@), "browser"@),
            vstd::utf8::encode_utf8(r@).len() <= 80,
    {
        proof {
            lemma_user_text_is_plain(*self);
            lemma_user_text_names_no_internals(*self);
        }
        match self {
            TerminalError::Core(error) => owned(Self::core_message(*error)),
            TerminalError::RenderFailed => owned("Could not render the page"),
        }
    }

    /// The fixed status line for each kind of core failure.
    pub fn core_message(error: CoreError) -> (r: &'static str)
        ensures
            r@ == core_text(error),
    {
        match error {
            CoreError::NavigationFailed => "Navigation failed",
            CoreError::TabNotFound => "Tab not found",
            CoreError::Network => "Connection failed",
            CoreError::LocalFileNotFound => "File not found",
            CoreError::LocalPathIsDirectory => "Path is a directory, not a file",
            CoreError::LocalFileTooLarge => "File is too large",
            CoreError::LocalFileReadFailed => "Could not read the file",
            CoreError::Parse => "Could not read the page",
            CoreError::Layout => "Could not display the page",
            CoreError::Storage => "Could not access local data",
            CoreError::Privacy => "Blocked by privacy policy",
        }
    }
}

/// Every message an error is shown as is plain status text: short, non-empty, with no
/// control character and no path separator.
pub proof fn lemma_user_text_is_plain(error: TerminalError)
    ensures
        plain_status_text(user_text(error)),
{
    reveal_strlit("Navigation failed");
    reveal_strlit("Tab not found");
    reveal_strlit("Connection failed");
    reveal_strlit("File not found");
    reveal_strlit("Path is a directory, not a file");
    reveal_strlit("File is too large");
    reveal_strlit("Could not read the file");
    reveal_strlit("Could not read the page");
    reveal_strlit("Could not display the page");
    reveal_strlit("Could not access local data");
    reveal_strlit("Blocked by privacy policy");
    reveal_strlit("Could not render the page");
}


/// Whether `word` occurs in `text`.
pub open spec fn has_substring(text: Seq<char>, word: Seq<char>) -> bool {
    exists|i: int| 0 <= i && i + word.len() <= text.len() && #[trigger] text.subrange(i, i + word.len()) == word
}

/// `c` with an ASCII capital letter turned into its small letter; what `to_lowercase` does
/// to an ASCII character.
pub open spec fn ascii_lower_char(c: char) -> char {
    if 'A' <= c && c <= 'Z' {
        ((c as u32) + 32) as char
    } else {
        c
    }
}

/// `text` with every ASCII capital letter turned into its small letter.
pub open spec fn ascii_lower(text: Seq<char>) -> Seq<char> {
    text.map_values(|c: char| ascii_lower_char(c))
}

/// No message an error is shown as names an internal: it holds no `::` path separator, no
/// crate name such as `browser` in any letter case, and no `Error` type or variant name. Every
/// message is ASCII, so it also takes at most eighty bytes in UTF-8.
pub proof fn lemma_user_text_names_no_internals(error: TerminalError)
    ensures
        !has_substring(user_text(error), "::"@),
        !has_substring(user_text(error), "browser"@),
        !has_substring(ascii_lower(user_text(error)), "browser"@),
        !has_substring(user_text(error), "Error"@),
        vstd::utf8::is_ascii_chars(user_text(error)),
        vstd::utf8::encode_utf8(user_text(error)).len() <= 80,
{
    lemma_user_text_is_plain(error);
    reveal_strlit("::");
    reveal_strlit("browser");
    reveal_strlit("Error");
    reveal_strlit("Navigation failed");
    reveal_strlit("Tab not found");
    reveal_strlit("Connection failed");
    reveal_strlit("File not found");
    reveal_strlit("Path is a directory, not a file");
    reveal_strlit("File is too large");
    reveal_strlit("Could not read the file");
    reveal_strlit("Could not read the page");
    reveal_strlit("Could not display the page");
    reveal_strlit("Could not access local data");
    reveal_strlit("Blocked by privacy policy");
    reveal_strlit("Could not render the page");
    let text = user_text(error);
    assert forall|i: int| 0 <= i < text.len() implies #[trigger] text[i] != ':' && text[i] != 'w' && text[i] != 'W'
        && text[i] != 'E' && text[i] <= '\u{7f}' by {}
    assert(vstd::utf8::is_ascii_chars(text));
    vstd::utf8::is_ascii_chars_encode_utf8(text);
    let lower = ascii_lower(text);
    if has_substring(lower, "browser"@) {
        let i = choose|i: int| 0 <= i && i + 7 <= lower.len() && #[trigger] lower.subrange(i, i + 7) == "browser"@;
        assert(lower.subrange(i, i + 7)[3] == lower[i + 3]);
        assert(lower[i + 3] == ascii_lower_char(text[i + 3]));
    }
    if has_substring(text, "::"@) {
        let i = choose|i: int| 0 <= i && i + 2 <= text.len() && #[trigger] text.subrange(i, i + 2) == "::"@;
        assert(text.subrange(i, i + 2)[0] == text[i]);
    }
    if has_substring(text, "browser"@) {
        let i = choose|i: int| 0 <= i && i + 7 <= text.len() && #[trigger] text.subrange(i, i + 7) == "browser"@;
        assert(text.subrange(i, i + 7)[3] == text[i + 3]);
    }
    if has_substring(text, "Error"@) {
        let i = choose|i: int| 0 <= i && i + 5 <= text.len() && #[trigger] text.subrange(i, i + 5) == "Error"@;
        assert(text.subrange(i, i + 5)[0] == text[i]);
    }
}

} // verus!
