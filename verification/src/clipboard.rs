//! System clipboard writes: native through arboard, with an OSC 52 fallback for remote
//! sessions.

use vstd::prelude::*;
use vstd::string::StringSliceAdditionalSpecFns;

use crate::text::{decimal, owned, push_decimal, push_str};

verus! {

/// Upper bound on the UTF-8 byte length that may be sent through an OSC 52 sequence.
/// Terminals silently drop or mishandle very large OSC payloads, so oversized selections
/// skip the fallback rather than emit a truncated write.
pub const MAX_OSC52_BYTES: usize = 100_000;

/// Result of a clipboard write, reported back to the caller for its confirmation
/// message. Carries no copied text.
#[derive(Debug, Clone, Copy, PartialEq, Eq, Structural)]
pub enum ClipboardOutcome {
    CopiedNative,
    CopiedOsc52,
    Failed,
}

/// The base64 digit for a six-bit value, in the standard alphabet.
pub open spec fn b64_digit(v: int) -> char {
    if v < 26 {
        (('A' as int) + v) as char
    } else if v < 52 {
        (('a' as int) + v - 26) as char
    } else if v < 62 {
        (('0' as int) + v - 52) as char
    } else if v == 62 {
        '+'
    } else {
        '/'
    }
}

/// Standard padded base64: each group of three bytes becomes four digits of the standard alphabet,
/// and a final group of one or two bytes is padded with `=` to four characters.
pub open spec fn base64_text(b: Seq<u8>) -> Seq<char>
    decreases b.len(),
{
    if b.len() == 0 {
        Seq::empty()
    } else {
        let b0 = b[0] as int;
        if b.len() == 1 {
            seq![b64_digit(b0 / 4), b64_digit((b0 % 4) * 16), '=', '=']
        } else {
            let b1 = b[1] as int;
            if b.len() == 2 {
                seq![
                    b64_digit(b0 / 4),
                    b64_digit((b0 % 4) * 16 + b1 / 16),
                    b64_digit((b1 % 16) * 4),
                    '=',
                ]
            } else {
                let b2 = b[2] as int;
                seq![
                    b64_digit(b0 / 4),
                    b64_digit((b0 % 4) * 16 + b1 / 16),
                    b64_digit((b1 % 16) * 4 + b2 / 64),
                    b64_digit(b2 % 64),
                ] + base64_text(b.skip(3))
            }
        }
    }
}

/// Whether base64 can size its output for `len` input bytes without overflowing `usize`.
pub open spec fn base64_len_fits(len: int) -> bool {
    (len / 3) * 4 + 4 <= usize::MAX
}

/// `Engine::encode` of base64's `general_purpose::STANDARD` engine: standard alphabet with
/// padding. The crate panics when the output length overflows
/// `usize`, which the precondition rules out.
#[verifier::external_body]
fn encode_base64_standard(bytes: &[u8]) -> (r: String)
    requires
        base64_len_fits(bytes@.len() as int),
    ensures
        r@ == base64_text(bytes@),
{
    base64::Engine::encode(&base64::engine::general_purpose::STANDARD, bytes)
}

/// The OSC 52 clipboard-write frame around an already-encoded payload.
pub open spec fn osc52_text(text: &str) -> Seq<char> {
    "\x1b]52;c;"@ + base64_text(text.spec_bytes()) + "\x07"@
}

/// True when the UTF-8 payload is small enough to send through OSC 52.
pub fn text_fits_osc52_limit(text: &str) -> (r: bool)
    ensures
        r == (text.spec_bytes().len() <= MAX_OSC52_BYTES),
{
    text.as_bytes().len() <= MAX_OSC52_BYTES
}

/// Build the `ESC ] 52 ; c ; <base64> BEL` clipboard-write sequence. The payload is base64
/// (standard alphabet, no line wraps), so page text can never inject raw control bytes into
/// the terminal.
pub fn build_osc52_sequence(text: &str) -> (r: String)
    requires
        base64_len_fits(text.spec_bytes().len() as int),
    ensures
        r@ == osc52_text(text),
{
    let encoded = encode_base64_standard(text.as_bytes());
    let mut sequence = owned("\x1b]52;c;");
    push_str(&mut sequence, encoded.as_str());
    push_str(&mut sequence, "\x07");
    sequence
}

#[verifier::external_type_specification]
#[verifier::external_body]
pub struct ExNativeClipboard(arboard::Clipboard);

/// `arboard::Clipboard::new`: a handle on the system clipboard, or `None` when the platform
/// offers none. Whether one is available depends on the machine, so nothing is promised.
#[verifier::external_body]
fn open_native_clipboard() -> Option<arboard::Clipboard> {
    arboard::Clipboard::new().ok()
}

/// `arboard::Clipboard::set_text`: whether the system clipboard accepted `text`. The answer
/// depends on the machine, so nothing is promised.
#[verifier::external_body]
fn set_native_clipboard_text(clipboard: &mut arboard::Clipboard, text: &str) -> bool {
    clipboard.set_text(text).is_ok()
}

/// Attempt a native clipboard write. Returns whether the write succeeded; any error is
/// swallowed so the caller can fall back to OSC 52.
pub fn copy_to_native_clipboard(text: &str) -> bool {
    match open_native_clipboard() {
        Some(mut clipboard) => set_native_clipboard_text(&mut clipboard, text),
        None => false,
    }
}

/// What an OSC 52 copy reports once the terminal answered: copied when the sequence was both
/// written and flushed, failed otherwise.
pub fn osc52_outcome(written: bool, flushed: bool) -> (r: ClipboardOutcome)
    ensures
        r == (if written && flushed {
            ClipboardOutcome::CopiedOsc52
        } else {
            ClipboardOutcome::Failed
        }),
{
    if written && flushed {
        ClipboardOutcome::CopiedOsc52
    } else {
        ClipboardOutcome::Failed
    }
}

/// The next step of a copy: either it is over, with its outcome, or the OSC 52 sequence it
/// carries is to be written to the terminal, whose answer [`osc52_outcome`] turns into the
/// outcome.
#[derive(Debug)]
pub enum CopyStep {
    Finished(ClipboardOutcome),
    SendOsc52(String),
}

/// Whether `r` is the step a copy of `text` takes once the native clipboard answered
/// `native_copied` (false when it was not tried): done on a native success, refused when the
/// text is over the OSC 52 limit, and otherwise the OSC 52 sequence of `text` is sent.
pub open spec fn is_copy_step(r: CopyStep, text: &str, native_copied: bool) -> bool {
    if native_copied {
        r == CopyStep::Finished(ClipboardOutcome::CopiedNative)
    } else if text.spec_bytes().len() > MAX_OSC52_BYTES {
        r == CopyStep::Finished(ClipboardOutcome::Failed)
    } else {
        r matches CopyStep::SendOsc52(sequence) && sequence@ == osc52_text(text)
    }
}

/// The step a copy of `text` takes once the native clipboard answered (`native_copied` is
/// false when it was not tried); see [`is_copy_step`].
pub fn plan_copy(text: &str, native_copied: bool) -> (r: CopyStep)
    ensures
        is_copy_step(r, text, native_copied),
{
    if native_copied {
        CopyStep::Finished(ClipboardOutcome::CopiedNative)
    } else if !text_fits_osc52_limit(text) {
        CopyStep::Finished(ClipboardOutcome::Failed)
    } else {
        CopyStep::SendOsc52(build_osc52_sequence(text))
    }
}

/// Copy `text` to the system clipboard. Tries the native clipboard first, unless
/// `force_osc52` is set; when that is skipped or fails, the OSC 52 sequence of `text` comes
/// back for the caller to write to the terminal, so copy works over SSH and on terminals
/// without a native clipboard path. Text over the OSC 52 limit is never sent that way.
/// Whether the native clipboard takes the text depends on the machine; the step taken after
/// its answer is [`is_copy_step`].
pub fn copy_to_clipboard(text: &str, force_osc52: bool) -> (r: CopyStep)
    ensures
        force_osc52 ==> is_copy_step(r, text, false),
        !force_osc52 ==> is_copy_step(r, text, true) || is_copy_step(r, text, false),
{
    let native_copied = !force_osc52 && copy_to_native_clipboard(text);
    plan_copy(text, native_copied)
}

/// Whether a clipboard write reported success through either the native path or OSC 52.
pub fn clipboard_write_succeeded(outcome: ClipboardOutcome) -> (r: bool)
    ensures
        r == (outcome != ClipboardOutcome::Failed),
{
    match outcome {
        ClipboardOutcome::CopiedNative | ClipboardOutcome::CopiedOsc52 => true,
        ClipboardOutcome::Failed => false,
    }
}


/// How many extended grapheme clusters the unicode-segmentation crate finds in `text`.
pub uninterp spec fn grapheme_count(text: Seq<char>) -> nat;

/// `text.graphemes(true).count()` of the unicode-segmentation crate. The contract names the
/// count, and states what the clusters being non-empty pieces that together make up the
/// text gives: no clusters for empty text, and never more clusters than characters.
#[verifier::external_body]
fn count_graphemes(text: &str) -> (r: usize)
    ensures
        r == grapheme_count(text@),
        r <= text@.len(),
        (r == 0) == (text@.len() == 0),
{
    unicode_segmentation::UnicodeSegmentation::graphemes(text, true).count()
}

/// The copy confirmation for a selection of `count` grapheme clusters.
pub open spec fn copied_text(count: nat) -> Seq<char> {
    "copied "@ + decimal(count) + " chars to clipboard"@
}

/// The copy confirmation for a selection of `count` grapheme clusters:
/// `copied N chars to clipboard`. Carries only the count, never the copied text.
pub fn copied_message_for_count(count: usize) -> (r: String)
    ensures
        r@ == copied_text(count as nat),
{
    let mut message = owned("copied ");
    push_decimal(&mut message, count as u64);
    push_str(&mut message, " chars to clipboard");
    message
}

/// The copy confirmation for `text`: `copied N chars to clipboard`, where `N` counts
/// grapheme clusters so a multi-byte character or a combined emoji counts as one.
pub fn copied_message(text: &str) -> (r: String)
    ensures
        r@ == copied_text(grapheme_count(text@)),
        text@.len() == 0 ==> r@ == copied_text(0),
{
    let count = count_graphemes(text);
    copied_message_for_count(count)
}

} // verus!
