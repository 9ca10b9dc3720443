//! A single-line text buffer with a cursor, shared by the command bar and the settings
//! panel's text fields.

use vstd::prelude::*;

use crate::text::{chars_of, string_of};

verus! {

/// The UTF-8 length of one character (what `char::len_utf8` reports).
pub open spec fn char_utf8_len(c: char) -> nat {
    if (c as u32) < 0x80 {
        1
    } else if (c as u32) < 0x800 {
        2
    } else if (c as u32) < 0x10000 {
        3
    } else {
        4
    }
}

/// The UTF-8 length of a character sequence.
pub open spec fn utf8_len(s: Seq<char>) -> nat
    decreases s.len(),
{
    if s.len() == 0 {
        0
    } else {
        utf8_len(s.drop_last()) + char_utf8_len(s.last())
    }
}

pub proof fn lemma_utf8_len_bound(s: Seq<char>)
    ensures
        utf8_len(s) <= 4 * s.len(),
    decreases s.len(),
{
    if s.len() > 0 {
        lemma_utf8_len_bound(s.drop_last());
    }
}

/// Encoding a concatenation encodes each part in turn.
pub proof fn lemma_encode_append(a: Seq<char>, b: Seq<char>)
    ensures
        vstd::utf8::encode_utf8(a + b) =~= vstd::utf8::encode_utf8(a) + vstd::utf8::encode_utf8(b),
    decreases a.len(),
{
    if a.len() == 0 {
        assert(a + b =~= b);
    } else {
        lemma_encode_append(a.drop_first(), b);
        assert((a + b).drop_first() =~= a.drop_first() + b);
        assert((a + b)[0] == a[0]);
    }
}

/// A text's UTF-8 length is the length of its encoding.
pub proof fn lemma_utf8_len_is_encoding_len(s: Seq<char>)
    ensures
        vstd::utf8::encode_utf8(s).len() == utf8_len(s),
    decreases s.len(),
{
    if s.len() > 0 {
        let front = s.drop_last();
        let c = s.last();
        lemma_utf8_len_is_encoding_len(front);
        lemma_encode_append(front, seq![c]);
        assert(front + seq![c] =~= s);
        assert(seq![c].drop_first() =~= Seq::<char>::empty());
        assert(seq![c][0] == c);
        assert(vstd::utf8::encode_utf8(seq![c]) =~= vstd::utf8::encode_scalar(c as u32)
            + vstd::utf8::encode_utf8(Seq::<char>::empty()));
        vstd::utf8::char_is_scalar(c);
        assert(vstd::utf8::encode_scalar(c as u32).len() == char_utf8_len(c));
    }
}

/// The end of one part's encoding is a character boundary of the encoded concatenation.
proof fn lemma_part_end_is_boundary(a: Seq<char>, b: Seq<char>)
    ensures
        vstd::utf8::is_char_boundary(
            vstd::utf8::encode_utf8(a + b),
            vstd::utf8::encode_utf8(a).len() as int,
        ),
    decreases a.len(),
{
    let bytes = vstd::utf8::encode_utf8(a + b);
    vstd::utf8::encode_utf8_valid_utf8(a + b);
    lemma_encode_append(a, b);
    if a.len() > 0 {
        let rest = a.drop_first();
        lemma_part_end_is_boundary(rest, b);
        vstd::utf8::encode_utf8_first_scalar(a + b);
        assert((a + b).drop_first() =~= rest + b);
        assert((a + b)[0] == a[0]);
        assert(vstd::utf8::pop_first_scalar(bytes) =~= vstd::utf8::encode_utf8(rest + b));
    }
}

/// The byte offset of a character position in a text's encoding is a character boundary of
/// that encoding, and the bytes before it decode to the characters before the position.
pub proof fn lemma_char_offset_is_boundary(s: Seq<char>, k: int)
    requires
        0 <= k <= s.len(),
    ensures
        vstd::utf8::is_char_boundary(vstd::utf8::encode_utf8(s), utf8_len(s.take(k)) as int),
        vstd::utf8::decode_utf8(vstd::utf8::encode_utf8(s).subrange(0, utf8_len(s.take(k)) as int))
            == s.take(k),
{
    let a = s.take(k);
    let b = s.skip(k);
    assert(a + b =~= s);
    lemma_part_end_is_boundary(a, b);
    lemma_encode_append(a, b);
    lemma_utf8_len_is_encoding_len(a);
    let bytes = vstd::utf8::encode_utf8(s);
    assert(bytes.subrange(0, utf8_len(a) as int) =~= vstd::utf8::encode_utf8(a));
    vstd::utf8::encode_utf8_decode_utf8(a);
}

fn char_utf8_width(c: char) -> (r: usize)
    ensures
        r == char_utf8_len(c),
{
    let v = c as u32;
    if v < 0x80 {
        1
    } else if v < 0x800 {
        2
    } else if v < 0x10000 {
        3
    } else {
        4
    }
}

/// The most characters an editor holds, so its UTF-8 byte offsets always fit a `usize`.
pub open spec fn editor_capacity() -> nat {
    (usize::MAX / 4) as nat
}

/// A single-line text buffer with a cursor and UTF-8-safe edits. The cursor sits between
/// characters; its byte offset is the UTF-8 length of the text before it.
#[derive(Debug, Clone)]
pub struct TextEditor {
    buffer: Vec<char>,
    cursor: usize,
}

impl TextEditor {
    /// The edited text.
    pub closed spec fn text(&self) -> Seq<char> {
        self.buffer@
    }

    /// How many characters precede the cursor.
    pub closed spec fn cursor(&self) -> nat {
        self.cursor as nat
    }

    /// The cursor lies within the text, and the text fits the editor's capacity.
    pub open spec fn wf(&self) -> bool {
        &&& self.cursor() <= self.text().len()
        &&& self.text().len() <= editor_capacity()
    }

    /// An empty editor with the cursor at the start.
    pub fn new() -> (e: TextEditor)
        ensures
            e.wf(),
            e.text() == Seq::<char>::empty(),
            e.cursor() == 0,
    {
        TextEditor { buffer: Vec::new(), cursor: 0 }
    }

    /// An editor holding `value` with the cursor at its end, for seeding a field from an
    /// existing value the user then edits.
    pub fn seeded(value: &str) -> (e: TextEditor)
        requires
            value@.len() <= editor_capacity(),
        ensures
            e.wf(),
            e.text() == value@,
            e.cursor() == value@.len(),
    {
        let buffer = chars_of(value);
        let cursor = buffer.len();
        TextEditor { buffer, cursor }
    }

    /// The edited text as an owned string.
    pub fn buffer(&self) -> (r: String)
        ensures
            r@ == self.text(),
    {
        string_of(&self.buffer)
    }

    /// Whether the text begins with `c`.
    pub fn starts_with_char(&self, c: char) -> (r: bool)
        ensures
            r == (self.text().len() > 0 && self.text()[0] == c),
    {
        self.buffer.len() > 0 && self.buffer[0] == c
    }

    /// The UTF-8 byte offset of the cursor within the text.
    pub fn cursor_byte_offset(&self) -> (r: usize)
        requires
            self.wf(),
        ensures
            r == utf8_len(self.text().take(self.cursor() as int)),
    {
        let mut offset: usize = 0;
        let mut i: usize = 0;
        while i < self.cursor
            invariant
                self.wf(),
                i <= self.cursor,
                offset == utf8_len(self.buffer@.take(i as int)),
                offset <= 4 * i,
            decreases self.cursor - i,
        {
            proof {
                assert(self.buffer@.take(i + 1).drop_last() =~= self.buffer@.take(i as int));
            }
            offset = offset + char_utf8_width(self.buffer[i]);
            i = i + 1;
        }
        offset
    }

    /// Empties the buffer and returns the cursor to the start.
    pub fn clear(&mut self)
        ensures
            final(self).wf(),
            final(self).text() == Seq::<char>::empty(),
            final(self).cursor() == 0,
    {
        self.buffer = Vec::new();
        self.cursor = 0;
    }

    /// Replaces the whole buffer with `value` and moves the cursor to its end.
    pub fn set_buffer(&mut self, value: &str)
        requires
            value@.len() <= editor_capacity(),
        ensures
            final(self).wf(),
            final(self).text() == value@,
            final(self).cursor() == value@.len(),
    {
        self.buffer = chars_of(value);
        self.cursor = self.buffer.len();
    }

    /// Inserts `character` at the cursor and advances the cursor past it.
    pub fn insert_char(&mut self, character: char)
        requires
            old(self).wf(),
            old(self).text().len() < editor_capacity(),
        ensures
            final(self).wf(),
            final(self).text() == old(self).text().insert(old(self).cursor() as int, character),
            final(self).cursor() == old(self).cursor() + 1,
    {
        self.buffer.insert(self.cursor, character);
        self.cursor = self.cursor + 1;
    }

    /// Moves the cursor one character left, stopping at the start.
    pub fn move_left(&mut self)
        requires
            old(self).wf(),
        ensures
            final(self).wf(),
            final(self).text() == old(self).text(),
            final(self).cursor() == if old(self).cursor() == 0 {
                0
            } else {
                (old(self).cursor() - 1) as nat
            },
    {
        if self.cursor == 0 {
            return;
        }
        self.cursor = self.cursor - 1;
    }

    /// Moves the cursor one character right, stopping at the end.
    pub fn move_right(&mut self)
        requires
            old(self).wf(),
        ensures
            final(self).wf(),
            final(self).text() == old(self).text(),
            final(self).cursor() == if old(self).cursor() >= old(self).text().len() {
                old(self).cursor()
            } else {
                old(self).cursor() + 1
            },
    {
        if self.cursor >= self.buffer.len() {
            return;
        }
        self.cursor = self.cursor + 1;
    }

    /// Deletes the character before the cursor, moving the cursor back over it.
    pub fn delete_before_cursor(&mut self)
        requires
            old(self).wf(),
        ensures
            final(self).wf(),
            old(self).cursor() == 0 ==> final(self).text() == old(self).text() && final(self).cursor() == 0,
            old(self).cursor() > 0 ==> final(self).text() == old(self).text().remove(
                old(self).cursor() - 1,
            ) && final(self).cursor() == old(self).cursor() - 1,
    {
        if self.cursor == 0 {
            return;
        }
        self.buffer.remove(self.cursor - 1);
        self.cursor = self.cursor - 1;
    }
}

/// Typing a character and then deleting back over it leaves the text and cursor as they
/// were.
pub proof fn lemma_insert_then_delete_restores(text: Seq<char>, cursor: nat, c: char)
    requires
        cursor <= text.len(),
    ensures
        text.insert(cursor as int, c).remove(cursor as int) == text,
{
    assert(text.insert(cursor as int, c).remove(cursor as int) =~= text);
}


/// The bytes a character position splits a text's encoding at: the encoding is the part
/// before the position followed by the part after it.
proof fn lemma_encoding_splits_at(text: Seq<char>, p: int)
    requires
        0 <= p <= text.len(),
    ensures
        vstd::utf8::encode_utf8(text).subrange(0, utf8_len(text.take(p)) as int)
            == vstd::utf8::encode_utf8(text.take(p)),
        vstd::utf8::encode_utf8(text).subrange(
            utf8_len(text.take(p)) as int,
            vstd::utf8::encode_utf8(text).len() as int,
        ) == vstd::utf8::encode_utf8(text.skip(p)),
{
    assert(text.take(p) + text.skip(p) =~= text);
    lemma_encode_append(text.take(p), text.skip(p));
    lemma_utf8_len_is_encoding_len(text.take(p));
    let all = vstd::utf8::encode_utf8(text);
    let n = utf8_len(text.take(p)) as int;
    assert(all.subrange(0, n) =~= vstd::utf8::encode_utf8(text.take(p)));
    assert(all.subrange(n, all.len() as int) =~= vstd::utf8::encode_utf8(text.skip(p)));
}

/// Inserting a character at the cursor, in bytes: the new encoding is the bytes before the
/// cursor's byte offset, the character's encoding, then the bytes after; the byte cursor
/// moves past the character's encoded length and is again a character boundary.
pub proof fn lemma_insert_char_bytes(text: Seq<char>, p: int, ch: char)
    requires
        0 <= p <= text.len(),
    ensures
        ({
            let old_bytes = vstd::utf8::encode_utf8(text);
            let b = utf8_len(text.take(p)) as int;
            let after = text.insert(p, ch);
            &&& vstd::utf8::encode_utf8(after) == old_bytes.subrange(0, b) + vstd::utf8::encode_utf8(seq![ch])
                + old_bytes.subrange(b, old_bytes.len() as int)
            &&& utf8_len(after.take(p + 1)) == b + char_utf8_len(ch)
            &&& vstd::utf8::is_char_boundary(vstd::utf8::encode_utf8(after), utf8_len(after.take(p + 1)) as int)
        }),
{
    let after = text.insert(p, ch);
    lemma_encoding_splits_at(text, p);
    assert(after =~= text.take(p) + seq![ch] + text.skip(p));
    lemma_encode_append(text.take(p) + seq![ch], text.skip(p));
    lemma_encode_append(text.take(p), seq![ch]);
    assert(after.take(p + 1) =~= text.take(p).push(ch));
    assert(after.take(p + 1).drop_last() =~= text.take(p));
    lemma_char_offset_is_boundary(after, p + 1);
}

/// Stepping the cursor over one character, in bytes: the byte offset after character `p`
/// is the offset before it plus that character's encoded length, and the bytes between the
/// two offsets are its encoding. So moving right then left, or left then right, returns the
/// byte cursor where it was.
pub proof fn lemma_cursor_step_bytes(text: Seq<char>, p: int)
    requires
        0 <= p < text.len(),
    ensures
        utf8_len(text.take(p + 1)) == utf8_len(text.take(p)) + char_utf8_len(text[p]),
        vstd::utf8::encode_utf8(text).subrange(utf8_len(text.take(p)) as int, utf8_len(text.take(p + 1)) as int)
            == vstd::utf8::encode_utf8(seq![text[p]]),
{
    assert(text.take(p + 1).drop_last() =~= text.take(p));
    assert(text.take(p + 1).last() == text[p]);
    lemma_encoding_splits_at(text, p);
    lemma_encoding_splits_at(text, p + 1);
    assert(text.take(p + 1) =~= text.take(p) + seq![text[p]]);
    lemma_encode_append(text.take(p), seq![text[p]]);
    lemma_utf8_len_is_encoding_len(text.take(p));
    lemma_utf8_len_is_encoding_len(text.take(p + 1));
    assert(text.take(p + 1) + text.skip(p + 1) =~= text);
    lemma_encode_append(text.take(p + 1), text.skip(p + 1));
    let all = vstd::utf8::encode_utf8(text);
    let a = utf8_len(text.take(p)) as int;
    let b = utf8_len(text.take(p + 1)) as int;
    let pre = all.subrange(0, b);
    assert(pre == vstd::utf8::encode_utf8(text.take(p)) + vstd::utf8::encode_utf8(seq![text[p]]));
    assert(all.subrange(a, b) =~= pre.subrange(a, b));
    assert(pre.subrange(a, b) =~= vstd::utf8::encode_utf8(seq![text[p]]));
}

/// Deleting the character before the cursor, in bytes: the new encoding is the bytes before
/// that character followed by the bytes after the cursor, and the byte cursor moves back to
/// where that character began.
pub proof fn lemma_delete_before_cursor_bytes(text: Seq<char>, p: int)
    requires
        0 < p <= text.len(),
    ensures
        ({
            let bytes = vstd::utf8::encode_utf8(text);
            let after = text.remove(p - 1);
            &&& vstd::utf8::encode_utf8(after) == bytes.subrange(0, utf8_len(text.take(p - 1)) as int)
                + bytes.subrange(utf8_len(text.take(p)) as int, bytes.len() as int)
            &&& utf8_len(after.take(p - 1)) == utf8_len(text.take(p - 1))
        }),
{
    let after = text.remove(p - 1);
    lemma_encoding_splits_at(text, p - 1);
    lemma_encoding_splits_at(text, p);
    assert(after =~= text.take(p - 1) + text.skip(p));
    lemma_encode_append(text.take(p - 1), text.skip(p));
    assert(after.take(p - 1) =~= text.take(p - 1));
}

} // verus!
