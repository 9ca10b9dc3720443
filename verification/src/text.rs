//! Character-level text helpers shared by every composer: control stripping, whitespace
//! trimming, decimal formatting, column fitting, and building owned strings from characters.

use vstd::prelude::*;

verus! {

/// Whether `c` is in the Unicode general category `Cc` (what `char::is_control` reports).
pub open spec fn spec_is_control(c: char) -> bool {
    (c as u32) <= 0x1f || (0x7f <= (c as u32) && (c as u32) <= 0x9f)
}

/// Whether `c` has the Unicode `White_Space` property (what `char::is_whitespace` reports).
pub open spec fn spec_is_whitespace(c: char) -> bool {
    let v = c as u32;
    (0x09 <= v && v <= 0x0d) || v == 0x20 || v == 0x85 || v == 0xa0 || v == 0x1680 || (0x2000
        <= v && v <= 0x200a) || v == 0x2028 || v == 0x2029 || v == 0x202f || v == 0x205f || v
        == 0x3000
}

pub fn is_control_char(c: char) -> (r: bool)
    ensures
        r == spec_is_control(c),
{
    let v = c as u32;
    v <= 0x1f || (0x7f <= v && v <= 0x9f)
}

pub fn is_whitespace_char(c: char) -> (r: bool)
    ensures
        r == spec_is_whitespace(c),
{
    let v = c as u32;
    (0x09 <= v && v <= 0x0d) || v == 0x20 || v == 0x85 || v == 0xa0 || v == 0x1680 || (0x2000
        <= v && v <= 0x200a) || v == 0x2028 || v == 0x2029 || v == 0x202f || v == 0x205f || v
        == 0x3000
}

/// The characters of `s` that are not control characters, in order.
pub open spec fn strip_control_spec(s: Seq<char>) -> Seq<char>
    decreases s.len(),
{
    if s.len() == 0 {
        s
    } else {
        let kept = strip_control_spec(s.drop_last());
        if spec_is_control(s.last()) {
            kept
        } else {
            kept.push(s.last())
        }
    }
}

/// No character of `strip_control_spec(s)` is a control character, and every character of
/// `s` that is not one survives.
pub proof fn lemma_strip_control_has_no_control(s: Seq<char>)
    ensures
        forall|i: int|
            0 <= i < strip_control_spec(s).len() ==> !spec_is_control(
                #[trigger] strip_control_spec(s)[i],
            ),
        strip_control_spec(s).len() <= s.len(),
        (forall|i: int| 0 <= i < s.len() ==> !spec_is_control(#[trigger] s[i]))
            ==> strip_control_spec(s) == s,
    decreases s.len(),
{
    if s.len() > 0 {
        lemma_strip_control_has_no_control(s.drop_last());
        assert(s.drop_last().push(s.last()) =~= s);
    }
}

/// Spaces, `n` of them.
pub open spec fn spaces(n: nat) -> Seq<char> {
    Seq::new(n, |i: int| ' ')
}

/// The character for decimal digit `d`.
pub open spec fn spec_digit(d: int) -> char {
    if d == 0 {
        '0'
    } else if d == 1 {
        '1'
    } else if d == 2 {
        '2'
    } else if d == 3 {
        '3'
    } else if d == 4 {
        '4'
    } else if d == 5 {
        '5'
    } else if d == 6 {
        '6'
    } else if d == 7 {
        '7'
    } else if d == 8 {
        '8'
    } else {
        '9'
    }
}

/// The decimal digits of `n`, most significant first, with no leading zeros.
pub open spec fn decimal(n: nat) -> Seq<char>
    decreases n,
{
    if n < 10 {
        seq![spec_digit(n as int)]
    } else {
        decimal(n / 10).push(spec_digit((n % 10) as int))
    }
}

/// Appends one character to `s`.
#[verifier::external_body]
pub(crate) fn push_char(s: &mut String, c: char)
    ensures
        final(s)@ == old(s)@.push(c),
{
    s.push(c)
}

/// Appends the characters of `t` to `s`.
pub(crate) fn push_str(s: &mut String, t: &str)
    ensures
        final(s)@ == old(s)@ + t@,
{
    let ghost start = s@;
    for c in it: t.chars()
        invariant
            it.seq() == t@,
            s@ == start + it.seq().take(it.index() as int),
    {
        proof {
            assert(it.seq().take(it.index() + 1) =~= it.seq().take(it.index() as int).push(c));
        }
        push_char(s, c);
    }
    proof {
        assert(t@.take(t@.len() as int) =~= t@);
    }
}

/// Appends the characters of `v` to `s`.
pub(crate) fn push_chars(s: &mut String, v: &Vec<char>)
    ensures
        final(s)@ == old(s)@ + v@,
{
    let ghost start = s@;
    let mut i: usize = 0;
    while i < v.len()
        invariant
            i <= v.len(),
            s@ == start + v@.take(i as int),
        decreases v.len() - i,
    {
        proof {
            assert(v@.take(i + 1) =~= v@.take(i as int).push(v@[i as int]));
        }
        push_char(s, v[i]);
        i = i + 1;
    }
    proof {
        assert(v@.take(v@.len() as int) =~= v@);
    }
}

/// An owned string holding the characters of `v`.
pub(crate) fn string_of(v: &Vec<char>) -> (r: String)
    ensures
        r@ == v@,
{
    let mut r = String::new();
    push_chars(&mut r, v);
    r
}

/// An owned copy of `t`.
pub(crate) fn owned(t: &str) -> (r: String)
    ensures
        r@ == t@,
{
    let mut r = String::new();
    push_str(&mut r, t);
    r
}

/// Appends `n` spaces to `s`.
pub(crate) fn push_spaces(s: &mut String, n: usize)
    ensures
        final(s)@ == old(s)@ + spaces(n as nat),
{
    let ghost start = s@;
    let mut i: usize = 0;
    while i < n
        invariant
            i <= n,
            s@ == start + spaces(i as nat),
        decreases n - i,
    {
        proof {
            assert(spaces((i + 1) as nat) =~= spaces(i as nat).push(' '));
        }
        push_char(s, ' ');
        i = i + 1;
    }
}

fn digit_char(d: u64) -> (c: char)
    requires
        d < 10,
    ensures
        c == spec_digit(d as int),
{
    match d {
        0 => '0',
        1 => '1',
        2 => '2',
        3 => '3',
        4 => '4',
        5 => '5',
        6 => '6',
        7 => '7',
        8 => '8',
        _ => '9',
    }
}

/// Appends the decimal digits of `n` to `s`.
pub(crate) fn push_decimal(s: &mut String, n: u64)
    ensures
        final(s)@ == old(s)@ + decimal(n as nat),
    decreases n,
{
    if n >= 10 {
        push_decimal(s, n / 10);
    }
    push_char(s, digit_char(n % 10));
    proof {
        if n >= 10 {
            assert(decimal(n as nat) == decimal((n / 10) as nat).push(spec_digit((n % 10) as int)));
        }
    }
}

/// The decimal digits of `n` as an owned string.
pub fn decimal_string(n: u64) -> (r: String)
    ensures
        r@ == decimal(n as nat),
{
    let mut r = String::new();
    push_decimal(&mut r, n);
    r
}

/// The characters of `s`, in order.
pub fn chars_of(s: &str) -> (v: Vec<char>)
    ensures
        v@ == s@,
{
    let mut v: Vec<char> = Vec::new();
    for c in it: s.chars()
        invariant
            v@ == it.seq().take(it.index() as int),
            it.seq() == s@,
    {
        v.push(c);
    }
    v
}

/// Removes control characters from `text` so no escape sequence reaches the terminal.
pub fn strip_control(text: &str) -> (r: String)
    ensures
        r@ == strip_control_spec(text@),
{
    let mut r = String::new();
    for c in it: text.chars()
        invariant
            it.seq() == text@,
            r@ == strip_control_spec(it.seq().take(it.index() as int)),
    {
        proof {
            assert(it.seq().take(it.index() + 1).drop_last() =~= it.seq().take(it.index() as int));
        }
        if !is_control_char(c) {
            push_char(&mut r, c);
        }
    }
    proof {
        assert(text@.take(text@.len() as int) =~= text@);
    }
    r
}

/// The number of whitespace characters at the start of `s`.
pub open spec fn leading_ws(s: Seq<char>) -> nat
    decreases s.len(),
{
    if s.len() > 0 && spec_is_whitespace(s[0]) {
        1 + leading_ws(s.drop_first())
    } else {
        0
    }
}

/// The number of whitespace characters at the end of `s`.
pub open spec fn trailing_ws(s: Seq<char>) -> nat
    decreases s.len(),
{
    if s.len() > 0 && spec_is_whitespace(s.last()) {
        1 + trailing_ws(s.drop_last())
    } else {
        0
    }
}

/// `s` with leading and trailing whitespace removed (what `str::trim` returns).
pub open spec fn trim_spec(s: Seq<char>) -> Seq<char> {
    let rest = s.skip(leading_ws(s) as int);
    rest.take(rest.len() - trailing_ws(rest))
}

/// The index of the first whitespace character of `s`, or its length when it has none.
pub open spec fn ws_index(s: Seq<char>) -> nat
    decreases s.len(),
{
    if s.len() == 0 {
        0
    } else if spec_is_whitespace(s[0]) {
        0
    } else {
        1 + ws_index(s.drop_first())
    }
}

pub proof fn lemma_leading_ws_bound(s: Seq<char>)
    ensures
        leading_ws(s) <= s.len(),
        leading_ws(s) < s.len() ==> !spec_is_whitespace(s[leading_ws(s) as int]),
        forall|k: int| 0 <= k < leading_ws(s) ==> spec_is_whitespace(#[trigger] s[k]),
    decreases s.len(),
{
    if s.len() > 0 && spec_is_whitespace(s[0]) {
        lemma_leading_ws_bound(s.drop_first());
        assert forall|k: int| 0 <= k < leading_ws(s) implies spec_is_whitespace(#[trigger] s[k]) by {
            if k > 0 {
                assert(s[k] == s.drop_first()[k - 1]);
            }
        }
    }
}

pub proof fn lemma_trailing_ws_bound(s: Seq<char>)
    ensures
        trailing_ws(s) <= s.len(),
    decreases s.len(),
{
    if s.len() > 0 && spec_is_whitespace(s.last()) {
        lemma_trailing_ws_bound(s.drop_last());
    }
}

pub proof fn lemma_ws_index_bound(s: Seq<char>)
    ensures
        ws_index(s) <= s.len(),
        ws_index(s) < s.len() ==> spec_is_whitespace(s[ws_index(s) as int]),
        forall|k: int| 0 <= k < ws_index(s) ==> !spec_is_whitespace(#[trigger] s[k]),
    decreases s.len(),
{
    if s.len() > 0 && !spec_is_whitespace(s[0]) {
        lemma_ws_index_bound(s.drop_first());
        assert forall|k: int| 0 <= k < ws_index(s) implies !spec_is_whitespace(#[trigger] s[k]) by {
            if k > 0 {
                assert(s[k] == s.drop_first()[k - 1]);
            }
        }
    }
}

/// The number of leading whitespace characters of `v@.subrange(lo, hi)`.
pub(crate) fn leading_ws_count(v: &Vec<char>, lo: usize, hi: usize) -> (n: usize)
    requires
        lo <= hi <= v.len(),
    ensures
        n == leading_ws(v@.subrange(lo as int, hi as int)),
        lo + n <= hi,
{
    let mut i: usize = lo;
    while i < hi && is_whitespace_char(v[i])
        invariant
            lo <= i <= hi <= v.len(),
            leading_ws(v@.subrange(lo as int, hi as int)) == (i - lo) + leading_ws(
                v@.subrange(i as int, hi as int),
            ),
        decreases hi - i,
    {
        proof {
            assert(v@.subrange(i as int, hi as int).drop_first() =~= v@.subrange(
                i + 1,
                hi as int,
            ));
        }
        i = i + 1;
    }
    proof {
        if i < hi {
            assert(v@.subrange(i as int, hi as int)[0] == v@[i as int]);
        }
    }
    i - lo
}

/// The number of trailing whitespace characters of `v@.subrange(lo, hi)`.
pub(crate) fn trailing_ws_count(v: &Vec<char>, lo: usize, hi: usize) -> (n: usize)
    requires
        lo <= hi <= v.len(),
    ensures
        n == trailing_ws(v@.subrange(lo as int, hi as int)),
        lo + n <= hi,
{
    let mut j: usize = hi;
    while j > lo && is_whitespace_char(v[j - 1])
        invariant
            lo <= j <= hi <= v.len(),
            trailing_ws(v@.subrange(lo as int, hi as int)) == (hi - j) + trailing_ws(
                v@.subrange(lo as int, j as int),
            ),
        decreases j - lo,
    {
        proof {
            assert(v@.subrange(lo as int, j as int).drop_last() =~= v@.subrange(
                lo as int,
                j - 1,
            ));
        }
        j = j - 1;
    }
    proof {
        if j > lo {
            assert(v@.subrange(lo as int, j as int).last() == v@[j - 1]);
        }
    }
    hi - j
}

/// The bounds of the trimmed part of `v@.subrange(lo, hi)`.
pub(crate) fn trim_range(v: &Vec<char>, lo: usize, hi: usize) -> (r: (usize, usize))
    requires
        lo <= hi <= v.len(),
    ensures
        lo <= r.0 <= r.1 <= hi,
        v@.subrange(r.0 as int, r.1 as int) == trim_spec(v@.subrange(lo as int, hi as int)),
{
    let lead = leading_ws_count(v, lo, hi);
    let a = lo + lead;
    let trail = trailing_ws_count(v, a, hi);
    let b = hi - trail;
    proof {
        let s = v@.subrange(lo as int, hi as int);
        assert(s.skip(lead as int) =~= v@.subrange(a as int, hi as int));
        let rest = s.skip(lead as int);
        assert(rest.take(rest.len() - trail) =~= v@.subrange(a as int, b as int));
    }
    (a, b)
}

/// The index of the first whitespace character in `v@.subrange(lo, hi)`, counted from `lo`,
/// or the length of that range when it holds none.
pub(crate) fn ws_index_in(v: &Vec<char>, lo: usize, hi: usize) -> (n: usize)
    requires
        lo <= hi <= v.len(),
    ensures
        n == ws_index(v@.subrange(lo as int, hi as int)),
        lo + n <= hi,
{
    let mut i: usize = lo;
    while i < hi && !is_whitespace_char(v[i])
        invariant
            lo <= i <= hi <= v.len(),
            ws_index(v@.subrange(lo as int, hi as int)) == (i - lo) + ws_index(
                v@.subrange(i as int, hi as int),
            ),
        decreases hi - i,
    {
        proof {
            assert(v@.subrange(i as int, hi as int).drop_first() =~= v@.subrange(
                i + 1,
                hi as int,
            ));
        }
        i = i + 1;
    }
    proof {
        if i < hi {
            assert(v@.subrange(i as int, hi as int)[0] == v@[i as int]);
        }
    }
    i - lo
}

/// Whether `v@.subrange(lo, hi)` spells exactly `lit`.
pub(crate) fn range_equals(v: &Vec<char>, lo: usize, hi: usize, lit: &str) -> (r: bool)
    requires
        lo <= hi <= v.len(),
    ensures
        r == (v@.subrange(lo as int, hi as int) == lit@),
{
    let w = chars_of(lit);
    if hi - lo != w.len() {
        proof {
            assert(v@.subrange(lo as int, hi as int).len() != lit@.len());
        }
        return false;
    }
    let mut i: usize = 0;
    while i < w.len()
        invariant
            hi - lo == w.len(),
            lo <= hi <= v.len(),
            w@ == lit@,
            i <= w.len(),
            forall|k: int| 0 <= k < i ==> v@[lo + k] == w@[k],
        decreases w.len() - i,
    {
        if v[lo + i] != w[i] {
            proof {
                assert(v@.subrange(lo as int, hi as int)[i as int] != lit@[i as int]);
            }
            return false;
        }
        i = i + 1;
    }
    proof {
        assert(v@.subrange(lo as int, hi as int) =~= lit@);
    }
    true
}

/// Whether two strings hold the same characters.
pub(crate) fn str_equals(a: &str, b: &str) -> (r: bool)
    ensures
        r == (a@ == b@),
{
    let v = chars_of(a);
    proof {
        assert(v@.subrange(0, v@.len() as int) =~= v@);
    }
    range_equals(&v, 0, v.len(), b)
}

/// The owned characters `v@.subrange(lo, hi)`.
pub(crate) fn sub_string(v: &Vec<char>, lo: usize, hi: usize) -> (r: String)
    requires
        lo <= hi <= v.len(),
    ensures
        r@ == v@.subrange(lo as int, hi as int),
{
    let mut r = String::new();
    let mut i: usize = lo;
    while i < hi
        invariant
            lo <= i <= hi <= v.len(),
            r@ == v@.subrange(lo as int, i as int),
        decreases hi - i,
    {
        proof {
            assert(v@.subrange(lo as int, i + 1) =~= v@.subrange(lo as int, i as int).push(
                v@[i as int],
            ));
        }
        push_char(&mut r, v[i]);
        i = i + 1;
    }
    r
}

/// Display columns of one character per the unicode-width tables (`None` for control
/// characters).
pub uninterp spec fn unicode_char_width(c: char) -> Option<usize>;

/// Display columns of a whole string per the unicode-width tables, which also account for
/// multi-character sequences such as emoji ligatures.
pub uninterp spec fn unicode_str_width(s: Seq<char>) -> usize;

/// `UnicodeWidthChar::width` of the unicode-width crate. The contract names its result and
/// states what the crate decides before consulting its tables: printable ASCII is one column
/// wide, the C0 and C1 control ranges and DEL have no width, and every character from U+00A0
/// on has one.
#[verifier::external_body]
pub(crate) fn char_width(c: char) -> (r: Option<usize>)
    ensures
        r == unicode_char_width(c),
        0x20 <= (c as u32) < 0x7F ==> r == Some(1usize),
        (c as u32) < 0x20 || (0x7F <= (c as u32) < 0xA0) ==> r is None,
        0xA0 <= (c as u32) ==> r is Some,
{
    unicode_width::UnicodeWidthChar::width(c)
}

/// `UnicodeWidthStr::width` of the unicode-width crate. The contract names its result and
/// states what the crate decides before consulting its tables: a string of printable ASCII
/// is one column per character.
#[verifier::external_body]
pub(crate) fn str_width(s: &str) -> (r: usize)
    ensures
        r == unicode_str_width(s@),
        (forall|i: int| 0 <= i < s@.len() ==> 0x20 <= (#[trigger] s@[i] as u32) < 0x7F) ==> r
            == s@.len(),
{
    unicode_width::UnicodeWidthStr::width(s)
}

/// The columns a character occupies while fitting text: its table width, or zero when the
/// tables give none.
pub open spec fn col_width(c: char) -> int {
    match unicode_char_width(c) {
        Some(w) => w as int,
        None => 0,
    }
}

/// How many leading characters of `s` fit in `room` columns, stopping at the first one that
/// would overflow.
pub open spec fn fit_count(s: Seq<char>, room: int) -> nat
    decreases s.len(),
{
    if s.len() == 0 || col_width(s[0]) > room {
        0
    } else {
        1 + fit_count(s.drop_first(), room - col_width(s[0]))
    }
}

/// The columns those fitted characters occupy.
pub open spec fn fit_cols(s: Seq<char>, room: int) -> int
    decreases s.len(),
{
    if s.len() == 0 || col_width(s[0]) > room {
        0
    } else {
        col_width(s[0]) + fit_cols(s.drop_first(), room - col_width(s[0]))
    }
}

pub proof fn lemma_fit_bounds(s: Seq<char>, room: int)
    requires
        room >= 0,
    ensures
        fit_count(s, room) <= s.len(),
        0 <= fit_cols(s, room) <= room,
    decreases s.len(),
{
    if s.len() > 0 && col_width(s[0]) <= room {
        assert(col_width(s[0]) >= 0);
        lemma_fit_bounds(s.drop_first(), room - col_width(s[0]));
    }
}

/// `s` cut to `width` display columns without splitting a character, then padded with
/// spaces to exactly `width` columns.
pub open spec fn fit_padded(s: Seq<char>, width: int) -> Seq<char> {
    s.take(fit_count(s, width) as int) + spaces((width - fit_cols(s, width)) as nat)
}

/// `s` cut to `width` display columns without splitting a character, with no padding.
pub open spec fn fit_unpadded(s: Seq<char>, width: int) -> Seq<char> {
    s.take(fit_count(s, width) as int)
}

/// Cuts `text` to `width` columns; returns the kept characters and the columns they use.
pub(crate) fn fit_prefix(text: &Vec<char>, width: usize) -> (r: (usize, usize))
    ensures
        r.0 == fit_count(text@, width as int),
        r.1 == fit_cols(text@, width as int),
        r.0 <= text.len(),
        r.1 <= width,
{
    let mut i: usize = 0;
    let mut used: usize = 0;
    proof {
        assert(text@.skip(0) =~= text@);
    }
    while i < text.len()
        invariant
            i <= text.len(),
            used <= width,
            fit_count(text@, width as int) == i + fit_count(text@.skip(i as int), width - used),
            fit_cols(text@, width as int) == used + fit_cols(text@.skip(i as int), width - used),
        ensures
            i <= text.len(),
            used <= width,
            fit_count(text@, width as int) == i + fit_count(text@.skip(i as int), width - used),
            fit_cols(text@, width as int) == used + fit_cols(text@.skip(i as int), width - used),
            i == text.len() || col_width(text@[i as int]) > width - used,
        decreases text.len() - i,
    {
        let columns = match char_width(text[i]) {
            Some(w) => w,
            None => 0,
        };
        proof {
            assert(text@.skip(i as int)[0] == text@[i as int]);
        }
        if columns > width - used {
            break;
        }
        proof {
            assert(text@.skip(i as int).drop_first() =~= text@.skip(i + 1));
        }
        used = used + columns;
        i = i + 1;
    }
    proof {
        if i == text.len() {
            assert(text@.skip(i as int).len() == 0);
        } else {
            assert(text@.skip(i as int)[0] == text@[i as int]);
        }
    }
    (i, used)
}

/// Truncates `text` to `width` display columns, then right-pads with spaces to exactly
/// `width` so a selection highlight spans the full popup line. Never splits a character.
pub fn fit_to_width(text: &str, width: usize) -> (r: String)
    ensures
        r@ == fit_padded(text@, width as int),
{
    let chars = chars_of(text);
    let (count, used) = fit_prefix(&chars, width);
    let mut r = sub_string(&chars, 0, count);
    push_spaces(&mut r, width - used);
    proof {
        assert(chars@.subrange(0, count as int) =~= text@.take(count as int));
    }
    r
}

/// Truncates `text` to `width` display columns without splitting a character.
pub fn fit_to_width_unpadded(text: &str, width: usize) -> (r: String)
    ensures
        r@ == fit_unpadded(text@, width as int),
{
    let chars = chars_of(text);
    let (count, _used) = fit_prefix(&chars, width);
    proof {
        assert(chars@.subrange(0, count as int) =~= text@.take(count as int));
    }
    sub_string(&chars, 0, count)
}

} // verus!
