//! Composes the address-suggestion and history-list popup rows and their labels.

use vstd::prelude::*;

use crate::text::{
    chars_of, decimal, fit_padded, fit_to_width, owned, push_decimal, push_str,
    strip_control, strip_control_spec, trim_range, trim_spec,
};

verus! {

/// Maximum number of rows a list popup shows at once.
pub const LIST_MENU_MAX_ROWS: usize = 8;

/// The most history entries a single `/history` query loads.
pub const HISTORY_QUERY_LIMIT: usize = 100;

/// One visit in the browsing history, as the history store hands it over: its stored
/// identity, the visited URL, the page title when one was recorded, and the visit time in
/// Unix seconds.
#[derive(Debug, Clone, PartialEq, Eq)]
pub struct HistoryEntry {
    pub id: i64,
    pub url: String,
    pub title: Option<String>,
    pub visited_at: i64,
}

impl HistoryEntry {
    pub fn new(id: i64, url: String, title: Option<String>, visited_at: i64) -> (e: HistoryEntry)
        ensures
            e.id == id,
            e.url == url,
            e.title == title,
            e.visited_at == visited_at,
    {
        HistoryEntry { id, url, title, visited_at }
    }

    pub fn id(&self) -> (r: i64)
        ensures
            r == self.id,
    {
        self.id
    }

    pub fn url(&self) -> (r: &str)
        ensures
            r@ == self.url@,
    {
        self.url.as_str()
    }

    pub fn title(&self) -> (r: Option<&str>)
        ensures
            match self.title {
                Some(t) => r matches Some(s) && s@ == t@,
                None => r is None,
            },
    {
        match &self.title {
            Some(t) => Some(t.as_str()),
            None => None,
        }
    }

    pub fn visited_at(&self) -> (r: i64)
        ensures
            r == self.visited_at,
    {
        self.visited_at
    }
}

/// A composed list popup: the visible rows, each already truncated and padded to the popup
/// width, and which of those rows carries the selection highlight, if any.
pub struct ListMenu {
    pub rows: Vec<String>,
    pub selected_row: Option<usize>,
}

pub open spec fn min_nat(a: int, b: int) -> int {
    if a <= b {
        a
    } else {
        b
    }
}

/// The visible slice `(start, len)` of a list of `list_len` rows: anchored at the top
/// until the selection would fall past the last visible row, then scrolled just enough to
/// keep the selection as the bottom row.
pub open spec fn list_window(list_len: int, selected: Option<usize>, max_rows: int) -> (int, int) {
    let window_len = min_nat(list_len, max_rows);
    if window_len == 0 {
        (0, 0)
    } else {
        let sel = min_nat(
            match selected {
                Some(i) => i as int,
                None => 0,
            },
            list_len - 1,
        );
        let start = if sel < max_rows {
            0
        } else {
            sel + 1 - max_rows
        };
        (min_nat(start, list_len - window_len), window_len)
    }
}

/// Chooses which slice of the list is visible so the selected row stays on screen. With no
/// selection the window is anchored at the top; with a selection it scrolls down just enough
/// to keep the selection as the bottom row once it would fall past the last visible row.
pub fn visible_window(list_len: usize, selected: Option<usize>, max_rows: usize) -> (r: (
    usize,
    usize,
))
    ensures
        (r.0 as int, r.1 as int) == list_window(list_len as int, selected, max_rows as int),
        r.0 + r.1 <= list_len,
        match selected {
            Some(i) => i < list_len && max_rows > 0 ==> r.0 <= i < r.0 + r.1,
            None => r.0 == 0,
        },
{
    let window_len = if list_len < max_rows {
        list_len
    } else {
        max_rows
    };
    if window_len == 0 {
        return (0, 0);
    }
    let wanted = match selected {
        Some(i) => i,
        None => 0,
    };
    let sel = if wanted < list_len - 1 {
        wanted
    } else {
        list_len - 1
    };
    let start = if sel < max_rows {
        0
    } else {
        sel + 1 - max_rows
    };
    let max_start = list_len - window_len;
    let first = if start < max_start {
        start
    } else {
        max_start
    };
    (first, window_len)
}

/// The rows and highlight `compose_list_menu` owes for `labels`.
pub open spec fn list_menu_matches(
    labels: Seq<String>,
    selected: Option<usize>,
    width: int,
    max_rows: int,
    menu: ListMenu,
) -> bool {
    if labels.len() == 0 || width == 0 || max_rows == 0 {
        menu.rows@.len() == 0 && menu.selected_row is None
    } else {
        let (start, len) = list_window(labels.len() as int, selected, max_rows);
        &&& menu.rows@.len() == len
        &&& forall|i: int|
            0 <= i < len ==> (#[trigger] menu.rows@[i])@ == fit_padded(
                labels[start + i]@,
                width,
            )
        &&& match selected {
            Some(s) => menu.selected_row == Some(
                (if s < start {
                    0
                } else {
                    s - start
                }) as usize,
            ),
            None => menu.selected_row is None,
        }
    }
}

/// Composes the visible popup rows for `labels`, scrolled so `selected` stays in view and
/// each row fitted to `width` columns. A `selected` of `None` highlights no row and anchors
/// the window at the top. Returns no rows when there is nothing to show or no width for it.
pub fn compose_list_menu(labels: &[String], selected: Option<usize>, width: u16, max_rows: usize) -> (r:
    ListMenu)
    ensures
        list_menu_matches(labels@, selected, width as int, max_rows as int, r),
        match (selected, r.selected_row) {
            (Some(s), Some(row)) => s < labels@.len() && max_rows > 0 && width > 0 ==> row < r.rows@.len(),
            _ => true,
        },
{
    let width = width as usize;
    if labels.len() == 0 || width == 0 || max_rows == 0 {
        return ListMenu { rows: Vec::new(), selected_row: None };
    }
    let (window_start, window_len) = visible_window(labels.len(), selected, max_rows);
    let mut rows: Vec<String> = Vec::new();
    let mut i: usize = 0;
    while i < window_len
        invariant
            window_start + window_len <= labels@.len(),
            labels@.len() == labels.len(),
            i <= window_len,
            rows@.len() == i,
            forall|k: int|
                0 <= k < i ==> (#[trigger] rows@[k])@ == fit_padded(
                    labels@[window_start + k]@,
                    width as int,
                ),
        decreases window_len - i,
    {
        rows.push(fit_to_width(labels[window_start + i].as_str(), width));
        i = i + 1;
    }
    let selected_row = match selected {
        Some(index) => Some(index.saturating_sub(window_start)),
        None => None,
    };
    ListMenu { rows, selected_row }
}

/// `now - visited_at`, saturating at the bounds of `i64`.
pub open spec fn elapsed_seconds(visited_at: int, now: int) -> int {
    if now - visited_at > i64::MAX {
        i64::MAX as int
    } else if now - visited_at < i64::MIN {
        i64::MIN as int
    } else {
        now - visited_at
    }
}

/// The age label for a visit: `just now` under a minute (and for a future visit), then
/// whole minutes, hours, or days.
pub open spec fn relative_time_text(visited_at: int, now: int) -> Seq<char> {
    let elapsed = elapsed_seconds(visited_at, now);
    if elapsed < 60 {
        "just now"@
    } else if elapsed < 3600 {
        decimal((elapsed / 60) as nat) + "m ago"@
    } else if elapsed < 86400 {
        decimal((elapsed / 3600) as nat) + "h ago"@
    } else {
        decimal((elapsed / 86400) as nat) + "d ago"@
    }
}

/// A short, human-readable age for a visit at `visited_at` seconds, relative to `now`.
///
/// Buckets to seconds, minutes, hours, or days so the list reads without a date library. A
/// future or zero timestamp reports `just now` rather than a negative age.
pub fn relative_time(visited_at: i64, now: i64) -> (r: String)
    ensures
        r@ == relative_time_text(visited_at as int, now as int),
{
    let wide: i128 = now as i128 - visited_at as i128;
    let elapsed: i64 = if wide > i64::MAX as i128 {
        i64::MAX
    } else if wide < i64::MIN as i128 {
        i64::MIN
    } else {
        wide as i64
    };
    if elapsed < 60 {
        return owned("just now");
    }
    let mut r = String::new();
    if elapsed < 3600 {
        push_decimal(&mut r, (elapsed / 60) as u64);
        push_str(&mut r, "m ago");
    } else if elapsed < 86400 {
        push_decimal(&mut r, (elapsed / 3600) as u64);
        push_str(&mut r, "h ago");
    } else {
        push_decimal(&mut r, (elapsed / 86400) as u64);
        push_str(&mut r, "d ago");
    }
    r
}

/// The label a history row shows after its age: the control-stripped title followed by
/// the URL when a non-blank title is stored, the URL alone otherwise.
pub open spec fn history_label_text(entry: HistoryEntry) -> Seq<char> {
    let url = strip_control_spec(entry.url@);
    match entry.title {
        Some(t) => if trim_spec(t@).len() > 0 {
            strip_control_spec(t@) + "  "@ + url
        } else {
            url
        },
        None => url,
    }
}

/// Formats one history entry as `<time ago>  <label>`, where the label is the title when
/// present followed by the URL, or the URL alone. Control characters are stripped from the
/// title and URL first so a crafted stored value can never carry an escape sequence into the
/// popup.
pub fn format_history_label(entry: &HistoryEntry, now_unix: i64) -> (r: String)
    ensures
        r@ == relative_time_text(entry.visited_at as int, now_unix as int) + "  "@
            + history_label_text(*entry),
{
    let url = strip_control(entry.url());
    let label = match entry.title() {
        Some(title) => {
            let chars = chars_of(title);
            let (a, b) = trim_range(&chars, 0, chars.len());
            proof {
                assert(chars@.subrange(0, chars@.len() as int) =~= chars@);
            }
            if a < b {
                let mut l = strip_control(title);
                push_str(&mut l, "  ");
                push_str(&mut l, url.as_str());
                l
            } else {
                url
            }
        },
        None => url,
    };
    let mut r = relative_time(entry.visited_at(), now_unix);
    push_str(&mut r, "  ");
    push_str(&mut r, label.as_str());
    r
}

/// Unix seconds from a clock reading taken as the time elapsed since the epoch: the whole
/// seconds, or zero when the clock predates the epoch.
pub fn unix_seconds_from(since_epoch: Option<u64>) -> (r: i64)
    ensures
        r == match since_epoch {
            Some(s) => s as i64,
            None => 0,
        },
{
    match since_epoch {
        Some(s) => #[verifier::truncate] (s as i64),
        None => 0,
    }
}

} // verus!
