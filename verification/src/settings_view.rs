//! Section and row model for the full-screen settings panel, built from live settings, and
//! the text each row renders as.

use vstd::prelude::*;

use vstd::string::StringSliceAdditionalSpecFns;

use crate::text::{owned, push_str, str_width, strip_control, strip_control_spec, unicode_str_width};

verus! {

/// Which toggle settings an environment variable currently overrides for the session.
///
/// A `true` field means a `PUMA_*` variable is set for that toggle, so its live value is
/// fixed for the run and the settings panel shows the row read-only rather than editable.
#[derive(Debug, Clone, Copy, PartialEq, Eq, Structural)]
pub struct EnvOverrides {
    pub copy_on_select: bool,
    pub force_osc52: bool,
    pub search_enabled: bool,
    pub unwrap_tracking: bool,
}

impl EnvOverrides {
    /// No toggle overridden: with no variables set, every toggle is editable.
    pub fn none() -> (r: EnvOverrides)
        ensures
            !r.copy_on_select && !r.force_osc52 && !r.search_enabled && !r.unwrap_tracking,
    {
        EnvOverrides {
            copy_on_select: false,
            force_osc52: false,
            search_enabled: false,
            unwrap_tracking: false,
        }
    }
}

impl Default for EnvOverrides {
    fn default() -> (r: EnvOverrides)
        ensures
            !r.copy_on_select && !r.force_osc52 && !r.search_enabled && !r.unwrap_tracking,
    {
        EnvOverrides::none()
    }
}

/// Runtime settings for the terminal adapter, resolved once at startup.
///
/// `copy_on_select` gates the copy-on-release behavior; `force_osc52` routes every clipboard
/// write through the OSC 52 escape path; `search_enabled` gates the `/search` command;
/// `unwrap_tracking` gates tracking-redirect unwrapping; `env_overridden` records which
/// toggles a `PUMA_*` environment variable fixes for the session.
#[derive(Debug, Clone, Copy, PartialEq, Eq, Structural)]
pub struct TerminalSettings {
    pub copy_on_select: bool,
    pub force_osc52: bool,
    pub search_enabled: bool,
    pub unwrap_tracking: bool,
    pub env_overridden: EnvOverrides,
}

/// Whether navigation unwraps tracking redirects to their destination before loading.
#[derive(Debug, Clone, Copy, PartialEq, Eq, Structural)]
pub enum TrackingUnwrap {
    Enabled,
    Disabled,
}

impl TerminalSettings {
    /// The tracking-unwrap mode every navigation is classified with, derived from the
    /// `unwrap_tracking` setting so every path uses the same one.
    pub fn tracking_unwrap_mode(&self) -> (r: TrackingUnwrap)
        ensures
            r == (if self.unwrap_tracking {
                TrackingUnwrap::Enabled
            } else {
                TrackingUnwrap::Disabled
            }),
    {
        if self.unwrap_tracking {
            TrackingUnwrap::Enabled
        } else {
            TrackingUnwrap::Disabled
        }
    }
}

/// How cookies of one party are handled.
#[derive(Debug, Clone, Copy, PartialEq, Eq, Structural)]
pub enum CookiePolicy {
    Allow,
    Session,
    Ask,
    Reject,
}

/// The global cookie policy for first-party and third-party cookies.
#[derive(Debug, Clone, Copy, PartialEq, Eq, Structural)]
pub struct CookiePolicyPair {
    pub first_party: CookiePolicy,
    pub third_party: CookiePolicy,
}

/// Which party a cookie policy row governs.
#[derive(Debug, Clone, Copy, PartialEq, Eq, Structural)]
pub enum CookieScope {
    FirstParty,
    ThirdParty,
}

/// The configured search engine: the base URL a query is sent to and the name of the query
/// parameter that carries it.
#[derive(Debug)]
pub struct SearchEngine {
    pub base_url: String,
    pub query_parameter: String,
}

/// Stable identity of a panel-controlled setting. Each variant names one row and maps to one
/// config-store key.
#[derive(Debug, Clone, Copy, PartialEq, Eq, Structural)]
pub enum SettingId {
    CookiesFirstParty,
    CookiesThirdParty,
    CopyOnSelect,
    ForceOsc52,
    SearchEnabled,
    UnwrapTracking,
    SearchBaseUrl,
    SearchQueryParameter,
}

/// Which way a radio group's selection moves.
#[derive(Debug, Clone, Copy, PartialEq, Eq, Structural)]
pub enum CycleDirection {
    Prev,
    Next,
}

/// One option within a radio control: the value word shown and persisted, and whether it is
/// the option currently in effect.
#[derive(Debug)]
pub struct RadioOption {
    pub label: String,
    pub selected: bool,
}

/// The control a settings row presents, carrying its current value.
#[derive(Debug)]
pub enum SettingsControl {
    Checkbox { checked: bool },
    Radio { options: Vec<RadioOption> },
    TextInput { value: String },
}

/// One setting shown in the panel: a stable identity, a human label, its control with the
/// current value, and whether a `PUMA_*` environment variable currently fixes it.
#[derive(Debug)]
pub struct SettingsRow {
    pub id: SettingId,
    pub label: String,
    pub control: SettingsControl,
    pub env_overridden: bool,
}

/// A titled group of rows.
#[derive(Debug)]
pub struct SettingsSection {
    pub title: String,
    pub rows: Vec<SettingsRow>,
}

/// The whole panel: every section in display order.
#[derive(Debug)]
pub struct SettingsModel {
    pub sections: Vec<SettingsSection>,
}

/// Every row of `sections`, in display order.
pub open spec fn rows_of(sections: Seq<SettingsSection>) -> Seq<SettingsRow>
    decreases sections.len(),
{
    if sections.len() == 0 {
        Seq::empty()
    } else {
        rows_of(sections.drop_last()) + sections.last().rows@
    }
}

/// The rows of the first `k` sections are the start of all the rows.
pub proof fn lemma_rows_prefix(ss: Seq<SettingsSection>, k: int)
    requires
        0 <= k <= ss.len(),
    ensures
        rows_of(ss.take(k)).len() <= rows_of(ss).len(),
        forall|i: int|
            0 <= i < rows_of(ss.take(k)).len() ==> rows_of(ss)[i] == #[trigger] rows_of(
                ss.take(k),
            )[i],
        k < ss.len() ==> rows_of(ss.take(k + 1)) == rows_of(ss.take(k)) + ss[k].rows@,
    decreases ss.len(),
{
    if k < ss.len() {
        assert(ss.take(k + 1).drop_last() =~= ss.take(k));
        if k + 1 == ss.len() {
            assert(ss.take(k + 1) =~= ss);
        }
        lemma_rows_prefix(ss.drop_last(), k);
        assert(ss.drop_last().take(k) =~= ss.take(k));
    } else {
        assert(ss.take(k) =~= ss);
    }
}

/// Replacing one row of one section replaces the matching row of the flat list.
pub proof fn lemma_rows_update(ss: Seq<SettingsSection>, s: int, j: int, section: SettingsSection, row: SettingsRow)
    requires
        0 <= s < ss.len(),
        0 <= j < ss[s].rows@.len(),
        section.rows@ == ss[s].rows@.update(j, row),
    ensures
        rows_of(ss.update(s, section)) == rows_of(ss).update(rows_of(ss.take(s)).len() + j, row),
    decreases ss.len(),
{
    if s == ss.len() - 1 {
        assert(ss.update(s, section).drop_last() =~= ss.drop_last());
        assert(ss.take(s) =~= ss.drop_last());
        assert(rows_of(ss.update(s, section)) =~= rows_of(ss).update(
            rows_of(ss.take(s)).len() + j,
            row,
        ));
    } else {
        lemma_rows_update(ss.drop_last(), s, j, section, row);
        assert(ss.update(s, section).drop_last() =~= ss.drop_last().update(s, section));
        assert(ss.drop_last().take(s) =~= ss.take(s));
        lemma_rows_prefix(ss.drop_last(), s);
        lemma_rows_prefix(ss.drop_last(), s + 1);
        assert(ss.update(s, section).last() == ss.last());
        assert(rows_of(ss.update(s, section)) == rows_of(ss.drop_last().update(s, section))
            + ss.last().rows@);
        assert(rows_of(ss.update(s, section)) =~= rows_of(ss).update(
            rows_of(ss.take(s)).len() + j,
            row,
        ));
    }
}

impl SettingsModel {
    /// Every row of the panel in display order, across sections.
    pub open spec fn flat_rows(&self) -> Seq<SettingsRow> {
        rows_of(self.sections@)
    }

    /// The total number of rows across all sections, so focus can wrap over a flat index.
    pub fn row_count(&self) -> (r: usize)
        requires
            self.flat_rows().len() <= usize::MAX,
        ensures
            r == self.flat_rows().len(),
    {
        let mut total: usize = 0;
        let mut s: usize = 0;
        while s < self.sections.len()
            invariant
                s <= self.sections@.len(),
                total == rows_of(self.sections@.take(s as int)).len(),
                rows_of(self.sections@).len() <= usize::MAX,
            decreases self.sections@.len() - s,
        {
            proof {
                lemma_rows_prefix(self.sections@, s as int);
                lemma_rows_prefix(self.sections@, s + 1);
            }
            total = total + self.sections[s].rows.len();
            s = s + 1;
        }
        proof {
            assert(self.sections@.take(self.sections@.len() as int) =~= self.sections@);
        }
        total
    }

    /// The section and in-section position of flat row `index`, or `None` past the last row.
    fn locate(&self, index: usize) -> (r: Option<(usize, usize)>)
        ensures
            match r {
                Some((s, j)) => {
                    &&& s < self.sections@.len()
                    &&& j < self.sections@[s as int].rows@.len()
                    &&& index < self.flat_rows().len()
                    &&& index == rows_of(self.sections@.take(s as int)).len() + j
                    &&& self.flat_rows()[index as int] == self.sections@[s as int].rows@[j as int]
                },
                None => index >= self.flat_rows().len(),
            },
    {
        let mut offset: usize = 0;
        let mut s: usize = 0;
        while s < self.sections.len()
            invariant
                s <= self.sections@.len(),
                offset == rows_of(self.sections@.take(s as int)).len(),
                index >= offset,
            decreases self.sections@.len() - s,
        {
            proof {
                lemma_rows_prefix(self.sections@, s as int);
                lemma_rows_prefix(self.sections@, s + 1);
            }
            let len = self.sections[s].rows.len();
            if index - offset < len {
                proof {
                    let prefix = rows_of(self.sections@.take(s + 1));
                    assert(prefix[index as int] == self.sections@[s as int].rows@[(index
                        - offset) as int]);
                }
                return Some((s, index - offset));
            }
            offset = offset + len;
            s = s + 1;
        }
        proof {
            assert(self.sections@.take(self.sections@.len() as int) =~= self.sections@);
        }
        None
    }

    /// The row at flat index `index`, or `None` past the last row.
    pub fn row_at(&self, index: usize) -> (r: Option<&SettingsRow>)
        ensures
            match r {
                Some(row) => index < self.flat_rows().len() && *row == self.flat_rows()[index as int],
                None => index >= self.flat_rows().len(),
            },
    {
        match self.locate(index) {
            Some((s, j)) => Some(&self.sections[s].rows[j]),
            None => None,
        }
    }

    /// Replaces the control of flat row `index`, keeping its identity, label, and override flag.
    fn set_row_control(&mut self, index: usize, control: SettingsControl)
        requires
            index < old(self).flat_rows().len(),
        ensures
            final(self).sections@.len() == old(self).sections@.len(),
            final(self).flat_rows().len() == old(self).flat_rows().len(),
            forall|i: int|
                0 <= i < old(self).flat_rows().len() && i != index ==> final(self).flat_rows()[i]
                    == old(self).flat_rows()[i],
            final(self).flat_rows()[index as int].id == old(self).flat_rows()[index as int].id,
            final(self).flat_rows()[index as int].label == old(self).flat_rows()[index as int].label,
            final(self).flat_rows()[index as int].env_overridden == old(self).flat_rows()[index as int].env_overridden,
            final(self).flat_rows()[index as int].control == control,
    {
        let located = self.locate(index);
        let (s, j) = match located {
            Some(pair) => pair,
            None => return,
        };
        let ghost old_sections = self.sections@;
        let mut section = self.sections.remove(s);
        let mut row = section.rows.remove(j);
        let ghost old_rows = old_sections[s as int].rows@;
        row.control = control;
        let ghost new_row = row;
        section.rows.insert(j, row);
        proof {
            assert(section.rows@ =~= old_rows.update(j as int, new_row));
        }
        let ghost new_section = section;
        self.sections.insert(s, section);
        proof {
            assert(self.sections@ =~= old_sections.update(s as int, new_section));
            lemma_rows_update(old_sections, s as int, j as int, new_section, new_row);
        }
    }

    /// Flips the checkbox at flat row `index` and returns its identity and new state, or `None`
    /// when there is no such row or it is not a checkbox.
    pub fn toggle_checkbox(&mut self, index: usize) -> (r: Option<(SettingId, bool)>)
        ensures
            final(self).sections@.len() == old(self).sections@.len(),
            match r {
                Some((id, checked)) => {
                    &&& index < old(self).flat_rows().len()
                    &&& old(self).flat_rows()[index as int].control == (SettingsControl::Checkbox {
                        checked: !checked,
                    })
                    &&& id == old(self).flat_rows()[index as int].id
                    &&& final(self).flat_rows() == old(self).flat_rows().update(
                        index as int,
                        SettingsRow {
                            control: SettingsControl::Checkbox { checked },
                            ..old(self).flat_rows()[index as int]
                        },
                    )
                },
                None => {
                    &&& *final(self) == *old(self)
                    &&& index < old(self).flat_rows().len() ==> !(old(self).flat_rows()[index as int].control is Checkbox)
                },
            },
    {
        let (id, checked) = match self.row_at(index) {
            Some(row) => match &row.control {
                SettingsControl::Checkbox { checked } => (row.id, *checked),
                _ => return None,
            },
            None => return None,
        };
        let ghost before = self.flat_rows();
        self.set_row_control(index, SettingsControl::Checkbox { checked: !checked });
        proof {
            assert(self.flat_rows() =~= before.update(
                index as int,
                SettingsRow {
                    control: SettingsControl::Checkbox { checked: !checked },
                    ..before[index as int]
                },
            ));
        }
        Some((id, !checked))
    }
}

/// The cookie policy a radio option position stands for, in display order.
pub open spec fn policy_at(i: int) -> CookiePolicy {
    if i == 0 {
        CookiePolicy::Allow
    } else if i == 1 {
        CookiePolicy::Session
    } else if i == 2 {
        CookiePolicy::Ask
    } else {
        CookiePolicy::Reject
    }
}

/// The value word shown and persisted for each policy.
pub open spec fn policy_word(p: CookiePolicy) -> Seq<char> {
    match p {
        CookiePolicy::Allow => "allow"@,
        CookiePolicy::Session => "session"@,
        CookiePolicy::Ask => "ask"@,
        CookiePolicy::Reject => "reject"@,
    }
}

fn policy_option(i: usize) -> (r: (&'static str, CookiePolicy))
    requires
        i < 4,
    ensures
        r.1 == policy_at(i as int),
        r.0@ == policy_word(r.1),
{
    match i {
        0 => ("allow", CookiePolicy::Allow),
        1 => ("session", CookiePolicy::Session),
        2 => ("ask", CookiePolicy::Ask),
        _ => ("reject", CookiePolicy::Reject),
    }
}

/// Whether `options` is the four policy options in display order with exactly the option
/// for `policy` selected.
pub open spec fn radio_options_for(options: Seq<RadioOption>, policy: CookiePolicy) -> bool {
    &&& options.len() == 4
    &&& forall|i: int|
        0 <= i < 4 ==> (#[trigger] options[i]).label@ == policy_word(policy_at(i))
            && options[i].selected == (policy_at(i) == policy)
}

/// The options of a radio row for `policy`, the option matching it selected.
fn policy_options(policy: CookiePolicy) -> (r: Vec<RadioOption>)
    ensures
        radio_options_for(r@, policy),
{
    let mut options: Vec<RadioOption> = Vec::new();
    let mut i: usize = 0;
    while i < 4
        invariant
            i <= 4,
            options@.len() == i,
            forall|k: int|
                0 <= k < i ==> (#[trigger] options@[k]).label@ == policy_word(policy_at(k))
                    && options@[k].selected == (policy_at(k) == policy),
        decreases 4 - i,
    {
        let (word, option_policy) = policy_option(i);
        options.push(RadioOption { label: owned(word), selected: option_policy == policy });
        i = i + 1;
    }
    options
}

/// The position of the first selected option, if any.
pub open spec fn first_selected(options: Seq<RadioOption>) -> Option<int>
    decreases options.len(),
{
    if options.len() == 0 {
        None
    } else if options[0].selected {
        Some(0)
    } else {
        match first_selected(options.drop_first()) {
            Some(i) => Some(i + 1),
            None => None,
        }
    }
}

/// The option position a cycle lands on among `n` options: one step from the selected
/// option with wrap-around, or the first (next) or last (previous) when none is selected.
pub open spec fn cycled_position(selected: Option<int>, n: int, direction: CycleDirection) -> int {
    match direction {
        CycleDirection::Next => match selected {
            Some(i) => (i + 1) % n,
            None => 0,
        },
        CycleDirection::Prev => match selected {
            Some(i) => if i == 0 {
                n - 1
            } else {
                i - 1
            },
            None => n - 1,
        },
    }
}

/// Cycling among `n` options stays among them and steps one option at a time: `Next` from
/// any option but the last lands on the one after it and `Prev` from any but the first on
/// the one before it, wrapping at the ends, so a step either way is undone by a step the
/// other way.
pub proof fn lemma_cycling_steps_one_option(i: int, n: int)
    requires
        0 <= i < n,
    ensures
        0 <= cycled_position(Some(i), n, CycleDirection::Next) < n,
        0 <= cycled_position(Some(i), n, CycleDirection::Prev) < n,
        i + 1 < n ==> cycled_position(Some(i), n, CycleDirection::Next) == i + 1,
        i + 1 == n ==> cycled_position(Some(i), n, CycleDirection::Next) == 0,
        i > 0 ==> cycled_position(Some(i), n, CycleDirection::Prev) == i - 1,
        i == 0 ==> cycled_position(Some(i), n, CycleDirection::Prev) == n - 1,
        cycled_position(Some(cycled_position(Some(i), n, CycleDirection::Prev)), n, CycleDirection::Next) == i,
        cycled_position(Some(cycled_position(Some(i), n, CycleDirection::Next)), n, CycleDirection::Prev) == i,
{
    if i + 1 < n {
        assert((i + 1) % n == i + 1) by (nonlinear_arith)
            requires
                0 <= i + 1 < n,
        ;
    } else {
        assert((i + 1) % n == 0) by (nonlinear_arith)
            requires
                i + 1 == n,
                n > 0,
        ;
    }
    if i > 0 {
        assert(i % n == i) by (nonlinear_arith)
            requires
                0 <= i < n,
        ;
    } else {
        assert((n - 1 + 1) % n == 0) by (nonlinear_arith)
            requires
                n > 0,
        ;
    }
}

proof fn lemma_first_selected_bound(options: Seq<RadioOption>)
    ensures
        first_selected(options) matches Some(i) ==> 0 <= i < options.len() && options[i].selected,
        first_selected(options) is None ==> forall|k: int| 0 <= k < options.len() ==> !(#[trigger] options[k]).selected,
    decreases options.len(),
{
    if options.len() > 0 {
        lemma_first_selected_bound(options.drop_first());
        assert forall|k: int| 0 < k < options.len() implies options[k] == options.drop_first()[k - 1] by {}
    }
}

fn first_selected_index(options: &Vec<RadioOption>) -> (r: Option<usize>)
    ensures
        match r {
            Some(i) => first_selected(options@) == Some(i as int),
            None => first_selected(options@) is None,
        },
{
    let mut i: usize = 0;
    proof {
        assert(options@.skip(0) =~= options@);
    }
    while i < options.len()
        invariant
            i <= options@.len(),
            first_selected(options@) == match first_selected(options@.skip(i as int)) {
                Some(k) => Some(k + i),
                None => None,
            },
        decreases options@.len() - i,
    {
        proof {
            assert(options@.skip(i as int)[0] == options@[i as int]);
            assert(options@.skip(i as int).drop_first() =~= options@.skip(i + 1));
        }
        if options[i].selected {
            return Some(i);
        }
        i = i + 1;
    }
    None
}

/// Whether flat row `index` of `rows` is a radio group of the four policy options, the rows
/// `cycle_radio` can move.
pub open spec fn is_policy_radio(rows: Seq<SettingsRow>, index: int) -> bool {
    &&& 0 <= index < rows.len()
    &&& rows[index].control matches SettingsControl::Radio { options }
    &&& options@.len() == 4
}

impl SettingsModel {
    /// Moves the selection of the radio group at flat row `index` one option in `direction`,
    /// wrapping at either end, and returns its identity and the newly selected policy. `None`
    /// when there is no such row or it is not a radio group of the four policy options.
    pub fn cycle_radio(&mut self, index: usize, direction: CycleDirection) -> (r: Option<
        (SettingId, CookiePolicy),
    >)
        ensures
            final(self).sections@.len() == old(self).sections@.len(),
            r is Some <==> is_policy_radio(old(self).flat_rows(), index as int),
            match r {
                Some((id, policy)) => {
                    &&& index < old(self).flat_rows().len()
                    &&& old(self).flat_rows()[index as int].control matches SettingsControl::Radio {
                        options,
                    } && options@.len() == 4 && policy == policy_at(
                        cycled_position(first_selected(options@), 4, direction),
                    )
                    &&& id == old(self).flat_rows()[index as int].id
                    &&& final(self).flat_rows().len() == old(self).flat_rows().len()
                    &&& forall|i: int|
                        0 <= i < old(self).flat_rows().len() && i != index
                            ==> final(self).flat_rows()[i] == old(self).flat_rows()[i]
                    &&& final(self).flat_rows()[index as int].id == id
                    &&& final(self).flat_rows()[index as int].control matches SettingsControl::Radio {
                        options,
                    } && radio_options_for(options@, policy)
                },
                None => *final(self) == *old(self),
            },
    {
        let (id, position) = match self.row_at(index) {
            Some(row) => match &row.control {
                SettingsControl::Radio { options } => {
                    if options.len() != 4 {
                        return None;
                    }
                    let selected = first_selected_index(options);
                    proof {
                        lemma_first_selected_bound(options@);
                    }
                    let position: usize = match direction {
                        CycleDirection::Next => match selected {
                            Some(i) => (i + 1) % 4,
                            None => 0,
                        },
                        CycleDirection::Prev => match selected {
                            Some(i) => if i == 0 {
                                3
                            } else {
                                i - 1
                            },
                            None => 3,
                        },
                    };
                    (row.id, position)
                },
                _ => return None,
            },
            None => return None,
        };
        let (_word, policy) = policy_option(position);
        let options = policy_options(policy);
        self.set_row_control(index, SettingsControl::Radio { options });
        Some((id, policy))
    }
}

/// A radio row marking the option matching `policy` as selected. Cookie policy has no
/// environment override, so the row is always editable.
pub fn radio_row(id: SettingId, label: &str, policy: CookiePolicy) -> (r: SettingsRow)
    ensures
        r.id == id,
        r.label@ == label@,
        r.control matches SettingsControl::Radio { options } && radio_options_for(options@, policy),
        !r.env_overridden,
{
    SettingsRow {
        id,
        label: owned(label),
        control: SettingsControl::Radio { options: policy_options(policy) },
        env_overridden: false,
    }
}

/// A checkbox row seeded with its current value and environment-override flag.
pub fn checkbox_row(id: SettingId, label: &str, checked: bool, env_overridden: bool) -> (r:
    SettingsRow)
    ensures
        r.id == id,
        r.label@ == label@,
        r.control == (SettingsControl::Checkbox { checked }),
        r.env_overridden == env_overridden,
{
    SettingsRow {
        id,
        label: owned(label),
        control: SettingsControl::Checkbox { checked },
        env_overridden,
    }
}

/// A text-input row seeded with its current value. Text settings have no environment override.
pub fn text_row(id: SettingId, label: &str, value: &str) -> (r: SettingsRow)
    ensures
        r.id == id,
        r.label@ == label@,
        r.control matches SettingsControl::TextInput { value: v } && v@ == value@,
        !r.env_overridden,
{
    SettingsRow {
        id,
        label: owned(label),
        control: SettingsControl::TextInput { value: owned(value) },
        env_overridden: false,
    }
}

/// The config-store key a checkbox row writes, or `None` for a radio or text row.
pub fn checkbox_config_key(id: SettingId) -> (r: Option<&'static str>)
    ensures
        match id {
            SettingId::CopyOnSelect => r matches Some(k) && k@ == "ui.copy_on_select"@,
            SettingId::ForceOsc52 => r matches Some(k) && k@ == "ui.force_osc52"@,
            SettingId::SearchEnabled => r matches Some(k) && k@ == "search.enabled"@,
            SettingId::UnwrapTracking => r matches Some(k) && k@ == "network.unwrap_tracking"@,
            _ => r is None,
        },
{
    match id {
        SettingId::CopyOnSelect => Some("ui.copy_on_select"),
        SettingId::ForceOsc52 => Some("ui.force_osc52"),
        SettingId::SearchEnabled => Some("search.enabled"),
        SettingId::UnwrapTracking => Some("network.unwrap_tracking"),
        _ => None,
    }
}

/// The cookie party a radio row governs, or `None` for any other row.
pub fn cookie_scope(id: SettingId) -> (r: Option<CookieScope>)
    ensures
        r == match id {
            SettingId::CookiesFirstParty => Some(CookieScope::FirstParty),
            SettingId::CookiesThirdParty => Some(CookieScope::ThirdParty),
            _ => None,
        },
{
    match id {
        SettingId::CookiesFirstParty => Some(CookieScope::FirstParty),
        SettingId::CookiesThirdParty => Some(CookieScope::ThirdParty),
        _ => None,
    }
}

/// The id of `row` when it is a text input, or `None` for a checkbox or radio.
pub fn text_field_id(row: &SettingsRow) -> (r: Option<SettingId>)
    ensures
        r == (if row.control is TextInput {
            Some(row.id)
        } else {
            None
        }),
{
    match &row.control {
        SettingsControl::TextInput { .. } => Some(row.id),
        _ => None,
    }
}

/// The confirmation phrase for a per-site policy exception.
pub fn policy_confirmation(policy: CookiePolicy) -> (r: &'static str)
    ensures
        r@ == match policy {
            CookiePolicy::Session => "session cookies allowed"@,
            CookiePolicy::Reject => "cookies rejected"@,
            CookiePolicy::Allow => "cookies allowed"@,
            CookiePolicy::Ask => "cookies set to ask"@,
        },
{
    match policy {
        CookiePolicy::Session => "session cookies allowed",
        CookiePolicy::Reject => "cookies rejected",
        CookiePolicy::Allow => "cookies allowed",
        CookiePolicy::Ask => "cookies set to ask",
    }
}


/// Whether `row` is the checkbox row `id` labelled `label` with the given state.
pub open spec fn is_checkbox_row(row: SettingsRow, id: SettingId, label: Seq<char>, checked: bool, env: bool) -> bool {
    row.id == id && row.label@ == label && row.control == (SettingsControl::Checkbox { checked })
        && row.env_overridden == env
}

/// Whether `row` is the radio row `id` labelled `label` for `policy`.
pub open spec fn is_radio_row(row: SettingsRow, id: SettingId, label: Seq<char>, policy: CookiePolicy) -> bool {
    &&& row.id == id
    &&& row.label@ == label
    &&& !row.env_overridden
    &&& row.control matches SettingsControl::Radio { options } && radio_options_for(options@, policy)
}

/// Whether `row` is the text row `id` labelled `label` holding `value`.
pub open spec fn is_text_row(row: SettingsRow, id: SettingId, label: Seq<char>, value: Seq<char>) -> bool {
    &&& row.id == id
    &&& row.label@ == label
    &&& !row.env_overridden
    &&& row.control matches SettingsControl::TextInput { value: v } && v@ == value
}

/// The panel `build_settings_model` owes: a Cookies section with the two policy radios, an
/// Interface section with the clipboard toggles, a Search section with the search toggle and
/// the engine's two text values, and a Network section with the tracking toggle.
pub open spec fn settings_model_for(
    m: SettingsModel,
    settings: TerminalSettings,
    policy: CookiePolicyPair,
    base_url: Seq<char>,
    query_parameter: Seq<char>,
) -> bool {
    let ss = m.sections@;
    let env = settings.env_overridden;
    &&& ss.len() == 4
    &&& ss[0].title@ == "Cookies"@ && ss[0].rows@.len() == 2
    &&& is_radio_row(ss[0].rows@[0], SettingId::CookiesFirstParty, "First-party policy"@, policy.first_party)
    &&& is_radio_row(ss[0].rows@[1], SettingId::CookiesThirdParty, "Third-party policy"@, policy.third_party)
    &&& ss[1].title@ == "Interface"@ && ss[1].rows@.len() == 2
    &&& is_checkbox_row(ss[1].rows@[0], SettingId::CopyOnSelect, "Copy on select"@, settings.copy_on_select, env.copy_on_select)
    &&& is_checkbox_row(ss[1].rows@[1], SettingId::ForceOsc52, "Force OSC 52 clipboard"@, settings.force_osc52, env.force_osc52)
    &&& ss[2].title@ == "Search"@ && ss[2].rows@.len() == 3
    &&& is_checkbox_row(ss[2].rows@[0], SettingId::SearchEnabled, "Search enabled"@, settings.search_enabled, env.search_enabled)
    &&& is_text_row(ss[2].rows@[1], SettingId::SearchBaseUrl, "Search base URL"@, base_url)
    &&& is_text_row(ss[2].rows@[2], SettingId::SearchQueryParameter, "Query parameter"@, query_parameter)
    &&& ss[3].title@ == "Network"@ && ss[3].rows@.len() == 1
    &&& is_checkbox_row(ss[3].rows@[0], SettingId::UnwrapTracking, "Unwrap tracking redirects"@, settings.unwrap_tracking, env.unwrap_tracking)
}

proof fn lemma_four_sections_rows(ss: Seq<SettingsSection>)
    requires
        ss.len() == 4,
    ensures
        rows_of(ss) == ss[0].rows@ + ss[1].rows@ + ss[2].rows@ + ss[3].rows@,
{
    let d1 = ss.drop_last();
    let d2 = d1.drop_last();
    let d3 = d2.drop_last();
    let d4 = d3.drop_last();
    assert(d4.len() == 0);
    assert(rows_of(d4) =~= Seq::<SettingsRow>::empty());
    assert(d3.last() == ss[0]);
    assert(d2.last() == ss[1]);
    assert(d1.last() == ss[2]);
    assert(rows_of(d3) =~= ss[0].rows@);
    assert(rows_of(d2) =~= ss[0].rows@ + ss[1].rows@);
    assert(rows_of(d1) =~= ss[0].rows@ + ss[1].rows@ + ss[2].rows@);
}

/// Builds the panel model from the terminal settings, the global cookie policy, and the
/// configured search engine. Every value is a local, browser-owned string; no remote
/// content reaches the model.
pub fn build_settings_model(
    settings: &TerminalSettings,
    cookie_policy: CookiePolicyPair,
    search_engine: &SearchEngine,
) -> (r: SettingsModel)
    ensures
        settings_model_for(r, *settings, cookie_policy, search_engine.base_url@, search_engine.query_parameter@),
        r.flat_rows().len() == 8,
{
    let mut cookie_rows: Vec<SettingsRow> = Vec::new();
    cookie_rows.push(radio_row(SettingId::CookiesFirstParty, "First-party policy", cookie_policy.first_party));
    cookie_rows.push(radio_row(SettingId::CookiesThirdParty, "Third-party policy", cookie_policy.third_party));
    let cookies = SettingsSection { title: owned("Cookies"), rows: cookie_rows };
    let mut interface_rows: Vec<SettingsRow> = Vec::new();
    interface_rows.push(checkbox_row(
        SettingId::CopyOnSelect,
        "Copy on select",
        settings.copy_on_select,
        settings.env_overridden.copy_on_select,
    ));
    interface_rows.push(checkbox_row(
        SettingId::ForceOsc52,
        "Force OSC 52 clipboard",
        settings.force_osc52,
        settings.env_overridden.force_osc52,
    ));
    let interface = SettingsSection { title: owned("Interface"), rows: interface_rows };
    let mut search_rows: Vec<SettingsRow> = Vec::new();
    search_rows.push(checkbox_row(
        SettingId::SearchEnabled,
        "Search enabled",
        settings.search_enabled,
        settings.env_overridden.search_enabled,
    ));
    search_rows.push(text_row(SettingId::SearchBaseUrl, "Search base URL", search_engine.base_url.as_str()));
    search_rows.push(text_row(
        SettingId::SearchQueryParameter,
        "Query parameter",
        search_engine.query_parameter.as_str(),
    ));
    let search = SettingsSection { title: owned("Search"), rows: search_rows };
    let mut network_rows: Vec<SettingsRow> = Vec::new();
    network_rows.push(checkbox_row(
        SettingId::UnwrapTracking,
        "Unwrap tracking redirects",
        settings.unwrap_tracking,
        settings.env_overridden.unwrap_tracking,
    ));
    let network = SettingsSection { title: owned("Network"), rows: network_rows };
    let mut sections: Vec<SettingsSection> = Vec::new();
    sections.push(cookies);
    sections.push(interface);
    sections.push(search);
    sections.push(network);
    let model = SettingsModel { sections };
    proof {
        lemma_four_sections_rows(model.sections@);
    }
    model
}

/// The position of the first row carrying `id`.
pub open spec fn first_row_with(rows: Seq<SettingsRow>, id: SettingId) -> Option<int>
    decreases rows.len(),
{
    if rows.len() == 0 {
        None
    } else if rows[0].id == id {
        Some(0)
    } else {
        match first_row_with(rows.drop_first(), id) {
            Some(i) => Some(i + 1),
            None => None,
        }
    }
}

pub proof fn lemma_first_row_with_bound(rows: Seq<SettingsRow>, id: SettingId)
    ensures
        first_row_with(rows, id) matches Some(i) ==> 0 <= i < rows.len() && rows[i].id == id,
    decreases rows.len(),
{
    if rows.len() > 0 {
        lemma_first_row_with_bound(rows.drop_first(), id);
    }
}

/// The value of the text row carrying `id`, when the first row with that id is a text input.
pub open spec fn text_value_of(rows: Seq<SettingsRow>, id: SettingId) -> Option<Seq<char>> {
    match first_row_with(rows, id) {
        Some(i) => match rows[i].control {
            SettingsControl::TextInput { value } => Some(value@),
            _ => None,
        },
        None => None,
    }
}

/// `after` is `before` with the text row `id` showing `value`: the first row carrying `id`
/// keeps its identity, label, and override flag and holds `value`, and every other row is
/// unchanged. When that row is missing or not a text input, `after` is `before`.
pub open spec fn with_text_value(before: Seq<SettingsRow>, after: Seq<SettingsRow>, id: SettingId, value: Seq<char>) -> bool {
    match first_row_with(before, id) {
        Some(i) => if before[i].control is TextInput {
            &&& after.len() == before.len()
            &&& forall|k: int| 0 <= k < before.len() && k != i ==> after[k] == before[k]
            &&& after[i].id == before[i].id
            &&& after[i].label == before[i].label
            &&& after[i].env_overridden == before[i].env_overridden
            &&& after[i].control matches SettingsControl::TextInput { value: v } && v@ == value
        } else {
            after == before
        },
        None => after == before,
    }
}

impl SettingsModel {
    /// The flat index of the first row carrying `id`.
    fn find_row(&self, id: SettingId) -> (r: Option<usize>)
        requires
            self.flat_rows().len() <= usize::MAX,
        ensures
            match r {
                Some(i) => first_row_with(self.flat_rows(), id) == Some(i as int),
                None => first_row_with(self.flat_rows(), id) is None,
            },
    {
        let ghost rows = self.flat_rows();
        let mut i: usize = 0;
        proof {
            assert(rows.skip(0) =~= rows);
        }
        loop
            invariant
                rows == self.flat_rows(),
                rows.len() <= usize::MAX,
                i <= rows.len(),
                first_row_with(rows, id) == match first_row_with(rows.skip(i as int), id) {
                    Some(k) => Some(k + i),
                    None => None,
                },
            decreases rows.len() - i,
        {
            match self.row_at(i) {
                None => {
                    proof {
                        assert(rows.skip(i as int).len() == 0);
                    }
                    return None;
                },
                Some(row) => {
                    proof {
                        assert(rows.skip(i as int)[0] == rows[i as int]);
                        assert(rows.skip(i as int).drop_first() =~= rows.skip(i + 1));
                    }
                    if row.id == id {
                        return Some(i);
                    }
                },
            }
            i = i + 1;
        }
    }

    /// The value the text row `id` currently shows, or `None` when that row is not a text input.
    pub fn text_value(&self, id: SettingId) -> (r: Option<&str>)
        requires
            self.flat_rows().len() <= usize::MAX,
        ensures
            match r {
                Some(v) => text_value_of(self.flat_rows(), id) == Some(v@),
                None => text_value_of(self.flat_rows(), id) is None,
            },
    {
        let index = match self.find_row(id) {
            Some(i) => i,
            None => return None,
        };
        proof {
            lemma_first_row_with_bound(self.flat_rows(), id);
        }
        match self.row_at(index) {
            Some(row) => match &row.control {
                SettingsControl::TextInput { value } => Some(value.as_str()),
                _ => None,
            },
            None => None,
        }
    }

    /// Replaces the value the text row `id` shows; a no-op when that row is not a text input.
    pub fn set_text_value(&mut self, id: SettingId, value: &str)
        requires
            old(self).flat_rows().len() <= usize::MAX,
        ensures
            final(self).sections@.len() == old(self).sections@.len(),
            with_text_value(old(self).flat_rows(), final(self).flat_rows(), id, value@),
            text_value_of(old(self).flat_rows(), id) is None ==> *final(self) == *old(self),
    {
        let index = match self.find_row(id) {
            Some(i) => i,
            None => return,
        };
        proof {
            lemma_first_row_with_bound(self.flat_rows(), id);
        }
        let is_text = match self.row_at(index) {
            Some(row) => match &row.control {
                SettingsControl::TextInput { .. } => true,
                _ => false,
            },
            None => false,
        };
        if !is_text {
            return;
        }
        let ghost before = self.flat_rows();
        self.set_row_control(index, SettingsControl::TextInput { value: owned(value) });
        proof {
            let after = self.flat_rows();
            assert forall|k: int| 0 <= k < index implies after[k].id != id by {
                lemma_first_row_is_first(before, id, k);
            }
            lemma_first_row_with_same_ids(before, after, id);
        }
    }
}

proof fn lemma_first_row_is_first(rows: Seq<SettingsRow>, id: SettingId, k: int)
    requires
        first_row_with(rows, id) matches Some(i) && 0 <= k < i,
    ensures
        rows[k].id != id,
    decreases rows.len(),
{
    lemma_first_row_with_bound(rows, id);
    if rows.len() > 0 && rows[0].id != id && k > 0 {
        lemma_first_row_is_first(rows.drop_first(), id, k - 1);
        assert(rows[k] == rows.drop_first()[k - 1]);
    }
}

/// Two row lists whose rows carry the same ids, position by position, have the same first row
/// for every id.
pub proof fn lemma_first_row_with_same_ids(a: Seq<SettingsRow>, b: Seq<SettingsRow>, id: SettingId)
    requires
        a.len() == b.len(),
        forall|k: int| 0 <= k < a.len() ==> (#[trigger] a[k]).id == b[k].id,
    ensures
        first_row_with(a, id) == first_row_with(b, id),
    decreases a.len(),
{
    if a.len() > 0 {
        assert(a[0].id == b[0].id);
        lemma_first_row_with_same_ids(a.drop_first(), b.drop_first(), id);
    }
}

/// One radio option as the panel shows it: a filled or empty bullet, then its word.
pub open spec fn radio_option_text(option: RadioOption) -> Seq<char> {
    (if option.selected {
        "(•) "@
    } else {
        "( ) "@
    }) + option.label@
}

/// A radio control's options on one line, separated by two spaces.
pub open spec fn radio_options_text(options: Seq<RadioOption>) -> Seq<char>
    decreases options.len(),
{
    if options.len() == 0 {
        Seq::empty()
    } else if options.len() == 1 {
        radio_option_text(options[0])
    } else {
        radio_options_text(options.drop_last()) + "  "@ + radio_option_text(options.last())
    }
}

/// Joins a radio control's options into one line, marking the selected option with a filled
/// bullet and the rest with an empty one.
pub fn compose_radio_options(options: &[RadioOption]) -> (r: String)
    ensures
        r@ == radio_options_text(options@),
{
    let mut line = String::new();
    let mut i: usize = 0;
    while i < options.len()
        invariant
            i <= options@.len(),
            options@.len() == options.len(),
            line@ == radio_options_text(options@.take(i as int)),
        decreases options.len() - i,
    {
        proof {
            assert(options@.take(i + 1).drop_last() =~= options@.take(i as int));
        }
        if i > 0 {
            push_str(&mut line, "  ");
        }
        if options[i].selected {
            push_str(&mut line, "(•) ");
        } else {
            push_str(&mut line, "( ) ");
        }
        push_str(&mut line, options[i].label.as_str());
        proof {
            if i == 0 {
                assert(line@ =~= radio_option_text(options@[0]));
            }
        }
        i = i + 1;
    }
    proof {
        assert(options@.take(options@.len() as int) =~= options@);
    }
    line
}

/// The label-and-value text of a row: a checkbox marker and label, a radio label and its
/// options, or a text label and its value (the draft in place of the value when one is given),
/// control-stripped.
pub open spec fn settings_row_text(row: SettingsRow, draft: Option<Seq<char>>) -> Seq<char> {
    match row.control {
        SettingsControl::Checkbox { checked } => (if checked {
            "[x]"@
        } else {
            "[ ]"@
        }) + " "@ + row.label@,
        SettingsControl::Radio { options } => row.label@ + ":  "@ + radio_options_text(options@),
        SettingsControl::TextInput { value } => row.label@ + ":  "@ + strip_control_spec(
            match draft {
                Some(d) => d,
                None => value@,
            },
        ),
    }
}

/// The label-and-value text for a row, without indentation or styling. Text-input values are
/// control-stripped at this render boundary as a defensive measure.
pub fn compose_settings_row_text(row: &SettingsRow, draft: Option<&str>) -> (r: String)
    ensures
        r@ == settings_row_text(
            *row,
            match draft {
                Some(d) => Some(d@),
                None => None,
            },
        ),
{
    match &row.control {
        SettingsControl::Checkbox { checked } => {
            let mut text = if *checked {
                owned("[x]")
            } else {
                owned("[ ]")
            };
            push_str(&mut text, " ");
            push_str(&mut text, row.label.as_str());
            text
        },
        SettingsControl::Radio { options } => {
            let mut text = owned(row.label.as_str());
            push_str(&mut text, ":  ");
            let joined = compose_radio_options(options.as_slice());
            push_str(&mut text, joined.as_str());
            text
        },
        SettingsControl::TextInput { value } => {
            let shown = match draft {
                Some(d) => d,
                None => value.as_str(),
            };
            let mut text = owned(row.label.as_str());
            push_str(&mut text, ":  ");
            let stripped = strip_control(shown);
            push_str(&mut text, stripped.as_str());
            text
        },
    }
}

/// The screen line a focused flat row renders on: a heading line, then per section a blank
/// line, a title line, and one line per row.
pub open spec fn focused_line(ss: Seq<SettingsSection>, focus: int) -> Option<int>
    decreases ss.len(),
{
    if ss.len() == 0 {
        None
    } else if focus < ss[0].rows@.len() {
        Some(3 + focus)
    } else {
        match focused_line(ss.drop_first(), focus - ss[0].rows@.len()) {
            Some(line) => Some(line + 2 + ss[0].rows@.len()),
            None => None,
        }
    }
}

/// The number of rows in the first `k` sections.
pub open spec fn rows_before(ss: Seq<SettingsSection>, k: int) -> int {
    rows_of(ss.take(k)).len() as int
}

/// The screen line of a flat row in closed form: row `f` of section `k` renders on line
/// `1 + 2 * (k + 1) + f` (the heading, then a blank and a title line per section up to its
/// own), and a row past the last has no line.
pub proof fn lemma_focused_line_closed_form(ss: Seq<SettingsSection>, f: int)
    requires
        0 <= f,
    ensures
        focused_line(ss, f) is None <==> f >= rows_of(ss).len(),
        forall|k: int|
            0 <= k < ss.len() && rows_before(ss, k) <= f < #[trigger] rows_before(ss, k + 1)
                ==> focused_line(ss, f) == Some(1 + 2 * (k + 1) + f),
    decreases ss.len(),
{
    if ss.len() > 0 {
        let n0 = ss[0].rows@.len() as int;
        let rest = ss.drop_first();
        lemma_rows_of_first(ss);
        if f >= n0 {
            lemma_focused_line_closed_form(rest, f - n0);
        }
        assert forall|k: int|
            0 <= k < ss.len() && rows_before(ss, k) <= f < #[trigger] rows_before(ss, k + 1)
                implies focused_line(ss, f) == Some(1 + 2 * (k + 1) + f) by {
            if k == 0 {
                assert(ss.take(0) =~= Seq::<SettingsSection>::empty());
                assert(ss.take(1).drop_last() =~= Seq::<SettingsSection>::empty());
                assert(ss.take(1).last() == ss[0]);
            } else {
                lemma_rows_of_first(ss.take(k));
                lemma_rows_of_first(ss.take(k + 1));
                assert(ss.take(k).drop_first() =~= rest.take(k - 1));
                assert(ss.take(k + 1).drop_first() =~= rest.take(k));
                assert(ss.take(k)[0] == ss[0]);
                assert(ss.take(k + 1)[0] == ss[0]);
                assert(rows_before(rest, k - 1) <= f - n0 < rows_before(rest, k));
            }
        }
    }
}

/// The screen line index the focused row renders on, matching the line order of the panel:
/// a heading line, then for each section a blank line, a title line, and one line per row.
/// `None` when `focus` is past the last row.
pub fn focused_row_line_index(model: &SettingsModel, focus: usize) -> (r: Option<usize>)
    requires
        2 * model.sections@.len() + model.flat_rows().len() + 1 <= usize::MAX,
    ensures
        match r {
            Some(line) => focused_line(model.sections@, focus as int) == Some(line as int),
            None => focused_line(model.sections@, focus as int) is None,
        },
{
    let ghost ss = model.sections@;
    let mut line_index: usize = 1;
    let mut row_index: usize = 0;
    let mut s: usize = 0;
    proof {
        assert(ss.skip(0) =~= ss);
        lemma_rows_prefix(ss, 0);
    }
    while s < model.sections.len()
        invariant
            ss == model.sections@,
            2 * ss.len() + rows_of(ss).len() + 1 <= usize::MAX,
            s <= ss.len(),
            row_index == rows_of(ss.take(s as int)).len(),
            line_index == 1 + 2 * s + row_index,
            row_index <= focus,
            focused_line(ss, focus as int) == match focused_line(ss.skip(s as int), focus - row_index) {
                Some(line) => Some(line + line_index - 1),
                None => None,
            },
        decreases ss.len() - s,
    {
        proof {
            lemma_rows_prefix(ss, s as int);
            lemma_rows_prefix(ss, s + 1);
            assert(ss.skip(s as int)[0] == ss[s as int]);
            assert(ss.skip(s as int).drop_first() =~= ss.skip(s + 1));
        }
        line_index = line_index + 2;
        let rows_here = model.sections[s].rows.len();
        if focus - row_index < rows_here {
            return Some(line_index + (focus - row_index));
        }
        line_index = line_index + rows_here;
        row_index = row_index + rows_here;
        s = s + 1;
    }
    proof {
        assert(ss.skip(s as int).len() == 0);
    }
    None
}

/// A submit-confirmation choice line: the highlighted choice is marked with `>`.
pub fn confirmation_choice_line(label: &str, is_highlighted: bool) -> (r: String)
    ensures
        r@ == (if is_highlighted {
            "> "@
        } else {
            "  "@
        }) + label@,
{
    let mut line = if is_highlighted {
        owned("> ")
    } else {
        owned("  ")
    };
    push_str(&mut line, label);
    line
}


/// The panel's top heading.
pub const SETTINGS_HEADING: &'static str = "Settings";

/// The controls legend shown at the foot of the panel.
pub const SETTINGS_CONTROLS_HINT: &'static str = "↑↓ move · Space toggle · ←→ cycle · type to edit · Esc revert/close";

/// One row's full line: indented label and control state, the environment note when the row
/// is fixed, and the inline error after a rejected save.
pub open spec fn row_line_text(row: SettingsRow, draft: Option<Seq<char>>, error: Option<Seq<char>>) -> Seq<char> {
    "  "@ + settings_row_text(row, draft) + (if row.env_overridden {
        " (set by environment)"@
    } else {
        Seq::empty()
    }) + match error {
        Some(message) => "  ⚠ "@ + message,
        None => Seq::empty(),
    }
}

/// Composes one row's line text: an indented label and control state, the draft value when
/// the row is the focused text field, an environment note when the row is fixed, and an
/// inline error after a rejected save.
pub fn settings_row_line_text(row: &SettingsRow, draft: Option<&str>, error: Option<&str>) -> (r: String)
    ensures
        r@ == row_line_text(
            *row,
            match draft {
                Some(d) => Some(d@),
                None => None,
            },
            match error {
                Some(m) => Some(m@),
                None => None,
            },
        ),
{
    let mut text = owned("  ");
    let body = compose_settings_row_text(row, draft);
    push_str(&mut text, body.as_str());
    if row.env_overridden {
        push_str(&mut text, " (set by environment)");
    }
    if let Some(message) = error {
        push_str(&mut text, "  ⚠ ");
        push_str(&mut text, message);
    }
    text
}

/// The draft and error a row shows: only the focused row carries them.
pub open spec fn shown_if(is_focused: bool, value: Option<Seq<char>>) -> Option<Seq<char>> {
    if is_focused {
        value
    } else {
        None
    }
}

/// The lines of one section whose first row is flat row `first`: a blank line, the title,
/// and one line per row.
pub open spec fn section_block(
    section: SettingsSection,
    first: int,
    focus: int,
    draft: Option<Seq<char>>,
    error: Option<Seq<char>>,
) -> Seq<Seq<char>> {
    seq![Seq::<char>::empty(), section.title@] + Seq::new(
        section.rows@.len(),
        |j: int| row_line_text(section.rows@[j], shown_if(first + j == focus, draft), shown_if(first + j == focus, error)),
    )
}

/// The lines of consecutive sections whose first row is flat row `first`.
pub open spec fn section_blocks(
    ss: Seq<SettingsSection>,
    first: int,
    focus: int,
    draft: Option<Seq<char>>,
    error: Option<Seq<char>>,
) -> Seq<Seq<char>>
    decreases ss.len(),
{
    if ss.len() == 0 {
        Seq::empty()
    } else {
        section_block(ss[0], first, focus, draft, error) + section_blocks(
            ss.drop_first(),
            first + ss[0].rows@.len(),
            focus,
            draft,
            error,
        )
    }
}

/// Every line of the panel: the heading, each section's block, a blank line, and the
/// controls hint.
pub open spec fn panel_lines(
    ss: Seq<SettingsSection>,
    focus: int,
    draft: Option<Seq<char>>,
    error: Option<Seq<char>>,
) -> Seq<Seq<char>> {
    seq![SETTINGS_HEADING@] + section_blocks(ss, 0, focus, draft, error) + seq![
        Seq::<char>::empty(),
        SETTINGS_CONTROLS_HINT@,
    ]
}

/// The flat rows of sections are the first section's rows followed by the rest's.
pub proof fn lemma_rows_of_first(ss: Seq<SettingsSection>)
    requires
        ss.len() > 0,
    ensures
        rows_of(ss) == ss[0].rows@ + rows_of(ss.drop_first()),
    decreases ss.len(),
{
    if ss.len() == 1 {
        assert(ss.drop_first() =~= Seq::<SettingsSection>::empty());
        assert(ss.drop_last() =~= Seq::<SettingsSection>::empty());
        assert(rows_of(ss) =~= ss[0].rows@ + rows_of(ss.drop_first()));
    } else {
        lemma_rows_of_first(ss.drop_last());
        assert(ss.drop_last().drop_first() =~= ss.drop_first().drop_last());
        assert(ss.drop_first().last() == ss.last());
        assert(ss.drop_last()[0] == ss[0]);
        assert(rows_of(ss) =~= ss[0].rows@ + rows_of(ss.drop_first()));
    }
}

/// The blocks of a list of sections split into a front part and a back part are the front
/// blocks followed by the back blocks, whose rows are numbered after the front's.
proof fn lemma_blocks_append(
    a: Seq<SettingsSection>,
    b: Seq<SettingsSection>,
    first: int,
    focus: int,
    draft: Option<Seq<char>>,
    error: Option<Seq<char>>,
)
    ensures
        section_blocks(a + b, first, focus, draft, error) == section_blocks(a, first, focus, draft, error)
            + section_blocks(b, first + rows_of(a).len(), focus, draft, error),
    decreases a.len(),
{
    if a.len() == 0 {
        assert(a + b =~= b);
        assert(section_blocks(a + b, first, focus, draft, error) =~= section_blocks(a, first, focus, draft, error)
            + section_blocks(b, first + rows_of(a).len(), focus, draft, error));
    } else {
        lemma_rows_of_first(a);
        assert((a + b).drop_first() =~= a.drop_first() + b);
        assert((a + b)[0] == a[0]);
        lemma_blocks_append(a.drop_first(), b, first + a[0].rows@.len(), focus, draft, error);
        assert(section_blocks(a + b, first, focus, draft, error) =~= section_blocks(a, first, focus, draft, error)
            + section_blocks(b, first + rows_of(a).len(), focus, draft, error));
    }
}

/// The line `focused_row_line_index` names for a focused row is the line the panel draws
/// for that row, carrying the draft and the error.
pub proof fn lemma_focused_line_shows_focused_row(
    ss: Seq<SettingsSection>,
    focus: int,
    draft: Option<Seq<char>>,
    error: Option<Seq<char>>,
)
    requires
        0 <= focus < rows_of(ss).len(),
    ensures
        focused_line(ss, focus) matches Some(k) && 0 <= k < panel_lines(ss, focus, draft, error).len()
            && panel_lines(ss, focus, draft, error)[k] == row_line_text(rows_of(ss)[focus], draft, error),
{
    lemma_block_line(ss, 0, focus, focus, draft, error);
}

proof fn lemma_block_line(
    ss: Seq<SettingsSection>,
    first: int,
    f: int,
    focus: int,
    draft: Option<Seq<char>>,
    error: Option<Seq<char>>,
)
    requires
        0 <= f < rows_of(ss).len(),
        focus == first + f,
    ensures
        focused_line(ss, f) matches Some(k) && 1 <= k <= section_blocks(ss, first, focus, draft, error).len()
            && section_blocks(ss, first, focus, draft, error)[k - 1] == row_line_text(rows_of(ss)[f], draft, error),
    decreases ss.len(),
{
    lemma_rows_of_first(ss);
    let len0 = ss[0].rows@.len() as int;
    let block = section_block(ss[0], first, focus, draft, error);
    let rest = section_blocks(ss.drop_first(), first + len0, focus, draft, error);
    assert(section_blocks(ss, first, focus, draft, error) == block + rest);
    if f < len0 {
        assert(block[2 + f] == row_line_text(ss[0].rows@[f], draft, error));
        assert(rows_of(ss)[f] == ss[0].rows@[f]);
    } else {
        lemma_block_line(ss.drop_first(), first + len0, f - len0, focus, draft, error);
        assert(rows_of(ss)[f] == rows_of(ss.drop_first())[f - len0]);
    }
}

/// The text of every line of the settings panel, top to bottom: the heading, then per
/// section a blank line, its title, and one line per row, then a blank line and the
/// controls hint. Only the focused row shows the draft and the error.
pub fn settings_line_texts(
    model: &SettingsModel,
    focus: usize,
    draft: Option<&str>,
    error: Option<&str>,
) -> (r: Vec<String>)
    requires
        model.flat_rows().len() <= usize::MAX,
    ensures
        r@.map_values(|line: String| line@) == panel_lines(
            model.sections@,
            focus as int,
            match draft {
                Some(d) => Some(d@),
                None => None,
            },
            match error {
                Some(m) => Some(m@),
                None => None,
            },
        ),
{
    let ghost ss = model.sections@;
    let ghost d = match draft {
        Some(x) => Some(x@),
        None => None,
    };
    let ghost e = match error {
        Some(x) => Some(x@),
        None => None,
    };
    let mut lines: Vec<String> = Vec::new();
    lines.push(owned(SETTINGS_HEADING));
    let mut row_index: usize = 0;
    let mut s: usize = 0;
    proof {
        assert(lines@.map_values(|line: String| line@) =~= seq![SETTINGS_HEADING@] + section_blocks(
            ss.take(0),
            0,
            focus as int,
            d,
            e,
        ));
    }
    while s < model.sections.len()
        invariant
            ss == model.sections@,
            rows_of(ss).len() <= usize::MAX,
            s <= ss.len(),
            d == match draft {
                Some(x) => Some(x@),
                None => None,
            },
            e == match error {
                Some(x) => Some(x@),
                None => None,
            },
            row_index == rows_of(ss.take(s as int)).len(),
            lines@.map_values(|line: String| line@) == seq![SETTINGS_HEADING@] + section_blocks(
                ss.take(s as int),
                0,
                focus as int,
                d,
                e,
            ),
        decreases ss.len() - s,
    {
        proof {
            lemma_rows_prefix(ss, s as int);
            lemma_rows_prefix(ss, s + 1);
        }
        let section = &model.sections[s];
        let ghost before = lines@.map_values(|line: String| line@);
        lines.push(String::new());
        lines.push(owned(section.title.as_str()));
        let mut j: usize = 0;
        while j < section.rows.len()
            invariant
                ss == model.sections@,
                s < ss.len(),
                *section == ss[s as int],
                d == match draft {
                    Some(x) => Some(x@),
                    None => None,
                },
                e == match error {
                    Some(x) => Some(x@),
                    None => None,
                },
                rows_of(ss.take(s + 1)).len() <= usize::MAX,
                rows_of(ss.take(s + 1)) == rows_of(ss.take(s as int)) + ss[s as int].rows@,
                row_index == rows_of(ss.take(s as int)).len(),
                j <= section.rows@.len(),
                lines@.map_values(|line: String| line@) == before + section_block(
                    ss[s as int],
                    row_index as int,
                    focus as int,
                    d,
                    e,
                ).take(2 + j),
            decreases section.rows@.len() - j,
        {
            let is_focused = row_index + j == focus;
            let row_draft = if is_focused {
                draft
            } else {
                None
            };
            let row_error = if is_focused {
                error
            } else {
                None
            };
            let ghost prior = lines@.map_values(|line: String| line@);
            let line = settings_row_line_text(&section.rows[j], row_draft, row_error);
            proof {
                let block = section_block(ss[s as int], row_index as int, focus as int, d, e);
                assert(shown_if(row_index + j == focus, d) == match row_draft {
                    Some(x) => Some(x@),
                    None => None,
                });
                assert(shown_if(row_index + j == focus, e) == match row_error {
                    Some(x) => Some(x@),
                    None => None,
                });
                assert(line@ == block[2 + j]);
            }
            lines.push(line);
            proof {
                let block = section_block(ss[s as int], row_index as int, focus as int, d, e);
                assert(block[2 + j] == row_line_text(
                    section.rows@[j as int],
                    shown_if(row_index + j == focus, d),
                    shown_if(row_index + j == focus, e),
                ));
                assert(block.take(2 + j + 1) =~= block.take(2 + j).push(block[2 + j]));
                assert(lines@.map_values(|line: String| line@) =~= prior.push(block[2 + j]));
            }
            j = j + 1;
        }
        proof {
            let block = section_block(ss[s as int], row_index as int, focus as int, d, e);
            assert(block.take(2 + j) =~= block);
            assert(ss.take(s + 1) =~= ss.take(s as int) + seq![ss[s as int]]);
            lemma_blocks_append(ss.take(s as int), seq![ss[s as int]], 0, focus as int, d, e);
            assert(seq![ss[s as int]].drop_first() =~= Seq::<SettingsSection>::empty());
            assert(section_blocks(
                Seq::<SettingsSection>::empty(),
                row_index + ss[s as int].rows@.len(),
                focus as int,
                d,
                e,
            ) =~= Seq::<Seq<char>>::empty());
            assert(section_blocks(seq![ss[s as int]], row_index as int, focus as int, d, e) =~= block);
        }
        row_index = row_index + model.sections[s].rows.len();
        s = s + 1;
        proof {
            assert(lines@.map_values(|line: String| line@) =~= seq![SETTINGS_HEADING@] + section_blocks(
                ss.take(s as int),
                0,
                focus as int,
                d,
                e,
            ));
        }
    }
    lines.push(String::new());
    lines.push(owned(SETTINGS_CONTROLS_HINT));
    proof {
        assert(ss.take(ss.len() as int) =~= ss);
        assert(lines@.map_values(|line: String| line@) =~= panel_lines(ss, focus as int, d, e));
    }
    lines
}


/// The text before a draft cursor at byte `offset`: the whole draft when `offset` is not a
/// character boundary of it.
pub open spec fn text_before_cursor(buffer_bytes: Seq<u8>, offset: int) -> Seq<char> {
    if vstd::utf8::is_char_boundary(buffer_bytes, offset) {
        vstd::utf8::decode_utf8(buffer_bytes.subrange(0, offset))
    } else {
        vstd::utf8::decode_utf8(buffer_bytes)
    }
}

/// `a + b`, saturating at the top of the `u16` range, with `b` first cut to sixteen bits
/// the way a narrowing cast does.
pub open spec fn offset_col(a: u16, b: int) -> u16 {
    crate::viewport::sat_add_u16(a as int, b % 0x10000) as u16
}

/// Where the terminal cursor sits in the focused text field of a panel drawn from `area_x`,
/// `area_y`: after the row's indented `label:` prefix and the draft up to the cursor, on the
/// line the focused row is drawn on. `None` when the focused row is not a text input.
pub open spec fn text_cursor_cell(
    ss: Seq<SettingsSection>,
    focus: int,
    buffer_bytes: Seq<u8>,
    offset: int,
    area_x: u16,
    area_y: u16,
) -> Option<(u16, u16)> {
    if 0 <= focus < rows_of(ss).len() && rows_of(ss)[focus].control is TextInput {
        match focused_line(ss, focus) {
            Some(line) => {
                let prefix = "  "@ + rows_of(ss)[focus].label@ + ":  "@;
                let cols = unicode_str_width(prefix) + unicode_str_width(text_before_cursor(buffer_bytes, offset));
                Some((offset_col(area_x, cols), offset_col(area_y, line)))
            },
            None => None,
        }
    } else {
        None
    }
}

/// The terminal cursor position for the focused text field's draft, or `None` when the
/// focused row is not a text input. The column is the width of the row's label prefix plus
/// the width of the draft up to the cursor; the row is the screen line the focused row
/// renders on.
pub fn settings_text_cursor_position(
    model: &SettingsModel,
    focus: usize,
    buffer: &str,
    cursor_byte_offset: usize,
    area_x: u16,
    area_y: u16,
) -> (r: Option<(u16, u16)>)
    requires
        2 * model.sections@.len() + model.flat_rows().len() + 1 <= usize::MAX,
    ensures
        r == text_cursor_cell(
            model.sections@,
            focus as int,
            buffer.spec_bytes(),
            cursor_byte_offset as int,
            area_x,
            area_y,
        ),
{
    let row = match model.row_at(focus) {
        Some(row) => row,
        None => return None,
    };
    let is_text = match &row.control {
        SettingsControl::TextInput { .. } => true,
        _ => false,
    };
    if !is_text {
        return None;
    }
    let line_index = match focused_row_line_index(model, focus) {
        Some(line) => line,
        None => return None,
    };
    let mut prefix = owned("  ");
    push_str(&mut prefix, row.label.as_str());
    push_str(&mut prefix, ":  ");
    let prefix_cols = str_width(prefix.as_str());
    let before_cursor = if buffer.is_char_boundary(cursor_byte_offset) {
        let (before, _after) = buffer.split_at(cursor_byte_offset);
        proof {
            vstd::utf8::encode_utf8_decode_utf8(before@);
        }
        before
    } else {
        proof {
            vstd::utf8::encode_utf8_decode_utf8(buffer@);
        }
        buffer
    };
    let cursor_cols = str_width(before_cursor);
    let cols: u128 = prefix_cols as u128 + cursor_cols as u128;
    let cursor_x = area_x.saturating_add((cols % 0x10000) as u16);
    let cursor_y = area_y.saturating_add((line_index % 0x10000) as u16);
    proof {
        assert(prefix@ == "  "@ + row.label@ + ":  "@);
    }
    Some((cursor_x, cursor_y))
}

} // verus!
