//! Slash-command registry, ranked palette matcher, and the `/cookies` and `/history`
//! argument parsers.

use vstd::prelude::*;

use crate::text::{
    spec_is_whitespace, chars_of, range_equals, sub_string, trim_range, trim_spec, ws_index, ws_index_in,
    lemma_ws_index_bound,
};

verus! {

/// Stable identity of a palette command. Dispatch matches on this to select a handler;
/// it carries no behavior of its own. The registry holds six commands; `Search`, `History`
/// and `Cookies` name handlers that no registered name or alias resolves to, so a typed
/// `/search`, `/history` or `/cookies` is answered as an unknown command.
#[derive(Debug, Clone, Copy, PartialEq, Eq, Structural)]
pub enum CommandKind {
    Open,
    Search,
    Reload,
    Back,
    History,
    Cookies,
    Help,
    Quit,
    Settings,
}

/// One argument a command declares, named for the palette's argument hint.
#[derive(Debug, Clone, Copy)]
pub struct ArgSpec {
    pub name: &'static str,
}

/// A single command definition. The `name` and every alias are stored without the leading
/// `/`; the palette adds it when rendering.
#[derive(Debug, Clone, Copy)]
pub struct CommandSpec {
    pub name: &'static str,
    pub aliases: &'static [&'static str],
    pub description: &'static str,
    pub args: &'static [ArgSpec],
    pub kind: CommandKind,
}

/// How well a command matched a query. Prefix matches always rank above subsequence
/// matches in the filtered palette.
#[derive(Debug, Clone, Copy, PartialEq, Eq, Structural)]
pub enum MatchRank {
    Prefix,
    Subsequence,
}

/// A command that survived filtering, paired with the rank it matched at.
#[derive(Debug, Clone, Copy)]
pub struct CommandMatch {
    pub spec: CommandSpec,
    pub rank: MatchRank,
}

/// The registered commands, in registry order.
pub open spec fn registry_kinds() -> Seq<CommandKind> {
    seq![
        CommandKind::Open,
        CommandKind::Reload,
        CommandKind::Back,
        CommandKind::Help,
        CommandKind::Quit,
        CommandKind::Settings,
    ]
}

/// The canonical name of each command, without the leading `/`.
pub open spec fn command_name(k: CommandKind) -> Seq<char> {
    match k {
        CommandKind::Open => "open"@,
        CommandKind::Search => "search"@,
        CommandKind::Reload => "reload"@,
        CommandKind::Back => "back"@,
        CommandKind::History => "history"@,
        CommandKind::Cookies => "cookies"@,
        CommandKind::Help => "help"@,
        CommandKind::Quit => "quit"@,
        CommandKind::Settings => "settings"@,
    }
}

/// The aliases of each registered command.
pub open spec fn command_aliases(k: CommandKind) -> Seq<Seq<char>> {
    match k {
        CommandKind::Settings => seq!["config"@],
        _ => seq![],
    }
}

/// The palette description of each registered command.
pub open spec fn command_description(k: CommandKind) -> Seq<char> {
    match k {
        CommandKind::Open => "open a URL in the current tab"@,
        CommandKind::Reload => "reload the current page"@,
        CommandKind::Back => "go back to the previous page"@,
        CommandKind::Help => "list the available commands"@,
        CommandKind::Quit => "exit the browser"@,
        CommandKind::Settings => "open browser settings (coming soon)"@,
        _ => Seq::empty(),
    }
}

/// The argument names each registered command declares.
pub open spec fn command_arg_names(k: CommandKind) -> Seq<Seq<char>> {
    match k {
        CommandKind::Open => seq!["url"@],
        _ => seq![],
    }
}

/// Whether `spec` is the registry entry for command `k`.
pub open spec fn describes(spec: CommandSpec, k: CommandKind) -> bool {
    &&& spec.kind == k
    &&& spec.name@ == command_name(k)
    &&& spec.aliases@.map_values(|a: &str| a@) == command_aliases(k)
    &&& spec.description@ == command_description(k)
    &&& spec.args@.map_values(|a: ArgSpec| a.name@) == command_arg_names(k)
}

fn open_spec() -> (s: CommandSpec)
    ensures
        describes(s, CommandKind::Open),
{
    let args: &'static [ArgSpec] = &[ArgSpec { name: "url" }];
    let aliases: &'static [&'static str] = &[];
    let s = CommandSpec {
        name: "open",
        aliases,
        description: "open a URL in the current tab",
        args,
        kind: CommandKind::Open,
    };
    proof {
        assert(s.aliases@.map_values(|a: &str| a@) =~= command_aliases(CommandKind::Open));
        assert(s.args@.map_values(|a: ArgSpec| a.name@) =~= command_arg_names(CommandKind::Open));
    }
    s
}

fn plain_spec(name: &'static str, description: &'static str, kind: CommandKind) -> (s: CommandSpec)
    requires
        kind != CommandKind::Open,
        kind != CommandKind::Settings,
        name@ == command_name(kind),
        description@ == command_description(kind),
    ensures
        describes(s, kind),
{
    let args: &'static [ArgSpec] = &[];
    let aliases: &'static [&'static str] = &[];
    let s = CommandSpec { name, aliases, description, args, kind };
    proof {
        assert(s.aliases@.map_values(|a: &str| a@) =~= command_aliases(kind));
        assert(s.args@.map_values(|a: ArgSpec| a.name@) =~= command_arg_names(kind));
    }
    s
}

fn settings_spec() -> (s: CommandSpec)
    ensures
        describes(s, CommandKind::Settings),
{
    let args: &'static [ArgSpec] = &[];
    let aliases: &'static [&'static str] = &["config"];
    let s = CommandSpec {
        name: "settings",
        aliases,
        description: "open browser settings (coming soon)",
        args,
        kind: CommandKind::Settings,
    };
    proof {
        assert(s.aliases@.map_values(|a: &str| a@) =~= command_aliases(CommandKind::Settings));
        assert(s.args@.map_values(|a: ArgSpec| a.name@) =~= command_arg_names(
            CommandKind::Settings,
        ));
    }
    s
}

/// Every registered command, in registry order.
pub fn registry() -> (r: Vec<CommandSpec>)
    ensures
        r@.len() == registry_kinds().len(),
        forall|i: int| 0 <= i < r@.len() ==> describes(#[trigger] r@[i], registry_kinds()[i]),
{
    let mut r: Vec<CommandSpec> = Vec::new();
    r.push(open_spec());
    r.push(plain_spec("reload", "reload the current page", CommandKind::Reload));
    r.push(plain_spec("back", "go back to the previous page", CommandKind::Back));
    r.push(plain_spec("help", "list the available commands", CommandKind::Help));
    r.push(plain_spec("quit", "exit the browser", CommandKind::Quit));
    r.push(settings_spec());
    r
}


/// Whether `q` is a prefix of `c` (what `str::starts_with` reports).
pub open spec fn is_prefix(q: Seq<char>, c: Seq<char>) -> bool {
    q.len() <= c.len() && c.take(q.len() as int) == q
}

/// Whether every character of `q` appears in `c` in order, not necessarily adjacent.
pub open spec fn is_subseq(q: Seq<char>, c: Seq<char>) -> bool
    decreases c.len(),
{
    if q.len() == 0 {
        true
    } else if c.len() == 0 {
        false
    } else if q[0] == c[0] {
        is_subseq(q.drop_first(), c.drop_first())
    } else {
        is_subseq(q, c.drop_first())
    }
}

/// The best rank a query reaches against any of `cands`.
pub open spec fn rank_among(cands: Seq<Seq<char>>, q: Seq<char>) -> Option<MatchRank> {
    if exists|i: int| 0 <= i < cands.len() && is_prefix(q, #[trigger] cands[i]) {
        Some(MatchRank::Prefix)
    } else if exists|i: int| 0 <= i < cands.len() && is_subseq(q, #[trigger] cands[i]) {
        Some(MatchRank::Subsequence)
    } else {
        None
    }
}

/// The strings a command answers to: its name, then its aliases.
pub open spec fn candidates(k: CommandKind) -> Seq<Seq<char>> {
    seq![command_name(k)] + command_aliases(k)
}

/// The best rank of command `k` against query `q`.
pub open spec fn command_rank(k: CommandKind, q: Seq<char>) -> Option<MatchRank> {
    rank_among(candidates(k), q)
}

/// The commands of `ks` whose best rank against `q` is `wanted`, in order.
pub open spec fn kinds_ranked(ks: Seq<CommandKind>, q: Seq<char>, wanted: MatchRank) -> Seq<
    CommandKind,
>
    decreases ks.len(),
{
    if ks.len() == 0 {
        ks
    } else {
        let earlier = kinds_ranked(ks.drop_last(), q, wanted);
        if command_rank(ks.last(), q) == Some(wanted) {
            earlier.push(ks.last())
        } else {
            earlier
        }
    }
}

/// The palette list for query `q`: every prefix match in registry order, then every
/// subsequence match in registry order, each command at its best rank.
pub open spec fn filter_spec(q: Seq<char>) -> Seq<(CommandKind, MatchRank)> {
    kinds_ranked(registry_kinds(), q, MatchRank::Prefix).map_values(
        |k: CommandKind| (k, MatchRank::Prefix),
    ) + kinds_ranked(registry_kinds(), q, MatchRank::Subsequence).map_values(
        |k: CommandKind| (k, MatchRank::Subsequence),
    )
}

/// Whether `t` is the name or an alias of command `k`.
pub open spec fn answers_to(k: CommandKind, t: Seq<char>) -> bool {
    command_name(k) == t || command_aliases(k).contains(t)
}

/// The first command of `ks` that answers to `t`.
pub open spec fn first_answering(ks: Seq<CommandKind>, t: Seq<char>) -> Option<CommandKind>
    decreases ks.len(),
{
    if ks.len() == 0 {
        None
    } else if answers_to(ks[0], t) {
        Some(ks[0])
    } else {
        first_answering(ks.drop_first(), t)
    }
}

fn starts_with_chars(c: &Vec<char>, q: &Vec<char>) -> (r: bool)
    ensures
        r == is_prefix(q@, c@),
{
    if q.len() > c.len() {
        return false;
    }
    let mut i: usize = 0;
    while i < q.len()
        invariant
            q.len() <= c.len(),
            i <= q.len(),
            forall|k: int| 0 <= k < i ==> c@[k] == q@[k],
        decreases q.len() - i,
    {
        if c[i] != q[i] {
            proof {
                assert(c@.take(q@.len() as int)[i as int] != q@[i as int]);
            }
            return false;
        }
        i = i + 1;
    }
    proof {
        assert(c@.take(q@.len() as int) =~= q@);
    }
    true
}

fn is_subsequence_chars(q: &Vec<char>, c: &Vec<char>) -> (r: bool)
    ensures
        r == is_subseq(q@, c@),
{
    let mut i: usize = 0;
    let mut j: usize = 0;
    proof {
        assert(q@.skip(0) =~= q@);
        assert(c@.skip(0) =~= c@);
    }
    while i < q.len() && j < c.len()
        invariant
            i <= q.len(),
            j <= c.len(),
            is_subseq(q@, c@) == is_subseq(q@.skip(i as int), c@.skip(j as int)),
        decreases c.len() - j,
    {
        proof {
            assert(q@.skip(i as int)[0] == q@[i as int]);
            assert(c@.skip(j as int)[0] == c@[j as int]);
            assert(c@.skip(j as int).drop_first() =~= c@.skip(j + 1));
            assert(q@.skip(i as int).drop_first() =~= q@.skip(i + 1));
        }
        if q[i] == c[j] {
            i = i + 1;
        }
        j = j + 1;
    }
    proof {
        if i == q.len() {
            assert(q@.skip(i as int).len() == 0);
        } else {
            assert(c@.skip(j as int).len() == 0);
        }
    }
    i == q.len()
}

/// True when every character of `query` appears in `candidate` in order, not necessarily
/// adjacent.
pub fn is_subsequence(query: &str, candidate: &str) -> (r: bool)
    ensures
        r == is_subseq(query@, candidate@),
{
    let q = chars_of(query);
    let c = chars_of(candidate);
    is_subsequence_chars(&q, &c)
}

/// The strings a spec answers to: its name, then its aliases.
pub open spec fn spec_candidates(spec: CommandSpec) -> Seq<Seq<char>> {
    seq![spec.name@] + spec.aliases@.map_values(|a: &str| a@)
}

/// Best rank of a single spec against the query across its name and aliases.
pub fn rank_spec(spec: &CommandSpec, query: &str) -> (r: Option<MatchRank>)
    ensures
        r == rank_among(spec_candidates(*spec), query@),
{
    let ghost cands = spec_candidates(*spec);
    let q = chars_of(query);
    let name = chars_of(spec.name);
    proof {
        assert(cands[0] == spec.name@);
    }
    if starts_with_chars(&name, &q) {
        return Some(MatchRank::Prefix);
    }
    let mut best: Option<MatchRank> = if is_subsequence_chars(&q, &name) {
        Some(MatchRank::Subsequence)
    } else {
        None
    };
    let mut k: usize = 0;
    while k < spec.aliases.len()
        invariant
            cands == spec_candidates(*spec),
            q@ == query@,
            k <= spec.aliases@.len(),
            cands.len() == spec.aliases@.len() + 1,
            forall|m: int| 0 <= m < k + 1 ==> !is_prefix(q@, #[trigger] cands[m]),
            best is None || best == Some(MatchRank::Subsequence),
            best == Some(MatchRank::Subsequence) <==> exists|m: int|
                0 <= m < k + 1 && is_subseq(q@, #[trigger] cands[m]),
        decreases spec.aliases@.len() - k,
    {
        let alias = chars_of(spec.aliases[k]);
        proof {
            assert(cands[k + 1] == spec.aliases@[k as int]@);
        }
        if starts_with_chars(&alias, &q) {
            return Some(MatchRank::Prefix);
        }
        if is_subsequence_chars(&q, &alias) {
            best = Some(MatchRank::Subsequence);
        }
        k = k + 1;
    }
    best
}

proof fn lemma_candidates_of_entry(spec: CommandSpec, k: CommandKind)
    requires
        describes(spec, k),
    ensures
        spec_candidates(spec) == candidates(k),
{
    assert(spec_candidates(spec) =~= candidates(k));
}

/// Gather the registry entries whose best rank equals `wanted`, preserving registry order.
fn collect_by_rank(
    reg: &Vec<CommandSpec>,
    ranked: &Vec<Option<MatchRank>>,
    wanted: MatchRank,
    query: Ghost<Seq<char>>,
) -> (r: Vec<CommandMatch>)
    requires
        reg@.len() == registry_kinds().len(),
        ranked@.len() == registry_kinds().len(),
        forall|i: int| 0 <= i < reg@.len() ==> describes(#[trigger] reg@[i], registry_kinds()[i]),
        forall|i: int|
            0 <= i < ranked@.len() ==> #[trigger] ranked@[i] == command_rank(
                registry_kinds()[i],
                query@,
            ),
    ensures
        r@.len() == kinds_ranked(registry_kinds(), query@, wanted).len(),
        forall|m: int|
            0 <= m < r@.len() ==> describes(
                #[trigger] r@[m].spec,
                kinds_ranked(registry_kinds(), query@, wanted)[m],
            ) && r@[m].rank == wanted,
{
    let mut r: Vec<CommandMatch> = Vec::new();
    let mut i: usize = 0;
    while i < reg.len()
        invariant
            i <= reg@.len(),
            reg@.len() == registry_kinds().len(),
            ranked@.len() == registry_kinds().len(),
            forall|j: int|
                0 <= j < reg@.len() ==> describes(#[trigger] reg@[j], registry_kinds()[j]),
            forall|j: int|
                0 <= j < ranked@.len() ==> #[trigger] ranked@[j] == command_rank(
                    registry_kinds()[j],
                    query@,
                ),
            r@.len() == kinds_ranked(registry_kinds().take(i as int), query@, wanted).len(),
            forall|m: int|
                0 <= m < r@.len() ==> describes(
                    #[trigger] r@[m].spec,
                    kinds_ranked(registry_kinds().take(i as int), query@, wanted)[m],
                ) && r@[m].rank == wanted,
        decreases reg@.len() - i,
    {
        proof {
            assert(registry_kinds().take(i + 1).drop_last() =~= registry_kinds().take(i as int));
            assert(registry_kinds().take(i + 1).last() == registry_kinds()[i as int]);
        }
        let hit = match ranked[i] {
            Some(rank) => rank == wanted,
            None => false,
        };
        if hit {
            r.push(CommandMatch { spec: reg[i], rank: wanted });
        }
        i = i + 1;
    }
    proof {
        assert(registry_kinds().take(reg@.len() as int) =~= registry_kinds());
    }
    r
}

proof fn lemma_empty_query_ranks_prefix(ks: Seq<CommandKind>, q: Seq<char>)
    requires
        q.len() == 0,
    ensures
        kinds_ranked(ks, q, MatchRank::Prefix) == ks,
        kinds_ranked(ks, q, MatchRank::Subsequence).len() == 0,
    decreases ks.len(),
{
    if ks.len() > 0 {
        lemma_empty_query_ranks_prefix(ks.drop_last(), q);
        let k = ks.last();
        assert(candidates(k)[0].take(0) =~= q);
        assert(is_prefix(q, candidates(k)[0]));
        assert(command_rank(k, q) == Some(MatchRank::Prefix));
        assert(ks.drop_last().push(ks.last()) =~= ks);
    }
}

/// Filter the registry against a query (the text after `/`, possibly empty), returning
/// ranked matches. Prefix matches come first in registry order, then subsequence matches
/// in registry order. Each command appears at most once, taking its best rank.
pub fn filter(query: &str) -> (r: Vec<CommandMatch>)
    ensures
        r@.len() == filter_spec(query@).len(),
        forall|i: int|
            0 <= i < r@.len() ==> describes(#[trigger] r@[i].spec, filter_spec(query@)[i].0)
                && r@[i].rank == filter_spec(query@)[i].1,
{
    let reg = registry();
    if query.is_empty() {
        let mut all: Vec<CommandMatch> = Vec::new();
        let mut i: usize = 0;
        proof {
            lemma_empty_query_ranks_prefix(registry_kinds(), query@);
        }
        while i < reg.len()
            invariant
                i <= reg@.len(),
                query@.len() == 0,
                reg@.len() == registry_kinds().len(),
                forall|j: int|
                    0 <= j < reg@.len() ==> describes(#[trigger] reg@[j], registry_kinds()[j]),
                all@.len() == i,
                forall|m: int|
                    0 <= m < i ==> describes(#[trigger] all@[m].spec, registry_kinds()[m])
                        && all@[m].rank == MatchRank::Prefix,
            decreases reg@.len() - i,
        {
            all.push(CommandMatch { spec: reg[i], rank: MatchRank::Prefix });
            i = i + 1;
        }
        proof {
            lemma_empty_query_ranks_prefix(registry_kinds(), query@);
        }
        return all;
    }
    let mut ranked: Vec<Option<MatchRank>> = Vec::new();
    let mut i: usize = 0;
    while i < reg.len()
        invariant
            i <= reg@.len(),
            reg@.len() == registry_kinds().len(),
            forall|j: int| 0 <= j < reg@.len() ==> describes(#[trigger] reg@[j], registry_kinds()[j]),
            ranked@.len() == i,
            forall|j: int|
                0 <= j < i ==> #[trigger] ranked@[j] == command_rank(registry_kinds()[j], query@),
        decreases reg@.len() - i,
    {
        let rank = rank_spec(&reg[i], query);
        proof {
            lemma_candidates_of_entry(reg@[i as int], registry_kinds()[i as int]);
        }
        ranked.push(rank);
        i = i + 1;
    }
    let mut matches = collect_by_rank(&reg, &ranked, MatchRank::Prefix, Ghost(query@));
    let mut rest = collect_by_rank(&reg, &ranked, MatchRank::Subsequence, Ghost(query@));
    let ghost first = matches@;
    matches.append(&mut rest);
    matches
}

/// Resolve a bare command token (no leading `/`) to its spec by exact match on the
/// canonical name or any alias. Case-sensitive.
pub fn resolve(token: &str) -> (r: Option<CommandSpec>)
    ensures
        match r {
            Some(spec) => first_answering(registry_kinds(), token@) == Some(spec.kind)
                && describes(spec, spec.kind),
            None => first_answering(registry_kinds(), token@) is None,
        },
{
    let reg = registry();
    let t = chars_of(token);
    let mut i: usize = 0;
    proof {
        assert(registry_kinds().skip(0) =~= registry_kinds());
        assert(t@.subrange(0, t@.len() as int) =~= t@);
    }
    while i < reg.len()
        invariant
            i <= reg@.len(),
            t@ == token@,
            reg@.len() == registry_kinds().len(),
            forall|j: int| 0 <= j < reg@.len() ==> describes(#[trigger] reg@[j], registry_kinds()[j]),
            first_answering(registry_kinds(), token@) == first_answering(
                registry_kinds().skip(i as int),
                token@,
            ),
        decreases reg@.len() - i,
    {
        let spec = reg[i];
        let ghost k = registry_kinds()[i as int];
        proof {
            assert(registry_kinds().skip(i as int)[0] == k);
            assert(registry_kinds().skip(i as int).drop_first() =~= registry_kinds().skip(i + 1));
            assert(t@.subrange(0, t@.len() as int) =~= t@);
        }
        let mut hit = range_equals(&t, 0, t.len(), spec.name);
        let mut a: usize = 0;
        while a < spec.aliases.len()
            invariant
                t@ == token@,
                describes(spec, k),
                a <= spec.aliases@.len(),
                hit == (command_name(k) == token@ || exists|m: int|
                    0 <= m < a && command_aliases(k)[m] == token@),
            decreases spec.aliases@.len() - a,
        {
            proof {
                assert(t@.subrange(0, t@.len() as int) =~= t@);
                assert(command_aliases(k)[a as int] == spec.aliases@[a as int]@);
            }
            if range_equals(&t, 0, t.len(), spec.aliases[a]) {
                hit = true;
            }
            a = a + 1;
        }
        proof {
            assert(spec.aliases@.len() == command_aliases(k).len());
            if hit {
                if command_name(k) != token@ {
                    let m = choose|m: int| 0 <= m < a && command_aliases(k)[m] == token@;
                    assert(command_aliases(k).contains(token@));
                }
            } else {
                assert(!command_aliases(k).contains(token@));
            }
        }
        if hit {
            return Some(spec);
        }
        i = i + 1;
    }
    None
}


/// The command token and argument remainder of a command-bar buffer: the buffer is
/// trimmed, one leading `/` is dropped, the token runs up to the first whitespace, and the
/// remainder is everything after that whitespace character, trimmed.
pub open spec fn command_parts(b: Seq<char>) -> (Seq<char>, Seq<char>) {
    let t = trim_spec(b);
    let w = if t.len() > 0 && t[0] == '/' {
        t.drop_first()
    } else {
        t
    };
    let i = ws_index(w);
    if i < w.len() {
        (w.take(i as int), trim_spec(w.skip(i + 1 as int)))
    } else {
        (w, Seq::empty())
    }
}

/// Split a command-bar buffer into its command token and argument remainder. The leading
/// `/` is stripped, the token is the run of non-space characters that follows, and the
/// remainder is everything after the first whitespace, trimmed. A buffer of just `/`
/// yields an empty token and empty remainder; the caller treats an empty token as "no
/// command entered" rather than an error.
pub fn parse_command_input<'a>(buffer: &'a str) -> (r: (&'a str, &'a str))
    ensures
        (r.0@, r.1@) == command_parts(buffer@),
{
    let v = chars_of(buffer);
    let (a, b) = trim_range(&v, 0, v.len());
    let p = if a < b && v[a] == '/' {
        a + 1
    } else {
        a
    };
    let i = ws_index_in(&v, p, b);
    proof {
        assert(v@.subrange(0, v@.len() as int) =~= v@);
        let t = trim_spec(buffer@);
        assert(t == v@.subrange(a as int, b as int));
        if a < b {
            assert(t[0] == v@[a as int]);
        }
        if a < b && v@[a as int] == '/' {
            assert(t.drop_first() =~= v@.subrange(p as int, b as int));
        }
        let w = v@.subrange(p as int, b as int);
        lemma_ws_index_bound(w);
        assert(w.take(i as int) =~= v@.subrange(p as int, (p + i) as int));
    }
    if p + i < b {
        let token = buffer.substring_char(p, p + i);
        let (c, d) = trim_range(&v, p + i + 1, b);
        proof {
            let w = v@.subrange(p as int, b as int);
            assert(w.skip(i + 1) =~= v@.subrange(p + i + 1, b as int));
        }
        let remainder = buffer.substring_char(c, d);
        (token, remainder)
    } else {
        let token = buffer.substring_char(p, b);
        let remainder = buffer.substring_char(b, b);
        proof {
            assert(remainder@ =~= Seq::<char>::empty());
        }
        (token, remainder)
    }
}

/// A parsed `/cookies` request. `AllowSession` and `Reject` carry the site the exception
/// applies to; `Usage` marks an argument the parser did not recognize so the caller can
/// show a usage message instead of acting on it.
#[derive(Debug, Clone, PartialEq, Eq)]
pub enum CookiesRequest {
    Summary,
    Accepted,
    Rejected,
    Clear,
    AllowSession(String),
    Reject(String),
    Usage,
}

/// The first word of a trimmed argument and the trimmed text after it.
pub open spec fn word_and_rest(t: Seq<char>) -> (Seq<char>, Seq<char>) {
    let i = ws_index(t);
    if i < t.len() {
        (t.take(i as int), trim_spec(t.skip(i + 1 as int)))
    } else {
        (t, Seq::empty())
    }
}

/// Whether `req` is what `parse_cookies_request` owes for argument `arg`.
pub open spec fn cookies_request_for(arg: Seq<char>, req: CookiesRequest) -> bool {
    let t = trim_spec(arg);
    let (sub, site) = word_and_rest(t);
    if t.len() == 0 {
        req == CookiesRequest::Summary
    } else if sub == "accepted"@ {
        req == CookiesRequest::Accepted
    } else if sub == "rejected"@ {
        req == CookiesRequest::Rejected
    } else if sub == "clear"@ {
        req == CookiesRequest::Clear
    } else if sub == "allow-session"@ && site.len() > 0 {
        req matches CookiesRequest::AllowSession(s) && s@ == site
    } else if sub == "reject"@ && site.len() > 0 {
        req matches CookiesRequest::Reject(s) && s@ == site
    } else {
        req == CookiesRequest::Usage
    }
}

/// Whether `t` opens with the word `w`: `w` is all of `t`, or is followed in `t` by whitespace.
pub open spec fn opens_with_word(t: Seq<char>, w: Seq<char>) -> bool {
    &&& w.len() <= t.len()
    &&& t.take(w.len() as int) == w
    &&& (t.len() == w.len() || spec_is_whitespace(t[w.len() as int]))
}

/// The first word of a text is `w`, for a word without whitespace, exactly when the text
/// opens with `w` followed by whitespace or its end.
pub proof fn lemma_first_word_is_the_opening_word(t: Seq<char>, w: Seq<char>)
    requires
        forall|k: int| 0 <= k < w.len() ==> !spec_is_whitespace(#[trigger] w[k]),
    ensures
        word_and_rest(t).0 == w <==> opens_with_word(t, w),
{
    lemma_ws_index_bound(t);
    let i = ws_index(t) as int;
    assert(word_and_rest(t).0 == t.take(i));
    if word_and_rest(t).0 == w {
        assert(w.len() == i);
    }
    if opens_with_word(t, w) {
        let n = w.len() as int;
        assert forall|k: int| 0 <= k < n implies !spec_is_whitespace(#[trigger] t[k]) by {
            assert(t[k] == t.take(n)[k]);
        }
        if i < n {
            assert(spec_is_whitespace(t[i]));
        }
        if n < i {
            assert(!spec_is_whitespace(t[n]));
        }
        assert(i == n);
    }
}

/// The subcommand word of `/cookies` names the request: the accepted listing exactly when
/// the trimmed argument opens with the word `accepted`, the rejected listing exactly when it
/// opens with `rejected`, and the clear request exactly when it opens with `clear`.
pub proof fn lemma_cookies_subcommand_names_the_request(arg: Seq<char>, req: CookiesRequest)
    requires
        cookies_request_for(arg, req),
    ensures
        req == CookiesRequest::Accepted <==> opens_with_word(trim_spec(arg), "accepted"@),
        req == CookiesRequest::Rejected <==> opens_with_word(trim_spec(arg), "rejected"@),
        req == CookiesRequest::Clear <==> opens_with_word(trim_spec(arg), "clear"@),
        req == CookiesRequest::Summary <==> trim_spec(arg).len() == 0,
        req is AllowSession ==> opens_with_word(trim_spec(arg), "allow-session"@),
        req is Reject ==> opens_with_word(trim_spec(arg), "reject"@),
{
    reveal_strlit("accepted");
    reveal_strlit("rejected");
    reveal_strlit("clear");
    let t = trim_spec(arg);
    lemma_first_word_is_the_opening_word(t, "accepted"@);
    lemma_first_word_is_the_opening_word(t, "rejected"@);
    lemma_first_word_is_the_opening_word(t, "clear"@);
    reveal_strlit("allow-session");
    reveal_strlit("reject");
    lemma_first_word_is_the_opening_word(t, "allow-session"@);
    lemma_first_word_is_the_opening_word(t, "reject"@);
    assert("accepted"@[0] != "rejected"@[0] && "accepted"@.len() != "clear"@.len()
        && "rejected"@.len() != "clear"@.len());
}

/// Splits the trimmed range `v[a..b]` into its first word and the trimmed rest.
fn split_word(v: &Vec<char>, a: usize, b: usize) -> (r: (usize, usize, usize))
    requires
        a <= b <= v.len(),
    ensures
        a <= r.0 <= b,
        r.1 <= r.2 <= b,
        v@.subrange(a as int, r.0 as int) == word_and_rest(v@.subrange(a as int, b as int)).0,
        v@.subrange(r.1 as int, r.2 as int) == word_and_rest(v@.subrange(a as int, b as int)).1,
{
    let i = ws_index_in(v, a, b);
    proof {
        let t = v@.subrange(a as int, b as int);
        lemma_ws_index_bound(t);
        assert(t.take(i as int) =~= v@.subrange(a as int, (a + i) as int));
    }
    if a + i < b {
        let (c, d) = trim_range(v, a + i + 1, b);
        proof {
            let t = v@.subrange(a as int, b as int);
            assert(t.skip(i + 1) =~= v@.subrange(a + i + 1, b as int));
        }
        (a + i, c, d)
    } else {
        proof {
            assert(v@.subrange(b as int, b as int) =~= Seq::<char>::empty());
            assert(v@.subrange(a as int, b as int).take(i as int) =~= v@.subrange(a as int, b as int));
        }
        (b, b, b)
    }
}

/// Parses a `/cookies` argument into a request. An empty argument is the summary; the
/// `accepted`, `rejected`, and `clear` subcommands take no site; `allow-session` and
/// `reject` each require a site and yield `Usage` without one. Any other subcommand is
/// `Usage`, so an unknown word surfaces a usage message rather than a silent no-op.
pub fn parse_cookies_request(remainder: &str) -> (r: CookiesRequest)
    ensures
        cookies_request_for(remainder@, r),
        r == CookiesRequest::Accepted <==> opens_with_word(trim_spec(remainder@), "accepted"@),
        r == CookiesRequest::Rejected <==> opens_with_word(trim_spec(remainder@), "rejected"@),
{
    let r = parse_cookies_word(remainder);
    proof {
        lemma_cookies_subcommand_names_the_request(remainder@, r);
    }
    r
}

/// Reads the subcommand word and site of a `/cookies` argument, as `cookies_request_for`
/// lays out.
fn parse_cookies_word(remainder: &str) -> (r: CookiesRequest)
    ensures
        cookies_request_for(remainder@, r),
{
    let v = chars_of(remainder);
    let (a, b) = trim_range(&v, 0, v.len());
    proof {
        assert(v@.subrange(0, v@.len() as int) =~= v@);
    }
    if a == b {
        return CookiesRequest::Summary;
    }
    let (e, c, d) = split_word(&v, a, b);
    if range_equals(&v, a, e, "accepted") {
        CookiesRequest::Accepted
    } else if range_equals(&v, a, e, "rejected") {
        CookiesRequest::Rejected
    } else if range_equals(&v, a, e, "clear") {
        CookiesRequest::Clear
    } else if range_equals(&v, a, e, "allow-session") && c < d {
        CookiesRequest::AllowSession(sub_string(&v, c, d))
    } else if range_equals(&v, a, e, "reject") && c < d {
        CookiesRequest::Reject(sub_string(&v, c, d))
    } else {
        CookiesRequest::Usage
    }
}

/// A `/history` request parsed from the command buffer.
#[derive(Debug, Clone, PartialEq, Eq)]
pub enum HistoryRequest {
    List,
    Search(String),
    ClearAll,
    ClearSite(String),
}

/// Whether `req` is what `parse_history_request` owes for argument `arg`.
pub open spec fn history_request_for(arg: Seq<char>, req: HistoryRequest) -> bool {
    let t = trim_spec(arg);
    let (first, rest) = word_and_rest(t);
    if t.len() == 0 {
        req == HistoryRequest::List
    } else if first != "clear"@ {
        req matches HistoryRequest::Search(q) && q@ == t
    } else if rest.len() == 0 {
        req == HistoryRequest::ClearAll
    } else {
        req matches HistoryRequest::ClearSite(site) && site@ == rest
    }
}

/// Parses a `/history` argument into a request. An empty argument lists recent history; a
/// leading `clear` token clears all history, or a single host when one follows; anything
/// else is a search query. The whole remainder is the query so a multi-word search works.
pub fn parse_history_request(remainder: &str) -> (r: HistoryRequest)
    ensures
        history_request_for(remainder@, r),
{
    let v = chars_of(remainder);
    let (a, b) = trim_range(&v, 0, v.len());
    proof {
        assert(v@.subrange(0, v@.len() as int) =~= v@);
    }
    if a == b {
        return HistoryRequest::List;
    }
    let (e, c, d) = split_word(&v, a, b);
    if !range_equals(&v, a, e, "clear") {
        return HistoryRequest::Search(sub_string(&v, a, b));
    }
    if c == d {
        return HistoryRequest::ClearAll;
    }
    HistoryRequest::ClearSite(sub_string(&v, c, d))
}


/// No registered command is named with more than eight characters.
pub proof fn lemma_registered_names_are_short(k: CommandKind)
    requires
        registry_kinds().contains(k),
    ensures
        command_name(k).len() <= 8,
{
    reveal_strlit("open");
    reveal_strlit("search");
    reveal_strlit("reload");
    reveal_strlit("back");
    reveal_strlit("history");
    reveal_strlit("cookies");
    reveal_strlit("help");
    reveal_strlit("quit");
    reveal_strlit("settings");
    let ks = registry_kinds();
    let i = choose|i: int| 0 <= i < ks.len() && ks[i] == k;
    assert(ks[i] == k);
}

/// Every command a filtered list names is a registered command.
pub proof fn lemma_ranked_kinds_registered(ks: Seq<CommandKind>, q: Seq<char>, wanted: MatchRank)
    ensures
        forall|i: int|
            0 <= i < kinds_ranked(ks, q, wanted).len() ==> ks.contains(
                #[trigger] kinds_ranked(ks, q, wanted)[i],
            ),
    decreases ks.len(),
{
    if ks.len() > 0 {
        lemma_ranked_kinds_registered(ks.drop_last(), q, wanted);
        let earlier = kinds_ranked(ks.drop_last(), q, wanted);
        assert forall|i: int| 0 <= i < kinds_ranked(ks, q, wanted).len() implies ks.contains(
            #[trigger] kinds_ranked(ks, q, wanted)[i],
        ) by {
            if i < earlier.len() {
                let k = earlier[i];
                assert(ks.drop_last().contains(k));
                let j = choose|j: int| 0 <= j < ks.drop_last().len() && ks.drop_last()[j] == k;
                assert(ks[j] == k);
            } else {
                assert(ks[ks.len() - 1] == ks.last());
            }
        }
    }
}

/// Every entry of the palette list for any query is a registered command.
pub proof fn lemma_filter_kinds_registered(q: Seq<char>)
    ensures
        forall|i: int|
            0 <= i < filter_spec(q).len() ==> registry_kinds().contains(
                #[trigger] filter_spec(q)[i].0,
            ),
{
    lemma_ranked_kinds_registered(registry_kinds(), q, MatchRank::Prefix);
    lemma_ranked_kinds_registered(registry_kinds(), q, MatchRank::Subsequence);
    let a = kinds_ranked(registry_kinds(), q, MatchRank::Prefix);
    let b = kinds_ranked(registry_kinds(), q, MatchRank::Subsequence);
    assert forall|i: int| 0 <= i < filter_spec(q).len() implies registry_kinds().contains(
        #[trigger] filter_spec(q)[i].0,
    ) by {
        if i < a.len() {
            assert(filter_spec(q)[i].0 == a[i]);
        } else {
            assert(filter_spec(q)[i].0 == b[i - a.len()]);
        }
    }
}


/// The commands `kinds_ranked` keeps from `ks` are exactly those of `ks` at rank `wanted`,
/// and none twice when `ks` has none twice.
proof fn lemma_kinds_ranked_exact(ks: Seq<CommandKind>, q: Seq<char>, wanted: MatchRank)
    ensures
        forall|i: int|
            0 <= i < kinds_ranked(ks, q, wanted).len() ==> ks.contains(#[trigger] kinds_ranked(ks, q, wanted)[i])
                && command_rank(kinds_ranked(ks, q, wanted)[i], q) == Some(wanted),
        forall|k: CommandKind|
            ks.contains(k) && command_rank(k, q) == Some(wanted) ==> #[trigger] kinds_ranked(ks, q, wanted).contains(k),
        ks.no_duplicates() ==> kinds_ranked(ks, q, wanted).no_duplicates(),
    decreases ks.len(),
{
    if ks.len() > 0 {
        let front = ks.drop_last();
        lemma_kinds_ranked_exact(front, q, wanted);
        let earlier = kinds_ranked(front, q, wanted);
        let kr = kinds_ranked(ks, q, wanted);
        assert forall|i: int| 0 <= i < kr.len() implies ks.contains(#[trigger] kr[i]) && command_rank(kr[i], q) == Some(wanted) by {
            if i < earlier.len() {
                assert(kr[i] == earlier[i]);
                assert(front.contains(earlier[i]));
                let j = choose|j: int| 0 <= j < front.len() && front[j] == earlier[i];
                assert(ks[j] == earlier[i]);
            } else {
                assert(ks[ks.len() - 1] == ks.last());
            }
        }
        assert forall|k: CommandKind| ks.contains(k) && command_rank(k, q) == Some(wanted) implies #[trigger] kr.contains(k) by {
            let j = choose|j: int| 0 <= j < ks.len() && ks[j] == k;
            if j < ks.len() - 1 {
                assert(front[j] == k);
                assert(front.contains(k));
                assert(earlier.contains(k));
                let m = choose|m: int| 0 <= m < earlier.len() && earlier[m] == k;
                assert(kr[m] == k);
            } else {
                assert(kr[kr.len() - 1] == k);
            }
        }
        if ks.no_duplicates() {
            assert(front.no_duplicates()) by {
                assert forall|a: int, b: int| 0 <= a < front.len() && 0 <= b < front.len() && a != b implies front[a] != front[b] by {
                    assert(front[a] == ks[a] && front[b] == ks[b]);
                }
            }
            if command_rank(ks.last(), q) == Some(wanted) {
                assert(!earlier.contains(ks.last())) by {
                    if earlier.contains(ks.last()) {
                        let m = choose|m: int| 0 <= m < earlier.len() && earlier[m] == ks.last();
                        assert(front.contains(earlier[m]));
                        let j = choose|j: int| 0 <= j < front.len() && front[j] == earlier[m];
                        assert(ks[j] == ks[ks.len() - 1]);
                    }
                }
                assert forall|a: int, b: int| 0 <= a < kr.len() && 0 <= b < kr.len() && a != b implies kr[a] != kr[b] by {
                    if a < earlier.len() && b < earlier.len() {
                        assert(kr[a] == earlier[a] && kr[b] == earlier[b]);
                    } else if a < earlier.len() {
                        assert(kr[a] == earlier[a]);
                    } else if b < earlier.len() {
                        assert(kr[b] == earlier[b]);
                    }
                }
            }
        }
    }
}

/// The palette list for any query ranks every command it lists at that command's best rank,
/// lists every prefix match before any subsequence match, names no command twice, and leaves
/// out no registered command the query reaches.
pub proof fn lemma_palette_is_ranked_and_complete(q: Seq<char>)
    ensures
        forall|i: int| 0 <= i < filter_spec(q).len() ==> command_rank(#[trigger] filter_spec(q)[i].0, q) == Some(filter_spec(q)[i].1),
        forall|i: int, j: int|
            0 <= i < j < filter_spec(q).len() && #[trigger] filter_spec(q)[i].1 == MatchRank::Subsequence
                ==> #[trigger] filter_spec(q)[j].1 == MatchRank::Subsequence,
        forall|i: int, j: int|
            0 <= i < j < filter_spec(q).len() ==> #[trigger] filter_spec(q)[i].0 != #[trigger] filter_spec(q)[j].0,
        forall|k: CommandKind|
            registry_kinds().contains(k) && command_rank(k, q) is Some ==> exists|i: int|
                0 <= i < filter_spec(q).len() && #[trigger] filter_spec(q)[i].0 == k,
{
    let ks = registry_kinds();
    assert(ks.no_duplicates()) by {
        assert forall|a: int, b: int| 0 <= a < ks.len() && 0 <= b < ks.len() && a != b implies ks[a] != ks[b] by {}
    }
    lemma_kinds_ranked_exact(ks, q, MatchRank::Prefix);
    lemma_kinds_ranked_exact(ks, q, MatchRank::Subsequence);
    let a = kinds_ranked(ks, q, MatchRank::Prefix);
    let b = kinds_ranked(ks, q, MatchRank::Subsequence);
    let f = filter_spec(q);
    assert(f.len() == a.len() + b.len());
    assert forall|i: int| 0 <= i < f.len() implies (i < a.len() ==> f[i] == (a[i], MatchRank::Prefix))
        && (i >= a.len() ==> f[i] == (b[i - a.len()], MatchRank::Subsequence)) by {}
    assert forall|i: int| 0 <= i < f.len() implies command_rank(#[trigger] f[i].0, q) == Some(f[i].1) by {
        if i < a.len() {
            assert(f[i] == (a[i], MatchRank::Prefix));
        } else {
            assert(f[i] == (b[i - a.len()], MatchRank::Subsequence));
        }
    }
    assert forall|i: int, j: int|
        0 <= i < j < f.len() && #[trigger] f[i].1 == MatchRank::Subsequence implies #[trigger] f[j].1 == MatchRank::Subsequence by {
        if i < a.len() {
            assert(f[i] == (a[i], MatchRank::Prefix));
        }
        assert(f[j] == (b[j - a.len()], MatchRank::Subsequence));
    }
    assert forall|i: int, j: int| 0 <= i < j < f.len() implies #[trigger] f[i].0 != #[trigger] f[j].0 by {
        if j < a.len() {
            assert(f[i].0 == a[i] && f[j].0 == a[j]);
        } else if i >= a.len() {
            assert(f[i].0 == b[i - a.len()] && f[j].0 == b[j - a.len()]);
        } else {
            assert(f[i].0 == a[i] && f[j].0 == b[j - a.len()]);
            assert(command_rank(a[i], q) == Some(MatchRank::Prefix));
            assert(command_rank(b[j - a.len()], q) == Some(MatchRank::Subsequence));
        }
    }
    assert forall|k: CommandKind| registry_kinds().contains(k) && command_rank(k, q) is Some implies exists|i: int|
        0 <= i < f.len() && #[trigger] f[i].0 == k by {
        if command_rank(k, q) == Some(MatchRank::Prefix) {
            assert(a.contains(k));
            let m = choose|m: int| 0 <= m < a.len() && a[m] == k;
            assert(f[m].0 == k);
        } else {
            assert(command_rank(k, q) == Some(MatchRank::Subsequence));
            assert(b.contains(k));
            let m = choose|m: int| 0 <= m < b.len() && b[m] == k;
            assert(f[a.len() + m].0 == k);
        }
    }
}


/// The first command of `ks` that answers to `t` is found where it stands: some position of
/// `ks` holds it and answers, and no earlier position answers; with no answer anywhere there
/// is none.
proof fn lemma_first_answering_spot(ks: Seq<CommandKind>, t: Seq<char>)
    ensures
        first_answering(ks, t) is None <==> forall|i: int| 0 <= i < ks.len() ==> !answers_to(#[trigger] ks[i], t),
        first_answering(ks, t) matches Some(k) ==> exists|i: int|
            0 <= i < ks.len() && #[trigger] ks[i] == k && answers_to(k, t) && forall|j: int|
                0 <= j < i ==> !answers_to(#[trigger] ks[j], t),
    decreases ks.len(),
{
    if ks.len() > 0 {
        let rest = ks.drop_first();
        lemma_first_answering_spot(rest, t);
        assert forall|i: int| 0 < i < ks.len() implies ks[i] == rest[i - 1] by {}
        if answers_to(ks[0], t) {
            assert(ks[0] == ks[0]);
        } else if first_answering(rest, t) is Some {
            let k = first_answering(rest, t)->0;
            let i = choose|i: int|
                0 <= i < rest.len() && #[trigger] rest[i] == k && answers_to(k, t) && forall|j: int|
                    0 <= j < i ==> !answers_to(#[trigger] rest[j], t);
            assert(ks[i + 1] == k);
            assert forall|j: int| 0 <= j < i + 1 implies !answers_to(#[trigger] ks[j], t) by {
                if j > 0 {
                    assert(ks[j] == rest[j - 1]);
                }
            }
        } else {
            assert forall|i: int| 0 <= i < ks.len() implies !answers_to(#[trigger] ks[i], t) by {
                if i > 0 {
                    assert(ks[i] == rest[i - 1]);
                }
            }
        }
    }
}

/// Resolving a token is an exact, case-sensitive find over the registry: the command
/// resolved is the first registered one whose name or an alias equals the token, and a
/// token no command's name or alias equals resolves to none.
pub proof fn lemma_resolve_finds_first_match(token: Seq<char>)
    ensures
        first_answering(registry_kinds(), token) is None <==> forall|i: int|
            0 <= i < registry_kinds().len() ==> !answers_to(#[trigger] registry_kinds()[i], token),
        first_answering(registry_kinds(), token) matches Some(k) ==> exists|i: int|
            0 <= i < registry_kinds().len() && #[trigger] registry_kinds()[i] == k && answers_to(k, token)
                && forall|j: int| 0 <= j < i ==> !answers_to(#[trigger] registry_kinds()[j], token),
{
    lemma_first_answering_spot(registry_kinds(), token);
}

/// The commands `kinds_ranked` keeps come in the order `ks` lists them.
proof fn lemma_kinds_ranked_in_order(ks: Seq<CommandKind>, q: Seq<char>, wanted: MatchRank)
    ensures
        forall|i: int, j: int|
            #![trigger kinds_ranked(ks, q, wanted)[i], kinds_ranked(ks, q, wanted)[j]]
            0 <= i < j < kinds_ranked(ks, q, wanted).len() ==> exists|a: int, b: int|
                #![trigger ks[a], ks[b]]
                0 <= a < b < ks.len() && ks[a] == kinds_ranked(ks, q, wanted)[i]
                    && ks[b] == kinds_ranked(ks, q, wanted)[j],
    decreases ks.len(),
{
    if ks.len() > 0 {
        let front = ks.drop_last();
        lemma_kinds_ranked_in_order(front, q, wanted);
        lemma_ranked_kinds_registered(front, q, wanted);
        let earlier = kinds_ranked(front, q, wanted);
        let r = kinds_ranked(ks, q, wanted);
        assert forall|i: int, j: int| #![trigger r[i], r[j]] 0 <= i < j < r.len() implies exists|a: int, b: int|
            #![trigger ks[a], ks[b]] 0 <= a < b < ks.len() && ks[a] == r[i] && ks[b] == r[j] by {
            if j < earlier.len() {
                assert(r[i] == earlier[i] && r[j] == earlier[j]);
                let (a, b) = choose|a: int, b: int|
                    #![trigger front[a], front[b]] 0 <= a < b < front.len() && front[a] == earlier[i] && front[b] == earlier[j];
                assert(ks[a] == r[i] && ks[b] == r[j]);
            } else {
                assert(r[j] == ks.last());
                assert(r[i] == earlier[i]);
                assert(front.contains(earlier[i]));
                let a = choose|a: int| 0 <= a < front.len() && front[a] == earlier[i];
                assert(ks[a] == r[i]);
                assert(ks[ks.len() - 1] == r[j]);
            }
        }
    }
}

/// Beyond ranking, the palette list keeps registry order within each rank, and a registered
/// command is absent from it exactly when the query reaches none of its names.
pub proof fn lemma_palette_order_and_absence(q: Seq<char>)
    ensures
        forall|i: int, j: int|
            #![trigger filter_spec(q)[i], filter_spec(q)[j]]
            0 <= i < j < filter_spec(q).len() && filter_spec(q)[i].1 == filter_spec(q)[j].1 ==> exists|a: int, b: int|
                #![trigger registry_kinds()[a], registry_kinds()[b]]
                0 <= a < b < registry_kinds().len() && registry_kinds()[a] == filter_spec(q)[i].0
                    && registry_kinds()[b] == filter_spec(q)[j].0,
        forall|k: CommandKind|
            #[trigger] registry_kinds().contains(k) ==> (command_rank(k, q) is None <==> forall|i: int|
                0 <= i < filter_spec(q).len() ==> filter_spec(q)[i].0 != k),
{
    let ks = registry_kinds();
    lemma_palette_is_ranked_and_complete(q);
    lemma_kinds_ranked_in_order(ks, q, MatchRank::Prefix);
    lemma_kinds_ranked_in_order(ks, q, MatchRank::Subsequence);
    let a = kinds_ranked(ks, q, MatchRank::Prefix);
    let b = kinds_ranked(ks, q, MatchRank::Subsequence);
    let f = filter_spec(q);
    assert forall|i: int| 0 <= i < f.len() implies (i < a.len() ==> f[i] == (a[i], MatchRank::Prefix))
        && (i >= a.len() ==> f[i] == (b[i - a.len()], MatchRank::Subsequence)) by {}
    assert forall|i: int, j: int| #![trigger f[i], f[j]]
        0 <= i < j < f.len() && f[i].1 == f[j].1 implies exists|x: int, y: int|
            #![trigger ks[x], ks[y]] 0 <= x < y < ks.len() && ks[x] == f[i].0 && ks[y] == f[j].0 by {
        if j < a.len() {
            assert(f[i].0 == a[i] && f[j].0 == a[j]);
            let (x, y) = choose|x: int, y: int| #![trigger ks[x], ks[y]] 0 <= x < y < ks.len() && ks[x] == a[i] && ks[y] == a[j];
            assert(ks[x] == f[i].0 && ks[y] == f[j].0);
        } else if i >= a.len() {
            assert(f[i].0 == b[i - a.len()] && f[j].0 == b[j - a.len()]);
            let (x, y) = choose|x: int, y: int|
                #![trigger ks[x], ks[y]] 0 <= x < y < ks.len() && ks[x] == b[i - a.len()] && ks[y] == b[j - a.len()];
            assert(ks[x] == f[i].0 && ks[y] == f[j].0);
        } else {
            assert(f[i].1 == MatchRank::Prefix && f[j].1 == MatchRank::Subsequence);
        }
    }
    assert forall|k: CommandKind| #[trigger] ks.contains(k) implies (command_rank(k, q) is None <==> forall|i: int|
        0 <= i < f.len() ==> f[i].0 != k) by {
        if command_rank(k, q) is None {
            assert forall|i: int| 0 <= i < f.len() implies f[i].0 != k by {
                assert(command_rank(f[i].0, q) == Some(f[i].1));
            }
        }
    }
}


/// `idx` places the characters of `q` at strictly increasing positions of `c`.
pub open spec fn embeds(q: Seq<char>, c: Seq<char>, idx: Seq<int>) -> bool {
    &&& idx.len() == q.len()
    &&& forall|j: int| 0 <= j < q.len() ==> 0 <= #[trigger] idx[j] < c.len() && c[idx[j]] == q[j]
    &&& forall|j: int, k: int| 0 <= j < k < q.len() ==> #[trigger] idx[j] < #[trigger] idx[k]
}

/// A query is a subsequence of a candidate exactly when its characters can be found in the
/// candidate at strictly increasing positions.
pub proof fn lemma_subsequence_is_embedding(q: Seq<char>, c: Seq<char>)
    ensures
        is_subseq(q, c) <==> exists|idx: Seq<int>| #[trigger] embeds(q, c, idx),
    decreases c.len(),
{
    if q.len() == 0 {
        assert(embeds(q, c, Seq::empty()));
    } else if c.len() == 0 {
        assert forall|idx: Seq<int>| !#[trigger] embeds(q, c, idx) by {
            if embeds(q, c, idx) {
                assert(0 <= idx[0] < c.len());
            }
        }
    } else {
        let c1 = c.drop_first();
        if q[0] == c[0] {
            let q1 = q.drop_first();
            lemma_subsequence_is_embedding(q1, c1);
            if is_subseq(q1, c1) {
                let i1 = choose|i1: Seq<int>| #[trigger] embeds(q1, c1, i1);
                let i = seq![0int] + Seq::new(i1.len(), |j: int| i1[j] + 1);
                assert forall|j: int| 0 <= j < q.len() implies 0 <= #[trigger] i[j] < c.len() && c[i[j]] == q[j] by {
                    if j > 0 {
                        assert(i[j] == i1[j - 1] + 1);
                        assert(c[i[j]] == c1[i1[j - 1]]);
                        assert(q[j] == q1[j - 1]);
                    }
                }
                assert forall|j: int, k: int| 0 <= j < k < q.len() implies #[trigger] i[j] < #[trigger] i[k] by {
                    assert(i[k] == i1[k - 1] + 1);
                    if j > 0 {
                        assert(i[j] == i1[j - 1] + 1);
                    } else {
                        assert(0 <= i1[k - 1]);
                    }
                }
                assert(embeds(q, c, i));
            } else {
                assert forall|i: Seq<int>| !#[trigger] embeds(q, c, i) by {
                    if embeds(q, c, i) {
                        let i1 = Seq::new(q1.len(), |j: int| i[j + 1] - 1);
                        assert forall|j: int| 0 <= j < q1.len() implies 0 <= #[trigger] i1[j] < c1.len() && c1[i1[j]] == q1[j] by {
                            assert(i[0] < i[j + 1]);
                            assert(0 <= i[0]);
                        }
                        assert forall|j: int, k: int| 0 <= j < k < q1.len() implies #[trigger] i1[j] < #[trigger] i1[k] by {
                            assert(i[j + 1] < i[k + 1]);
                        }
                        assert(embeds(q1, c1, i1));
                    }
                }
            }
        } else {
            lemma_subsequence_is_embedding(q, c1);
            if is_subseq(q, c1) {
                let i1 = choose|i1: Seq<int>| #[trigger] embeds(q, c1, i1);
                let i = Seq::new(i1.len(), |j: int| i1[j] + 1);
                assert forall|j: int| 0 <= j < q.len() implies 0 <= #[trigger] i[j] < c.len() && c[i[j]] == q[j] by {
                    assert(c[i[j]] == c1[i1[j]]);
                }
                assert forall|j: int, k: int| 0 <= j < k < q.len() implies #[trigger] i[j] < #[trigger] i[k] by {
                    assert(i1[j] < i1[k]);
                }
                assert(embeds(q, c, i));
            } else {
                assert forall|i: Seq<int>| !#[trigger] embeds(q, c, i) by {
                    if embeds(q, c, i) {
                        assert(i[0] != 0);
                        let i1 = Seq::new(q.len(), |j: int| i[j] - 1);
                        assert forall|j: int| 0 <= j < q.len() implies 0 <= #[trigger] i1[j] < c1.len() && c1[i1[j]] == q[j] by {
                            if j > 0 {
                                assert(i[0] < i[j]);
                            }
                            assert(0 <= i[0]);
                        }
                        assert forall|j: int, k: int| 0 <= j < k < q.len() implies #[trigger] i1[j] < #[trigger] i1[k] by {
                            assert(i[j] < i[k]);
                        }
                        assert(embeds(q, c1, i1));
                    }
                }
            }
        }
    }
}

} // verus!
