//! Formats secret-free cookie records into sanitized inspection lines for display.

use vstd::prelude::*;

use crate::text::{
    chars_of, decimal, owned, push_decimal, push_str, strip_control, strip_control_spec,
    trim_range, trim_spec, spec_is_control, lemma_strip_control_has_no_control,
};

verus! {

/// Why the cookie jar refused a cookie.
#[derive(Debug, Clone, Copy, PartialEq, Eq, Structural)]
pub enum RejectionReason {
    Policy,
    ThirdParty,
    Ask,
    PublicSuffix,
    SecureOverInsecure,
    Malformed,
}

/// A cookie's `SameSite` attribute.
#[derive(Debug, Clone, Copy, PartialEq, Eq, Structural)]
pub enum SameSite {
    Strict,
    Lax,
    Unrestricted,
    Unset,
}

/// A secret-free record of one cookie decision: what the jar knows about the cookie apart
/// from its value. `name` and `origin` come from the remote server.
#[derive(Debug)]
pub struct CookieRecord {
    pub name: String,
    pub origin: String,
    pub accepted: bool,
    pub first_party: bool,
    pub reason: Option<RejectionReason>,
    pub has_expiry: bool,
    pub same_site: SameSite,
    pub secure: bool,
    pub http_only: bool,
}

/// Which decision a detail listing shows: the accepted cookies or the rejected ones.
#[derive(Debug, Clone, Copy, PartialEq, Eq, Structural)]
pub enum CookieFilter {
    Accepted,
    Rejected,
}

/// The Secure and HttpOnly flags as a short label.
pub open spec fn flag_text(secure: bool, http_only: bool) -> Seq<char> {
    if secure && http_only {
        "secure httponly"@
    } else if secure {
        "secure"@
    } else if http_only {
        "httponly"@
    } else {
        "no-flags"@
    }
}

/// The display word for a rejection reason.
pub open spec fn reason_text(reason: RejectionReason) -> Seq<char> {
    match reason {
        RejectionReason::Policy => "policy"@,
        RejectionReason::ThirdParty => "third-party policy"@,
        RejectionReason::Ask => "ask: no interactive prompt yet"@,
        RejectionReason::PublicSuffix => "public-suffix domain"@,
        RejectionReason::SecureOverInsecure => "secure cookie over http"@,
        RejectionReason::Malformed => "malformed"@,
    }
}

/// The display word for a SameSite value.
pub open spec fn same_site_text(same_site: SameSite) -> Seq<char> {
    match same_site {
        SameSite::Strict => "strict"@,
        SameSite::Lax => "lax"@,
        SameSite::Unrestricted => "none"@,
        SameSite::Unset => "unset"@,
    }
}

/// The inspection line for one cookie's parts: the sanitized name (or `(unnamed)` when it
/// is blank), the sanitized origin, the party, the reason when rejected, the expiry kind,
/// the SameSite value, and the flags.
pub open spec fn cookie_line_text(
    name: Seq<char>,
    origin: Seq<char>,
    first_party: bool,
    reason: Option<Seq<char>>,
    has_expiry: bool,
    same_site: Seq<char>,
    secure: bool,
    http_only: bool,
) -> Seq<char> {
    let stripped = strip_control_spec(name);
    let name_field = if trim_spec(stripped).len() == 0 {
        "(unnamed)"@
    } else {
        stripped
    };
    let party = if first_party {
        "first-party"@
    } else {
        "third-party"@
    };
    let expiry = if has_expiry {
        "persistent"@
    } else {
        "session"@
    };
    "  "@ + name_field + "  "@ + strip_control_spec(origin) + "  "@ + party + (match reason {
        Some(r) => "  reason="@ + r,
        None => Seq::empty(),
    }) + "  expiry="@ + expiry + "  samesite="@ + same_site + "  "@ + flag_text(secure, http_only)
}

/// The Secure and HttpOnly flags as a short label, so a line always names its flag state
/// rather than leaving the reader to infer it from an absence.
pub fn flag_list(secure: bool, http_only: bool) -> (r: &'static str)
    ensures
        r@ == flag_text(secure, http_only),
{
    match (secure, http_only) {
        (true, true) => "secure httponly",
        (true, false) => "secure",
        (false, true) => "httponly",
        (false, false) => "no-flags",
    }
}

/// A short display word for a rejection reason. Deliberately free of internal variant
/// names so the inspection view carries no crate internals.
pub fn reason_label(reason: RejectionReason) -> (r: &'static str)
    ensures
        r@ == reason_text(reason),
{
    match reason {
        RejectionReason::Policy => "policy",
        RejectionReason::ThirdParty => "third-party policy",
        RejectionReason::Ask => "ask: no interactive prompt yet",
        RejectionReason::PublicSuffix => "public-suffix domain",
        RejectionReason::SecureOverInsecure => "secure cookie over http",
        RejectionReason::Malformed => "malformed",
    }
}

/// A short display word for a SameSite value.
pub fn same_site_label(same_site: SameSite) -> (r: &'static str)
    ensures
        r@ == same_site_text(same_site),
{
    match same_site {
        SameSite::Strict => "strict",
        SameSite::Lax => "lax",
        SameSite::Unrestricted => "none",
        SameSite::Unset => "unset",
    }
}

/// Composes a cookie line from its already-classified parts, stripping control characters
/// from the two remote-derived fields (name and origin) before they enter the line. A
/// present `reason` marks a rejected cookie and is shown; an absent one is an accepted
/// cookie.
pub fn compose_cookie_line(
    name: &str,
    origin: &str,
    first_party: bool,
    reason: Option<&str>,
    has_expiry: bool,
    same_site: &str,
    secure: bool,
    http_only: bool,
) -> (r: String)
    ensures
        r@ == cookie_line_text(
            name@,
            origin@,
            first_party,
            match reason {
                Some(s) => Some(s@),
                None => None,
            },
            has_expiry,
            same_site@,
            secure,
            http_only,
        ),
{
    let sanitized_name = strip_control(name);
    let chars = chars_of(sanitized_name.as_str());
    let (a, b) = trim_range(&chars, 0, chars.len());
    proof {
        assert(chars@.subrange(0, chars@.len() as int) =~= chars@);
    }
    let name_field = if a == b {
        owned("(unnamed)")
    } else {
        sanitized_name
    };
    let origin_field = strip_control(origin);
    let party = if first_party {
        "first-party"
    } else {
        "third-party"
    };
    let expiry = if has_expiry {
        "persistent"
    } else {
        "session"
    };
    let flags = flag_list(secure, http_only);
    let mut line = owned("  ");
    push_str(&mut line, name_field.as_str());
    push_str(&mut line, "  ");
    push_str(&mut line, origin_field.as_str());
    push_str(&mut line, "  ");
    push_str(&mut line, party);
    let ghost before = line@;
    match reason {
        Some(reason) => {
            push_str(&mut line, "  reason=");
            push_str(&mut line, reason);
            proof {
                assert(line@ =~= before + ("  reason="@ + reason@));
            }
        },
        None => {
            proof {
                assert(line@ =~= before + Seq::<char>::empty());
            }
        },
    }
    let ghost middle = line@;
    push_str(&mut line, "  expiry=");
    push_str(&mut line, expiry);
    push_str(&mut line, "  samesite=");
    push_str(&mut line, same_site);
    push_str(&mut line, "  ");
    push_str(&mut line, flags);
    proof {
        let ghost spec_reason = match reason {
            Some(s) => Some(s@),
            None => None,
        };
        assert(line@ =~= cookie_line_text(
            name@,
            origin@,
            first_party,
            spec_reason,
            has_expiry,
            same_site@,
            secure,
            http_only,
        ));
    }
    line
}

/// The inspection line for one record.
pub open spec fn record_line_text(record: CookieRecord) -> Seq<char> {
    cookie_line_text(
        record.name@,
        record.origin@,
        record.first_party,
        match record.reason {
            Some(r) => Some(reason_text(r)),
            None => None,
        },
        record.has_expiry,
        same_site_text(record.same_site),
        record.secure,
        record.http_only,
    )
}

/// Formats one cookie record into a single inspection line, sanitizing the remote-derived
/// name and origin so no control byte from a `Set-Cookie` header can carry an escape
/// sequence into the terminal. The record never holds a cookie value, so none can appear.
pub fn format_cookie_line(record: &CookieRecord) -> (r: String)
    ensures
        r@ == record_line_text(*record),
{
    let reason = match record.reason {
        Some(r) => Some(reason_label(r)),
        None => None,
    };
    compose_cookie_line(
        record.name.as_str(),
        record.origin.as_str(),
        record.first_party,
        reason,
        record.has_expiry,
        same_site_label(record.same_site),
        record.secure,
        record.http_only,
    )
}

/// How many records were accepted.
pub open spec fn accepted_count(records: Seq<CookieRecord>) -> nat
    decreases records.len(),
{
    if records.len() == 0 {
        0
    } else {
        accepted_count(records.drop_last()) + if records.last().accepted {
            1nat
        } else {
            0nat
        }
    }
}

/// How many records were rejected first-party cookies.
pub open spec fn first_party_rejected_count(records: Seq<CookieRecord>) -> nat
    decreases records.len(),
{
    if records.len() == 0 {
        0
    } else {
        first_party_rejected_count(records.drop_last()) + if !records.last().accepted
            && records.last().first_party {
            1nat
        } else {
            0nat
        }
    }
}

proof fn lemma_counts_bounded(records: Seq<CookieRecord>)
    ensures
        accepted_count(records) + first_party_rejected_count(records) <= records.len(),
    decreases records.len(),
{
    if records.len() > 0 {
        lemma_counts_bounded(records.drop_last());
    }
}

/// The summary's counts are the sizes of the record kinds they name: the accepted records,
/// the rejected first-party records, and the rejected third-party records (the rejected
/// ones not counted as first-party).
pub proof fn lemma_summary_counts_the_records(records: Seq<CookieRecord>)
    ensures
        accepted_count(records) == records.filter(|r: CookieRecord| r.accepted).len(),
        first_party_rejected_count(records) == records.filter(
            |r: CookieRecord| !r.accepted && r.first_party,
        ).len(),
        records.len() - accepted_count(records) - first_party_rejected_count(records)
            == records.filter(|r: CookieRecord| !r.accepted && !r.first_party).len(),
    decreases records.len(),
{
    reveal(Seq::filter);
    if records.len() > 0 {
        lemma_summary_counts_the_records(records.drop_last());
    }
}

/// The summary popup lines for `/cookies`: the accepted and rejected totals plus the
/// first-party and third-party split of the rejections. Every line is local text, so no
/// remote-derived string reaches the terminal on this path.
pub fn summary_lines(records: &[CookieRecord]) -> (r: Vec<String>)
    ensures
        r@.map_values(|line: String| line@) == summary_view(records@),
        r@.len() == 6,
        r@[0]@ == "Cookies"@,
        r@[1]@ == "  Accepted: "@ + decimal(accepted_count(records@)),
        r@[2]@ == "  Rejected: "@ + decimal((records@.len() - accepted_count(records@)) as nat),
        r@[3]@ == "  First-party rejected: "@ + decimal(first_party_rejected_count(records@)),
        r@[4]@ == "  Third-party rejected: "@ + decimal(
            (records@.len() - accepted_count(records@) - first_party_rejected_count(
                records@,
            )) as nat,
        ),
        r@[5]@ == "  Esc to close"@,
        r@[1]@ == "  Accepted: "@ + decimal(records@.filter(|c: CookieRecord| c.accepted).len()),
        r@[3]@ == "  First-party rejected: "@ + decimal(
            records@.filter(|c: CookieRecord| !c.accepted && c.first_party).len(),
        ),
        r@[4]@ == "  Third-party rejected: "@ + decimal(
            records@.filter(|c: CookieRecord| !c.accepted && !c.first_party).len(),
        ),
{
    proof {
        lemma_summary_counts_the_records(records@);
    }
    let mut accepted: usize = 0;
    let mut first_party_rejected: usize = 0;
    let mut i: usize = 0;
    while i < records.len()
        invariant
            i <= records@.len(),
            records@.len() == records.len(),
            accepted == accepted_count(records@.take(i as int)),
            first_party_rejected == first_party_rejected_count(records@.take(i as int)),
            accepted + first_party_rejected <= i,
        decreases records.len() - i,
    {
        proof {
            assert(records@.take(i + 1).drop_last() =~= records@.take(i as int));
        }
        if records[i].accepted {
            accepted = accepted + 1;
        } else if records[i].first_party {
            first_party_rejected = first_party_rejected + 1;
        }
        i = i + 1;
    }
    proof {
        assert(records@.take(records@.len() as int) =~= records@);
    }
    let rejected = records.len() - accepted;
    let third_party_rejected = rejected - first_party_rejected;
    let mut lines: Vec<String> = Vec::new();
    lines.push(owned("Cookies"));
    let mut line = owned("  Accepted: ");
    push_decimal(&mut line, accepted as u64);
    lines.push(line);
    let mut line = owned("  Rejected: ");
    push_decimal(&mut line, rejected as u64);
    lines.push(line);
    let mut line = owned("  First-party rejected: ");
    push_decimal(&mut line, first_party_rejected as u64);
    lines.push(line);
    let mut line = owned("  Third-party rejected: ");
    push_decimal(&mut line, third_party_rejected as u64);
    lines.push(line);
    lines.push(owned("  Esc to close"));
    proof {
        assert(lines@.map_values(|line: String| line@) =~= summary_view(records@));
    }
    lines
}

/// The summary popup, line by line.
pub open spec fn summary_view(records: Seq<CookieRecord>) -> Seq<Seq<char>> {
    let accepted = accepted_count(records);
    let first_party = first_party_rejected_count(records);
    seq![
        "Cookies"@,
        "  Accepted: "@ + decimal(accepted),
        "  Rejected: "@ + decimal((records.len() - accepted) as nat),
        "  First-party rejected: "@ + decimal(first_party),
        "  Third-party rejected: "@ + decimal((records.len() - accepted - first_party) as nat),
        "  Esc to close"@,
    ]
}

/// A detail listing popup, line by line: the header with the count, one line per matching
/// record or a `none` line, and the close hint.
pub open spec fn decision_view(records: Seq<CookieRecord>, filter: CookieFilter) -> Seq<Seq<char>> {
    let shown = records_for(records, filter == CookieFilter::Accepted);
    seq![(if filter == CookieFilter::Accepted {
        "Accepted cookies ("@
    } else {
        "Rejected cookies ("@
    }) + decimal(shown.len()) + ")"@] + (if shown.len() == 0 {
        seq!["  none"@]
    } else {
        shown.map_values(|record: CookieRecord| record_line_text(record))
    }) + seq!["  Esc to close"@]
}

/// The records a detail listing shows, in order.
pub open spec fn records_for(records: Seq<CookieRecord>, want_accepted: bool) -> Seq<
    CookieRecord,
>
    decreases records.len(),
{
    if records.len() == 0 {
        records
    } else {
        let earlier = records_for(records.drop_last(), want_accepted);
        if records.last().accepted == want_accepted {
            earlier.push(records.last())
        } else {
            earlier
        }
    }
}

/// The detail popup lines for `/cookies accepted` or `/cookies rejected`: a header with the
/// count, then one sanitized line per matching record, or a `none` line when the filter
/// matches nothing, then the close hint.
pub fn decision_lines(records: &[CookieRecord], filter: CookieFilter) -> (r: Vec<String>)
    ensures
        r@.map_values(|line: String| line@) == decision_view(records@, filter),
        ({
            let shown = records_for(records@, filter == CookieFilter::Accepted);
            let body_len = if shown.len() == 0 {
                1
            } else {
                shown.len() as int
            };
            &&& r@.len() == body_len + 2
            &&& r@[0]@ == (if filter == CookieFilter::Accepted {
                "Accepted cookies ("@
            } else {
                "Rejected cookies ("@
            }) + decimal(shown.len()) + ")"@
            &&& shown.len() == 0 ==> r@[1]@ == "  none"@
            &&& forall|k: int|
                0 <= k < shown.len() ==> (#[trigger] r@[k + 1])@ == record_line_text(shown[k])
            &&& r@[r@.len() - 1]@ == "  Esc to close"@
        }),
{
    let want_accepted = match filter {
        CookieFilter::Accepted => true,
        CookieFilter::Rejected => false,
    };
    let mut cookie_lines: Vec<String> = Vec::new();
    let mut i: usize = 0;
    while i < records.len()
        invariant
            i <= records@.len(),
            records@.len() == records.len(),
            cookie_lines@.len() == records_for(records@.take(i as int), want_accepted).len(),
            forall|k: int|
                0 <= k < cookie_lines@.len() ==> (#[trigger] cookie_lines@[k])@
                    == record_line_text(records_for(records@.take(i as int), want_accepted)[k]),
        decreases records.len() - i,
    {
        proof {
            assert(records@.take(i + 1).drop_last() =~= records@.take(i as int));
            assert(records@.take(i + 1).last() == records@[i as int]);
        }
        if records[i].accepted == want_accepted {
            cookie_lines.push(format_cookie_line(&records[i]));
        }
        i = i + 1;
    }
    proof {
        assert(records@.take(records@.len() as int) =~= records@);
    }
    let mut header = match filter {
        CookieFilter::Accepted => owned("Accepted cookies ("),
        CookieFilter::Rejected => owned("Rejected cookies ("),
    };
    push_decimal(&mut header, cookie_lines.len() as u64);
    push_str(&mut header, ")");
    let mut lines: Vec<String> = Vec::new();
    lines.push(header);
    if cookie_lines.len() == 0 {
        lines.push(owned("  none"));
    } else {
        let ghost body = cookie_lines@;
        lines.append(&mut cookie_lines);
        proof {
            assert forall|k: int| 0 <= k < body.len() implies lines@[k + 1] == body[k] by {}
        }
    }
    lines.push(owned("  Esc to close"));
    proof {
        assert(lines@.map_values(|line: String| line@) =~= decision_view(records@, filter));
    }
    lines
}


/// Whether `s` holds no control character.
pub open spec fn free_of_control(s: Seq<char>) -> bool {
    forall|i: int| 0 <= i < s.len() ==> !spec_is_control(#[trigger] s[i])
}

proof fn lemma_concat_free_of_control(a: Seq<char>, b: Seq<char>)
    requires
        free_of_control(a),
        free_of_control(b),
    ensures
        free_of_control(a + b),
{
    assert forall|i: int| 0 <= i < (a + b).len() implies !spec_is_control(#[trigger] (a + b)[i]) by {
        if i < a.len() {
            assert((a + b)[i] == a[i]);
        } else {
            assert((a + b)[i] == b[i - a.len()]);
        }
    }
}

/// A cookie line carries no control character: the name and origin are control-stripped,
/// and every other piece is a fixed label, the reason label and the SameSite label, which
/// hold none.
pub proof fn lemma_cookie_line_has_no_control(
    name: Seq<char>,
    origin: Seq<char>,
    first_party: bool,
    reason: Option<Seq<char>>,
    has_expiry: bool,
    same_site: Seq<char>,
    secure: bool,
    http_only: bool,
)
    requires
        reason matches Some(r) ==> free_of_control(r),
        free_of_control(same_site),
    ensures
        free_of_control(
            cookie_line_text(name, origin, first_party, reason, has_expiry, same_site, secure, http_only),
        ),
{
    reveal_strlit("  ");
    reveal_strlit("(unnamed)");
    reveal_strlit("first-party");
    reveal_strlit("third-party");
    reveal_strlit("persistent");
    reveal_strlit("session");
    reveal_strlit("  reason=");
    reveal_strlit("  expiry=");
    reveal_strlit("  samesite=");
    reveal_strlit("secure httponly");
    reveal_strlit("secure");
    reveal_strlit("httponly");
    reveal_strlit("no-flags");
    lemma_strip_control_has_no_control(name);
    lemma_strip_control_has_no_control(origin);
    let gap = "  "@;
    let stripped = strip_control_spec(name);
    let name_field = if trim_spec(stripped).len() == 0 {
        "(unnamed)"@
    } else {
        stripped
    };
    let party = if first_party {
        "first-party"@
    } else {
        "third-party"@
    };
    let expiry = if has_expiry {
        "persistent"@
    } else {
        "session"@
    };
    let reason_part = match reason {
        Some(r) => "  reason="@ + r,
        None => Seq::empty(),
    };
    assert(free_of_control(gap));
    assert(free_of_control(name_field));
    assert(free_of_control(strip_control_spec(origin)));
    assert(free_of_control(party));
    assert(free_of_control(expiry));
    assert(free_of_control("  expiry="@));
    assert(free_of_control("  samesite="@));
    assert(free_of_control(flag_text(secure, http_only)));
    if reason is Some {
        assert(free_of_control("  reason="@));
        lemma_concat_free_of_control("  reason="@, reason->0);
    }
    assert(free_of_control(reason_part));
    let mut acc = gap + name_field;
    lemma_concat_free_of_control(gap, name_field);
    lemma_concat_free_of_control(acc, gap);
    acc = acc + gap;
    lemma_concat_free_of_control(acc, strip_control_spec(origin));
    acc = acc + strip_control_spec(origin);
    lemma_concat_free_of_control(acc, gap);
    acc = acc + gap;
    lemma_concat_free_of_control(acc, party);
    acc = acc + party;
    lemma_concat_free_of_control(acc, reason_part);
    acc = acc + reason_part;
    lemma_concat_free_of_control(acc, "  expiry="@);
    acc = acc + "  expiry="@;
    lemma_concat_free_of_control(acc, expiry);
    acc = acc + expiry;
    lemma_concat_free_of_control(acc, "  samesite="@);
    acc = acc + "  samesite="@;
    lemma_concat_free_of_control(acc, same_site);
    acc = acc + same_site;
    lemma_concat_free_of_control(acc, gap);
    acc = acc + gap;
    lemma_concat_free_of_control(acc, flag_text(secure, http_only));
    acc = acc + flag_text(secure, http_only);
    assert(acc == cookie_line_text(name, origin, first_party, reason, has_expiry, same_site, secure, http_only));
}

} // verus!
