//! Resolution of a user-supplied site identifier against the controller's
//! site list.

use vstd::prelude::*;

use crate::error::{CoreError, SiteHint};
use crate::text::{ascii_ci_eq, chars_eq, chars_eq_ignore_ascii_case, chars_of};

verus! {

/// A site as listed by the Integration API. `id` is the site UUID as a
/// 128-bit big-endian number.
#[derive(Debug, Clone)]
pub struct SiteResponse {
    pub id: u128,
    pub internal_reference: String,
    pub name: String,
}

/// A site resolved to its UUID and the slug used in Session API paths.
#[derive(Debug, Clone)]
pub struct ResolvedSite {
    pub id: u128,
    pub slug: String,
}

/// The value of a hexadecimal digit (either case).
pub open spec fn hex_digit_value(c: char) -> Option<nat> {
    if '0' <= c && c <= '9' {
        Some(((c as int) - ('0' as int)) as nat)
    } else if 'a' <= c && c <= 'f' {
        Some(((c as int) - ('a' as int) + 10) as nat)
    } else if 'A' <= c && c <= 'F' {
        Some(((c as int) - ('A' as int) + 10) as nat)
    } else {
        None
    }
}

/// The number that a string of hexadecimal digits writes, most significant
/// digit first; `None` when some character is no hexadecimal digit.
pub open spec fn hex_number(s: Seq<char>) -> Option<nat>
    decreases s.len(),
{
    if s.len() == 0 {
        Some(0)
    } else {
        match (hex_number(s.drop_last()), hex_digit_value(s.last())) {
            (Some(a), Some(d)) => Some(a * 16 + d),
            _ => None,
        }
    }
}

/// The 32 digits of a hyphenated UUID text (`8-4-4-4-12`), hyphens removed.
pub open spec fn hyphenated_digits(s: Seq<char>) -> Option<Seq<char>> {
    if s.len() == 36 && s[8] == '-' && s[13] == '-' && s[18] == '-' && s[23] == '-' {
        Some(s.subrange(0, 8) + s.subrange(9, 13) + s.subrange(14, 18) + s.subrange(19, 23) + s.subrange(24, 36))
    } else {
        None
    }
}

/// The 32 hexadecimal digits of a UUID text in one of the forms that
/// `uuid::Uuid::parse_str` accepts: 32 digits; the hyphenated form; the
/// hyphenated form in braces; or the hyphenated form after `urn:uuid:`
/// (that prefix in either case).
pub open spec fn uuid_digits(s: Seq<char>) -> Option<Seq<char>> {
    if s.len() == 32 {
        Some(s)
    } else if s.len() == 36 {
        hyphenated_digits(s)
    } else if s.len() == 38 && s[0] == '{' && s[37] == '}' {
        hyphenated_digits(s.subrange(1, 37))
    } else if s.len() == 45 && ascii_ci_eq(s.take(9), "urn:uuid:"@) {
        hyphenated_digits(s.skip(9))
    } else {
        None
    }
}

/// The number that `uuid::Uuid::parse_str` reads from `text`, as
/// `Uuid::as_u128` gives it (the 32 digits read as one big-endian
/// number), or `None` when the text is no UUID.
pub open spec fn uuid_text_value(text: Seq<char>) -> Option<u128> {
    match uuid_digits(text) {
        Some(d) => match hex_number(d) {
            Some(n) => Some(n as u128),
            None => None,
        },
        None => None,
    }
}

/// Calls `uuid::Uuid::parse_str` and hands back the parsed UUID as its
/// big-endian `u128`. The contract claims the grammar of `uuid_digits` and
/// the digits' value, as uuid's parser (`try_parse`, `parse_hyphenated`,
/// `decode_hex32`) and `as_u128` compute them.
#[verifier::external_body]
fn parse_uuid(text: &str) -> (r: Option<u128>)
    ensures
        r == uuid_text_value(text@),
{
    match uuid::Uuid::parse_str(text) {
        Ok(id) => Some(id.as_u128()),
        Err(_) => None,
    }
}

/// The match of the third stage: the display name is exactly the input.
pub open spec fn name_match(site: SiteResponse, q: Seq<char>) -> bool {
    site.name@ == q
}

/// The match of the fourth stage: the slug or the display name equals the
/// input up to ASCII case.
pub open spec fn ci_match(site: SiteResponse, q: Seq<char>) -> bool {
    ascii_ci_eq(site.internal_reference@, q) || ascii_ci_eq(site.name@, q)
}

/// The match of the name stage `exact` (third stage when true, fourth when
/// false).
pub open spec fn stage_match(site: SiteResponse, q: Seq<char>, exact: bool) -> bool {
    if exact {
        name_match(site, q)
    } else {
        ci_match(site, q)
    }
}

/// The error hint describing one site.
pub open spec fn hint_of(site: SiteResponse) -> SiteHint {
    SiteHint { internal_reference: site.internal_reference, display_name: site.name }
}

/// Hints of the sites that match `q` in name stage `exact`, in list order.
pub open spec fn match_hints(sites: Seq<SiteResponse>, q: Seq<char>, exact: bool) -> Seq<SiteHint>
    decreases sites.len(),
{
    if sites.len() == 0 {
        Seq::empty()
    } else {
        let rest = match_hints(sites.drop_last(), q, exact);
        if stage_match(sites.last(), q, exact) {
            rest.push(hint_of(sites.last()))
        } else {
            rest
        }
    }
}

/// The resolution of a site found at index `i`.
pub open spec fn resolved_at(sites: Seq<SiteResponse>, i: int) -> ResolvedSite {
    ResolvedSite { id: sites[i].id, slug: sites[i].internal_reference }
}

/// Stage one applies: the input is a UUID that some site carries.
pub open spec fn uuid_stage(sites: Seq<SiteResponse>, q: Seq<char>) -> bool {
    &&& uuid_text_value(q) is Some
    &&& exists|i: int| 0 <= i < sites.len() && sites[i].id == uuid_text_value(q)->0
}

/// `i` is the first site whose id is the UUID read from `q`.
pub open spec fn first_uuid_match(sites: Seq<SiteResponse>, q: Seq<char>, i: int) -> bool {
    &&& 0 <= i < sites.len()
    &&& uuid_text_value(q) == Some(sites[i].id)
    &&& forall|j: int| 0 <= j < i ==> Some(sites[j].id) != uuid_text_value(q)
}

/// Stage two applies: some site's slug is exactly the input.
pub open spec fn slug_stage(sites: Seq<SiteResponse>, q: Seq<char>) -> bool {
    exists|i: int| 0 <= i < sites.len() && sites[i].internal_reference@ == q
}

/// `i` is the first site whose slug is exactly `q`.
pub open spec fn first_slug_match(sites: Seq<SiteResponse>, q: Seq<char>, i: int) -> bool {
    &&& 0 <= i < sites.len()
    &&& sites[i].internal_reference@ == q
    &&& forall|j: int| 0 <= j < i ==> sites[j].internal_reference@ != q
}

/// `i` is the first site that matches `q` in name stage `exact`.
pub open spec fn first_stage_match(sites: Seq<SiteResponse>, q: Seq<char>, exact: bool, i: int) -> bool {
    &&& 0 <= i < sites.len()
    &&& stage_match(sites[i], q, exact)
    &&& forall|j: int| 0 <= j < i ==> !stage_match(sites[j], q, exact)
}

/// Some site matches `q` in name stage `exact`.
pub open spec fn any_match(sites: Seq<SiteResponse>, q: Seq<char>, exact: bool) -> bool {
    exists|i: int| 0 <= i < sites.len() && stage_match(sites[i], q, exact)
}

/// Two matches of `q` in name stage `exact` are different sites (different
/// ids).
pub open spec fn stage_ambiguous(sites: Seq<SiteResponse>, q: Seq<char>, exact: bool) -> bool {
    exists|i: int, j: int|
        0 <= i < sites.len() && 0 <= j < sites.len() && stage_match(sites[i], q, exact) && stage_match(
            sites[j],
            q,
            exact,
        ) && sites[i].id != sites[j].id
}

/// The outcome of a name stage that has matches: refused as ambiguous,
/// listing its matches, when they name distinct sites; otherwise its first
/// match.
pub open spec fn stage_outcome(
    sites: Seq<SiteResponse>,
    q: Seq<char>,
    exact: bool,
    r: Result<ResolvedSite, CoreError>,
) -> bool {
    if stage_ambiguous(sites, q, exact) {
        match r {
            Err(CoreError::SiteAmbiguous { name, matches }) => name@ == q && matches@ == match_hints(sites, q, exact),
            _ => false,
        }
    } else {
        exists|i: int| first_stage_match(sites, q, exact, i) && r == Ok::<ResolvedSite, CoreError>(resolved_at(sites, i))
    }
}

/// The contract of site resolution, stage by stage: a UUID that a listed
/// site carries, an exact slug, an exact display name, then either field
/// up to ASCII case.
pub open spec fn resolution_holds(
    sites: Seq<SiteResponse>,
    q: Seq<char>,
    r: Result<ResolvedSite, CoreError>,
) -> bool {
    if uuid_stage(sites, q) {
        exists|i: int| first_uuid_match(sites, q, i) && r == Ok::<ResolvedSite, CoreError>(resolved_at(sites, i))
    } else if slug_stage(sites, q) {
        exists|i: int| first_slug_match(sites, q, i) && r == Ok::<ResolvedSite, CoreError>(resolved_at(sites, i))
    } else if any_match(sites, q, true) {
        stage_outcome(sites, q, true, r)
    } else if any_match(sites, q, false) {
        stage_outcome(sites, q, false, r)
    } else {
        match r {
            Err(CoreError::SiteNotFound { name, available }) => name@ == q && available@ == sites.map_values(|s: SiteResponse| hint_of(s)),
            _ => false,
        }
    }
}

fn hint(site: &SiteResponse) -> (h: SiteHint)
    ensures
        h == hint_of(*site),
{
    SiteHint { internal_reference: site.internal_reference.clone(), display_name: site.name.clone() }
}

fn resolved(site: &SiteResponse) -> (r: ResolvedSite)
    ensures
        r.id == site.id,
        r.slug == site.internal_reference,
{
    ResolvedSite { id: site.id, slug: site.internal_reference.clone() }
}

fn is_stage_match(site: &SiteResponse, q: &Vec<char>, exact: bool) -> (b: bool)
    ensures
        b == stage_match(*site, q@, exact),
{
    let name = chars_of(site.name.as_str());
    if exact {
        chars_eq(&name, q)
    } else {
        let slug = chars_of(site.internal_reference.as_str());
        chars_eq_ignore_ascii_case(&slug, q) || chars_eq_ignore_ascii_case(&name, q)
    }
}

/// Scans the sites for the matches of name stage `exact`: the first match,
/// whether some match names another site than the first, and the hints of
/// all matches.
fn scan_stage(sites: &Vec<SiteResponse>, q: &Vec<char>, exact: bool) -> (r: (Option<usize>, bool, Vec<SiteHint>))
    ensures
        r.2@ == match_hints(sites@, q@, exact),
        match r.0 {
            None => !any_match(sites@, q@, exact) && !r.1,
            Some(f) => first_stage_match(sites@, q@, exact, f as int)
                && (r.1 <==> stage_ambiguous(sites@, q@, exact)),
        },
{
    let ghost s = sites@;
    let mut matches: Vec<SiteHint> = Vec::new();
    let mut first: Option<usize> = None;
    let mut distinct = false;
    let mut k: usize = 0;
    while k < sites.len()
        invariant
            s == sites@,
            k <= s.len(),
            matches@ == match_hints(s.take(k as int), q@, exact),
            match first {
                None => forall|j: int| 0 <= j < k ==> !stage_match(s[j], q@, exact),
                Some(f) => f < k && first_stage_match(s, q@, exact, f as int),
            },
            first is None ==> !distinct,
            first is Some ==> (distinct <==> exists|j: int| 0 <= j < k && stage_match(s[j], q@, exact) && s[j].id != s[first->0 as int].id),
        decreases s.len() - k,
    {
        let m = is_stage_match(&sites[k], q, exact);
        proof {
            assert(s.take(k + 1).drop_last() =~= s.take(k as int));
            assert(s.take(k + 1).last() == s[k as int]);
        }
        if m {
            matches.push(hint(&sites[k]));
            match first {
                None => {
                    first = Some(k);
                },
                Some(f) => {
                    if sites[k].id != sites[f].id {
                        distinct = true;
                    }
                },
            }
        }
        k = k + 1;
    }
    assert(s.take(s.len() as int) =~= s);
    proof {
        if let Some(f) = first {
            if stage_ambiguous(s, q@, exact) {
                let (a, b) = choose|a: int, b: int|
                    0 <= a < s.len() && 0 <= b < s.len() && stage_match(s[a], q@, exact) && stage_match(s[b], q@, exact)
                        && s[a].id != s[b].id;
                if s[a].id != s[f as int].id {
                    assert(stage_match(s[a], q@, exact));
                } else {
                    assert(stage_match(s[b], q@, exact) && s[b].id != s[f as int].id);
                }
            }
            if distinct {
                let j = choose|j: int| 0 <= j < s.len() && stage_match(s[j], q@, exact) && s[j].id != s[f as int].id;
                assert(stage_match(s[f as int], q@, exact));
            }
        } else {
            assert(!any_match(s, q@, exact));
        }
    }
    (first, distinct, matches)
}

/// Resolves a site identifier to its Integration UUID and Session slug.
///
/// Matches in priority order: a UUID that a listed site carries; an exact
/// slug; then a fuzzy match on the exact display name or on either field up
/// to ASCII case. A fuzzy match that names more than one distinct site is
/// refused as ambiguous, listing every fuzzy match; no match at all is
/// refused listing every site.
pub fn resolve_site_in(sites: &Vec<SiteResponse>, site_name: &str) -> (r: Result<ResolvedSite, CoreError>)
    ensures
        resolution_holds(sites@, site_name@, r),
{
    let ghost s = sites@;
    let ghost q = site_name@;
    let q_chars = chars_of(site_name);

    // Stage one: UUID fast path.
    let parsed = parse_uuid(site_name);
    if let Some(uid) = parsed {
        let mut i: usize = 0;
        while i < sites.len()
            invariant
                s == sites@,
                q == site_name@,
                uuid_text_value(q) == Some(uid),
                i <= s.len(),
                forall|j: int| 0 <= j < i ==> s[j].id != uid,
            decreases s.len() - i,
        {
            if sites[i].id == uid {
                let res = resolved(&sites[i]);
                proof {
                    assert(first_uuid_match(s, q, i as int));
                    assert(uuid_stage(s, q));
                    assert(res == resolved_at(s, i as int));
                }
                return Ok(res);
            }
            i = i + 1;
        }
    }
    assert(!uuid_stage(s, q));

    // Stage two: exact slug.
    let mut i: usize = 0;
    while i < sites.len()
        invariant
            s == sites@,
            q == site_name@,
            q_chars@ == q,
            !uuid_stage(s, q),
            i <= s.len(),
            forall|j: int| 0 <= j < i ==> s[j].internal_reference@ != q,
        decreases s.len() - i,
    {
        let slug = chars_of(sites[i].internal_reference.as_str());
        if chars_eq(&slug, &q_chars) {
            let res = resolved(&sites[i]);
            proof {
                assert(first_slug_match(s, q, i as int));
                assert(slug_stage(s, q));
                assert(res == resolved_at(s, i as int));
            }
            return Ok(res);
        }
        i = i + 1;
    }
    assert(!slug_stage(s, q));

    // Stage three: exact display name, refused when the matches name
    // distinct sites.
    let (first, distinct, matches) = scan_stage(sites, &q_chars, true);
    if let Some(f) = first {
        if distinct {
            return Err(CoreError::SiteAmbiguous { name: site_name.to_owned(), matches });
        }
        let res = resolved(&sites[f]);
        proof {
            assert(any_match(s, q, true));
            assert(res == resolved_at(s, f as int));
        }
        return Ok(res);
    }

    // Stage four: either field up to ASCII case.
    let (first, distinct, matches) = scan_stage(sites, &q_chars, false);
    match first {
        None => {
            let mut available: Vec<SiteHint> = Vec::new();
            let mut j: usize = 0;
            while j < sites.len()
                invariant
                    s == sites@,
                    j <= s.len(),
                    available@ == s.take(j as int).map_values(|x: SiteResponse| hint_of(x)),
                decreases s.len() - j,
            {
                available.push(hint(&sites[j]));
                proof {
                    assert(s.take(j + 1).map_values(|x: SiteResponse| hint_of(x)) =~= s.take(j as int).map_values(|x: SiteResponse| hint_of(x)).push(hint_of(s[j as int])));
                }
                j = j + 1;
            }
            assert(s.take(s.len() as int) =~= s);
            Err(CoreError::SiteNotFound { name: site_name.to_owned(), available })
        },
        Some(f) => {
            if distinct {
                Err(CoreError::SiteAmbiguous { name: site_name.to_owned(), matches })
            } else {
                let res = resolved(&sites[f]);
                proof {
                    assert(any_match(s, q, false));
                    assert(res == resolved_at(s, f as int));
                }
                Ok(res)
            }
        },
    }
}

} // verus!

verus! {

/// A resolved site is always one of the listed sites, with that site's own
/// slug.
pub proof fn law_resolution_names_a_listed_site(sites: Seq<SiteResponse>, q: Seq<char>, res: ResolvedSite)
    requires
        resolution_holds(sites, q, Ok(res)),
    ensures
        exists|i: int| 0 <= i < sites.len() && res == resolved_at(sites, i),
{
}

/// An exact slug match wins over any display-name or case-insensitive
/// match, unless the input is the UUID of a listed site.
pub proof fn law_exact_slug_wins(sites: Seq<SiteResponse>, q: Seq<char>, r: Result<ResolvedSite, CoreError>)
    requires
        resolution_holds(sites, q, r),
        !uuid_stage(sites, q),
        slug_stage(sites, q),
    ensures
        r matches Ok(res) && res.slug@ == q,
{
}

/// An exact display-name match wins over case-insensitive matches: when
/// neither the UUID nor the slug matched and some site's display name is
/// exactly the input, the outcome is decided among those sites alone.
pub proof fn law_exact_name_wins(sites: Seq<SiteResponse>, q: Seq<char>, r: Result<ResolvedSite, CoreError>)
    requires
        resolution_holds(sites, q, r),
        !uuid_stage(sites, q),
        !slug_stage(sites, q),
        exists|i: int| 0 <= i < sites.len() && sites[i].name@ == q,
    ensures
        r matches Ok(res) ==> exists|i: int| 0 <= i < sites.len() && sites[i].name@ == q && res == resolved_at(sites, i),
        r matches Err(e) ==> e matches CoreError::SiteAmbiguous { matches, .. } && matches@ == match_hints(sites, q, true),
{
    assert(any_match(sites, q, true));
}

/// A name match never silently picks one of several distinct sites: when
/// neither the UUID nor the slug matched, a resolution is the one site that
/// every match of the deciding stage names (exact display names when there
/// are any, else matches up to ASCII case).
pub proof fn law_name_resolution_is_unambiguous(sites: Seq<SiteResponse>, q: Seq<char>, res: ResolvedSite)
    requires
        resolution_holds(sites, q, Ok(res)),
        !uuid_stage(sites, q),
        !slug_stage(sites, q),
    ensures
        any_match(sites, q, true) ==> forall|i: int| 0 <= i < sites.len() && name_match(sites[i], q) ==> sites[i].id == res.id,
        !any_match(sites, q, true) ==> any_match(sites, q, false) && forall|i: int|
            0 <= i < sites.len() && ci_match(sites[i], q) ==> sites[i].id == res.id,
{
    if any_match(sites, q, true) {
        let f = choose|f: int| first_stage_match(sites, q, true, f) && Ok::<ResolvedSite, CoreError>(res) == Ok::<ResolvedSite, CoreError>(resolved_at(sites, f));
        assert forall|i: int| 0 <= i < sites.len() && name_match(sites[i], q) implies sites[i].id == res.id by {
            assert(stage_match(sites[i], q, true));
            assert(stage_match(sites[f], q, true));
        }
    } else {
        let f = choose|f: int| first_stage_match(sites, q, false, f) && Ok::<ResolvedSite, CoreError>(res) == Ok::<ResolvedSite, CoreError>(resolved_at(sites, f));
        assert forall|i: int| 0 <= i < sites.len() && ci_match(sites[i], q) implies sites[i].id == res.id by {
            assert(stage_match(sites[i], q, false));
            assert(stage_match(sites[f], q, false));
        }
    }
}

proof fn lemma_hints_count(sites: Seq<SiteResponse>, q: Seq<char>, exact: bool, i: int)
    requires
        0 <= i < sites.len(),
        stage_match(sites[i], q, exact),
    ensures
        match_hints(sites, q, exact).len() >= 1 + match_hints(sites.take(i), q, exact).len(),
    decreases sites.len(),
{
    if i < sites.len() - 1 {
        lemma_hints_count(sites.drop_last(), q, exact, i);
        assert(sites.drop_last().take(i) =~= sites.take(i));
    } else {
        assert(sites.drop_last() =~= sites.take(i));
    }
}

proof fn lemma_hints_at_least_one(sites: Seq<SiteResponse>, q: Seq<char>, exact: bool, i: int)
    requires
        0 <= i < sites.len(),
        stage_match(sites[i], q, exact),
    ensures
        match_hints(sites.take(i + 1), q, exact).len() >= 1,
{
    assert(sites.take(i + 1).drop_last() =~= sites.take(i));
    assert(sites.take(i + 1).last() == sites[i]);
}

proof fn lemma_hints_prefix_grows(sites: Seq<SiteResponse>, q: Seq<char>, exact: bool, m: int, n: int)
    requires
        0 <= m <= n <= sites.len(),
    ensures
        match_hints(sites.take(m), q, exact).len() <= match_hints(sites.take(n), q, exact).len(),
    decreases n - m,
{
    if m < n {
        lemma_hints_prefix_grows(sites, q, exact, m, n - 1);
        assert(sites.take(n).drop_last() =~= sites.take(n - 1));
    }
}

proof fn lemma_ambiguous_lists_two(sites: Seq<SiteResponse>, q: Seq<char>, exact: bool)
    requires
        stage_ambiguous(sites, q, exact),
    ensures
        match_hints(sites, q, exact).len() >= 2,
{
    let (i, j) = choose|i: int, j: int|
        0 <= i < sites.len() && 0 <= j < sites.len() && stage_match(sites[i], q, exact) && stage_match(sites[j], q, exact)
            && sites[i].id != sites[j].id;
    let (a, b) = if i < j { (i, j) } else { (j, i) };
    lemma_hints_count(sites, q, exact, b);
    lemma_hints_at_least_one(sites, q, exact, a);
    lemma_hints_prefix_grows(sites, q, exact, a + 1, b);
}

/// An ambiguity lists every match of its stage, so at least two sites.
pub proof fn law_ambiguity_lists_the_matches(sites: Seq<SiteResponse>, q: Seq<char>, r: Result<ResolvedSite, CoreError>)
    requires
        resolution_holds(sites, q, r),
        r matches Err(CoreError::SiteAmbiguous { .. }),
    ensures
        r matches Err(CoreError::SiteAmbiguous { matches, .. }) && matches@.len() >= 2,
{
    if any_match(sites, q, true) {
        lemma_ambiguous_lists_two(sites, q, true);
    } else {
        lemma_ambiguous_lists_two(sites, q, false);
    }
}

/// When nothing matches, the error lists every site.
pub proof fn law_not_found_lists_all_sites(sites: Seq<SiteResponse>, q: Seq<char>, r: Result<ResolvedSite, CoreError>)
    requires
        resolution_holds(sites, q, r),
        r matches Err(CoreError::SiteNotFound { .. }),
    ensures
        r matches Err(CoreError::SiteNotFound { available, .. }) && available@.len() == sites.len(),
{
}

} // verus!
