//! Route-handler decision logic. Each handler performs one store round
//! trip; the functions here take that round trip's result as a plain value
//! and decide the response: which records appear, enriched how, and under
//! which status code. A store failure's message is passed through to the
//! response body unchanged.

use vstd::prelude::*;
use crate::models::{enrich, spec_enriched, spec_slug, EnrichedGuitar, Guitar};
use crate::text::str_eq;
use vstd::string::StringExecFns;

verus! {

/// The outcome of a list request: every fetched row, enriched, or the
/// store's failure message.
pub enum ListOutcome {
    Rows(Vec<EnrichedGuitar>),
    Failure(String),
}

/// The outcome of a single-guitar lookup.
pub enum GuitarOutcome {
    Found(EnrichedGuitar),
    NotFound,
    Failure(String),
}

/// The outcome of the image update's read-back: the refreshed record, or
/// nothing when it could not be read back after the write.
pub enum UpdateOutcome {
    Updated(EnrichedGuitar),
    Vanished,
}

/// The fixed body of the liveness probe, which touches no store.
pub fn health_payload() -> (r: String)
    ensures
        r@ == "{\"ok\":true}"@,
{
    String::from_str("{\"ok\":true}")
}

/// Enrich every fetched row, in order.
pub fn enrich_all(rows: Vec<Guitar>) -> (out: Vec<EnrichedGuitar>)
    ensures
        out@.len() == rows@.len(),
        forall|i: int| 0 <= i < rows@.len() ==> spec_enriched(rows@[i], out@[i]),
{
    let ghost orig = rows@;
    let mut work = rows;
    let mut out: Vec<EnrichedGuitar> = Vec::new();
    while work.len() > 0
        invariant
            out@.len() + work@.len() == orig.len(),
            work@ == orig.skip(out@.len() as int),
            forall|i: int| 0 <= i < out@.len() ==> spec_enriched(orig[i], out@[i]),
        decreases work@.len(),
    {
        let g = work.remove(0);
        proof {
            assert(g == orig[out@.len() as int]);
            assert(work@ =~= orig.skip(out@.len() + 1 as int));
        }
        out.push(enrich(g));
    }
    out
}

/// The list response: every row enriched on success — an empty store gives
/// an empty list, still a success — or the failure passed through.
pub fn list_guitars_outcome(res: Result<Vec<Guitar>, String>) -> (out: ListOutcome)
    ensures
        out is Rows <==> res is Ok,
        res is Ok ==> out->Rows_0@.len() == res->Ok_0@.len(),
        res is Ok ==> forall|i: int|
            0 <= i < res->Ok_0@.len() ==> spec_enriched(res->Ok_0@[i], out->Rows_0@[i]),
        res is Err ==> out->Failure_0@ == res->Err_0@,
{
    match res {
        Ok(rows) => ListOutcome::Rows(enrich_all(rows)),
        Err(e) => ListOutcome::Failure(e),
    }
}

/// The status of a list response: success is 200 — never 404, however
/// empty — and a store failure is 500.
pub fn list_status(out: &ListOutcome) -> (code: u16)
    ensures
        code == 200 <==> out is Rows,
        code == 500 <==> out is Failure,
{
    match out {
        ListOutcome::Rows(_) => 200,
        ListOutcome::Failure(_) => 500,
    }
}

/// The response to an id lookup: the first fetched row enriched, a
/// not-found when the store returned no row, or the failure passed
/// through.
pub fn guitar_by_id_outcome(res: Result<Vec<Guitar>, String>) -> (out: GuitarOutcome)
    ensures
        out is Found <==> res is Ok && res->Ok_0@.len() > 0,
        out is NotFound <==> res is Ok && res->Ok_0@.len() == 0,
        res is Ok && res->Ok_0@.len() > 0 ==> spec_enriched(res->Ok_0@[0], out->Found_0),
        res is Err ==> out is Failure && out->Failure_0@ == res->Err_0@,
{
    match res {
        Ok(mut rows) => {
            if rows.len() > 0 {
                let g = rows.remove(0);
                GuitarOutcome::Found(enrich(g))
            } else {
                GuitarOutcome::NotFound
            }
        },
        Err(e) => GuitarOutcome::Failure(e),
    }
}

/// The position of the first guitar whose slug — stored or derived — is
/// the one looked up.
pub open spec fn spec_slug_match_index(rows: Seq<Guitar>, slug: Seq<char>) -> Option<int>
    decreases rows.len(),
{
    if rows.len() == 0 {
        None
    } else if spec_slug(rows[0]) == slug {
        Some(0)
    } else {
        match spec_slug_match_index(rows.skip(1), slug) {
            Some(i) => Some(i + 1),
            None => None,
        }
    }
}

/// The slug match is the least matching index; `None` means no row
/// matches.
pub proof fn lemma_slug_match_characterizes(rows: Seq<Guitar>, slug: Seq<char>)
    ensures
        match spec_slug_match_index(rows, slug) {
            Some(i) => 0 <= i < rows.len() && spec_slug(rows[i]) == slug && (forall|j: int|
                0 <= j < i ==> spec_slug(rows[j]) != slug),
            None => forall|j: int| 0 <= j < rows.len() ==> spec_slug(rows[j]) != slug,
        },
    decreases rows.len(),
{
    if rows.len() == 0 {
    } else if spec_slug(rows[0]) == slug {
    } else {
        let sub = rows.skip(1);
        lemma_slug_match_characterizes(sub, slug);
        match spec_slug_match_index(sub, slug) {
            Some(i) => {
                assert(sub[i] == rows[i + 1]);
                assert forall|j: int| 0 <= j < i + 1 implies spec_slug(rows[j]) != slug by {
                    if j > 0 {
                        assert(sub[j - 1] == rows[j]);
                    }
                }
            },
            None => {
                assert forall|j: int| 0 <= j < rows.len() implies spec_slug(rows[j]) != slug by {
                    if j > 0 {
                        assert(sub[j - 1] == rows[j]);
                    }
                }
            },
        }
    }
}

/// When two guitars derive the same slug, a lookup of it still yields
/// exactly one: the first in the store's enumeration order. The second is
/// unreachable by slug.
pub proof fn lemma_slug_lookup_first_match(rows: Seq<Guitar>, slug: Seq<char>, i: int, j: int)
    requires
        0 <= i < j < rows.len(),
        spec_slug(rows[i]) == slug,
        spec_slug(rows[j]) == slug,
    ensures
        spec_slug_match_index(rows, slug) is Some,
        spec_slug_match_index(rows, slug)->0 <= i,
        spec_slug(rows[spec_slug_match_index(rows, slug)->0]) == slug,
{
    lemma_slug_match_characterizes(rows, slug);
}

/// Linear scan for the first guitar with the looked-up slug. The store
/// cannot be queried by a derived slug, so every row is fetched and each
/// row's slug is recomputed here.
pub fn find_by_slug(rows: &Vec<Guitar>, slug: &String) -> (r: Option<usize>)
    ensures
        match r {
            Some(p) => p < rows@.len() && spec_slug_match_index(rows@, slug@) == Some(p as int),
            None => spec_slug_match_index(rows@, slug@) is None,
        },
{
    proof {
        lemma_slug_match_characterizes(rows@, slug@);
    }
    let n = rows.len();
    let mut i: usize = 0;
    while i < n
        invariant
            n == rows@.len(),
            i <= n,
            forall|j: int| 0 <= j < i ==> spec_slug(rows@[j]) != slug@,
        decreases n - i,
    {
        let candidate = rows[i].get_slug();
        if str_eq(&candidate, slug.as_str()) {
            proof {
                lemma_slug_match_characterizes(rows@, slug@);
            }
            return Some(i);
        }
        i = i + 1;
    }
    None
}

/// The response to a slug lookup: the first row whose slug matches,
/// enriched; a not-found when none does; or the failure passed through.
pub fn guitar_by_slug_outcome(res: Result<Vec<Guitar>, String>, slug: &String) -> (out:
    GuitarOutcome)
    ensures
        res is Err ==> out is Failure && out->Failure_0@ == res->Err_0@,
        res is Ok ==> match spec_slug_match_index(res->Ok_0@, slug@) {
            Some(i) => out is Found && spec_enriched(res->Ok_0@[i], out->Found_0),
            None => out is NotFound,
        },
{
    match res {
        Ok(mut rows) => {
            match find_by_slug(&rows, slug) {
                Some(i) => {
                    let g = rows.remove(i);
                    GuitarOutcome::Found(enrich(g))
                },
                None => GuitarOutcome::NotFound,
            }
        },
        Err(e) => GuitarOutcome::Failure(e),
    }
}

/// The status of a single-guitar response.
pub fn guitar_outcome_status(out: &GuitarOutcome) -> (code: u16)
    ensures
        code == 200 <==> out is Found,
        code == 404 <==> out is NotFound,
        code == 500 <==> out is Failure,
{
    match out {
        GuitarOutcome::Found(_) => 200,
        GuitarOutcome::NotFound => 404,
        GuitarOutcome::Failure(_) => 500,
    }
}

/// The status reported for a deletion, given how many records the store
/// removed, or its failure.
pub open spec fn spec_delete_status(res: Result<usize, String>) -> u16 {
    if res is Ok {
        204
    } else {
        500
    }
}

/// The deletion response: any reported success is 204, whether or not a
/// record was actually removed; a failure is 500.
pub fn delete_status(res: &Result<usize, String>) -> (code: u16)
    ensures
        code == spec_delete_status(*res),
{
    match res {
        Ok(_) => 204,
        Err(_) => 500,
    }
}

/// Deletion is idempotent: a deletion the store reports as successful maps
/// to 204 whatever it removed — also nothing, for an id that never
/// existed.
pub proof fn lemma_delete_idempotent(removed: usize)
    ensures
        spec_delete_status(Ok(removed)) == 204,
{
}

/// The form-friendly deletion path: always a see-other redirect to the
/// guitars page, whatever the store reported.
pub fn delete_redirect() -> (r: (u16, String))
    ensures
        r.0 == 303,
        r.1@ == "/guitars"@,
{
    (303, String::from_str("/guitars"))
}

/// The page size for the image listing: the caller's parsed limit, or 60
/// when none was given (or none parsed).
pub fn effective_limit(parsed: Option<usize>) -> (r: usize)
    ensures
        r == match parsed {
            Some(l) => l,
            None => 60usize,
        },
{
    match parsed {
        Some(l) => l,
        None => 60,
    }
}

/// The image update's read-back, after the write was reported successful:
/// the refreshed record enriched, or a not-found. A read-back that fails
/// outright is also reported as not-found — misleading after a successful
/// write, but preserved as this service's behavior.
pub fn update_readback_outcome(res: Result<Vec<Guitar>, String>) -> (out: UpdateOutcome)
    ensures
        out is Updated <==> res is Ok && res->Ok_0@.len() > 0,
        res is Ok && res->Ok_0@.len() > 0 ==> spec_enriched(res->Ok_0@[0], out->Updated_0),
{
    match res {
        Ok(mut rows) => {
            if rows.len() > 0 {
                let g = rows.remove(0);
                UpdateOutcome::Updated(enrich(g))
            } else {
                UpdateOutcome::Vanished
            }
        },
        Err(_) => UpdateOutcome::Vanished,
    }
}

/// The status of an image-update response after the write.
pub fn update_outcome_status(out: &UpdateOutcome) -> (code: u16)
    ensures
        code == 200 <==> out is Updated,
        code == 404 <==> out is Vanished,
{
    match out {
        UpdateOutcome::Updated(_) => 200,
        UpdateOutcome::Vanished => 404,
    }
}

} // verus!
