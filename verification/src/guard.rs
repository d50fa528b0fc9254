//! The query guard: under the safe mode a free-form query must start with
//! `SELECT` (after trimming and ASCII case-folding) and must not contain any
//! of a fixed set of destructive keywords anywhere in its text. This is a
//! textual rail against accidental destructive calls, not a SQL parser.

use vstd::prelude::*;

use crate::text::{has_substring, starts_with, str_contains, str_starts_with, to_upper, trim_str,
    trimmed, upper_str};

verus! {

/// The verdict on a query under the safe mode.
#[derive(Debug, PartialEq, Eq, Structural)]
pub enum GuardVerdict {
    /// The query may run.
    Allowed,
    /// The query does not begin with `SELECT`.
    NotSelect,
    /// The query contains `forbidden_keywords()[k]`; `k` is the first match.
    ForbiddenAt(usize),
}

/// The keywords never allowed in a guarded query, in the order they are
/// checked.
pub open spec fn forbidden_keywords() -> Seq<Seq<char>> {
    seq![
        "INSERT"@,
        "UPDATE"@,
        "DELETE"@,
        "DROP"@,
        "CREATE"@,
        "ALTER"@,
        "TRUNCATE"@,
        "GRANT"@,
        "REVOKE"@,
    ]
}

/// The least keyword index at or after `i` whose keyword occurs in `u`.
pub open spec fn first_forbidden_from(u: Seq<char>, i: int) -> Option<int>
    decreases forbidden_keywords().len() - i,
{
    if i < 0 || i >= forbidden_keywords().len() {
        None
    } else if has_substring(u, forbidden_keywords()[i]) {
        Some(i)
    } else {
        first_forbidden_from(u, i + 1)
    }
}

/// A found index always lies between the start of the search and the end of
/// the keyword list.
pub proof fn lemma_first_forbidden_range(u: Seq<char>, i: int)
    ensures
        first_forbidden_from(u, i) matches Some(j) ==> i <= j < forbidden_keywords().len(),
    decreases forbidden_keywords().len() - i,
{
    if i < 0 || i >= forbidden_keywords().len() {
    } else if has_substring(u, forbidden_keywords()[i]) {
    } else {
        lemma_first_forbidden_range(u, i + 1);
    }
}

/// Where no index was found, no keyword at or after the search start occurs.
pub proof fn lemma_no_forbidden_when_none(u: Seq<char>, i: int)
    requires
        0 <= i,
        first_forbidden_from(u, i) is None,
    ensures
        forall|j: int|
            i <= j < forbidden_keywords().len() ==> !has_substring(
                u,
                #[trigger] forbidden_keywords()[j],
            ),
    decreases forbidden_keywords().len() - i,
{
    if i < forbidden_keywords().len() {
        lemma_no_forbidden_when_none(u, i + 1);
    }
}

/// What the guard says about `q`: the trimmed, upper-cased text must start
/// with `SELECT`, and the first forbidden keyword found in it, if any, names
/// the refusal.
pub open spec fn spec_guard(q: Seq<char>) -> GuardVerdict {
    let u = to_upper(trimmed(q));
    if !starts_with(u, "SELECT"@) {
        GuardVerdict::NotSelect
    } else {
        match first_forbidden_from(u, 0) {
            Some(i) => GuardVerdict::ForbiddenAt(i as usize),
            None => GuardVerdict::Allowed,
        }
    }
}

/// Classifies a query under the safe mode.
pub fn guard_query(q: &str) -> (r: GuardVerdict)
    ensures
        r == spec_guard(q@),
{
    let t = trim_str(q);
    let u = upper_str(t);
    if !str_starts_with(u.as_str(), "SELECT") {
        return GuardVerdict::NotSelect;
    }
    proof {
        reveal_with_fuel(first_forbidden_from, 11);
    }
    if str_contains(u.as_str(), "INSERT") {
        GuardVerdict::ForbiddenAt(0)
    } else if str_contains(u.as_str(), "UPDATE") {
        GuardVerdict::ForbiddenAt(1)
    } else if str_contains(u.as_str(), "DELETE") {
        GuardVerdict::ForbiddenAt(2)
    } else if str_contains(u.as_str(), "DROP") {
        GuardVerdict::ForbiddenAt(3)
    } else if str_contains(u.as_str(), "CREATE") {
        GuardVerdict::ForbiddenAt(4)
    } else if str_contains(u.as_str(), "ALTER") {
        GuardVerdict::ForbiddenAt(5)
    } else if str_contains(u.as_str(), "TRUNCATE") {
        GuardVerdict::ForbiddenAt(6)
    } else if str_contains(u.as_str(), "GRANT") {
        GuardVerdict::ForbiddenAt(7)
    } else if str_contains(u.as_str(), "REVOKE") {
        GuardVerdict::ForbiddenAt(8)
    } else {
        GuardVerdict::Allowed
    }
}

/// The text of `forbidden_keywords()[k]`.
pub fn forbidden_keyword_text(k: usize) -> (r: &'static str)
    requires
        k < forbidden_keywords().len(),
    ensures
        r@ == forbidden_keywords()[k as int],
{
    if k == 0 {
        "INSERT"
    } else if k == 1 {
        "UPDATE"
    } else if k == 2 {
        "DELETE"
    } else if k == 3 {
        "DROP"
    } else if k == 4 {
        "CREATE"
    } else if k == 5 {
        "ALTER"
    } else if k == 6 {
        "TRUNCATE"
    } else if k == 7 {
        "GRANT"
    } else {
        "REVOKE"
    }
}

} // verus!
