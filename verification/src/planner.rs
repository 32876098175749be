//! The planner's handling of very long `INSERT` statements.
//!
//! The values of an insert can be larger than everything else in the
//! statement, and they may not even be valid tokens. The planner therefore
//! tokenizes only the beginning of an insert and tries to parse that. If
//! the parse fails and more tokens are left, it takes more and tries again.

use vstd::prelude::*;

verus! {

/// The number of tokens of an insert that are taken at first.
pub const PROBE_INSERT_INITIAL_TOKENS: usize = 128;

/// The number of tokens from which on all the rest is taken at once.
pub const PROBE_INSERT_MAX_TOKENS: usize = 1024;

/// How many tokens to take.
#[derive(Clone, Copy, Debug, PartialEq, Eq, Structural)]
pub enum Probe {
    /// At most this many.
    AtMost(usize),
    /// All that are left.
    All,
}

/// How many tokens are taken before the first parse: the initial probe
/// for an insert, everything for any other statement.
pub fn initial_probe(is_insert_stmt: bool) -> (p: Probe)
    ensures
        p == if is_insert_stmt {
            Probe::AtMost(PROBE_INSERT_INITIAL_TOKENS)
        } else {
            Probe::All
        },
{
    if is_insert_stmt {
        Probe::AtMost(PROBE_INSERT_INITIAL_TOKENS)
    } else {
        Probe::All
    }
}

/// Whether the planner tries again with more tokens: the attempt has
/// failed, and the tokenizer has a valid token left.
pub fn should_retry(failed: bool, next_token_is_valid: bool) -> (b: bool)
    ensures
        b == (failed && next_token_is_valid),
{
    failed && next_token_is_valid
}

/// How many more tokens are taken for the next attempt, given the number
/// of tokens of the failed one, its end marker left out: twice as many, as
/// long as that number is below the maximum; all the rest from then on.
pub fn next_probe(tokens: usize) -> (p: Probe)
    ensures
        p == if tokens < PROBE_INSERT_MAX_TOKENS {
            Probe::AtMost((2 * tokens) as usize)
        } else {
            Probe::All
        },
{
    if tokens < PROBE_INSERT_MAX_TOKENS {
        Probe::AtMost(tokens * 2)
    } else {
        Probe::All
    }
}

/// The limit of a query after the cap on result rows has been applied: a
/// query without a limit is limited to the cap, unless the cap is zero.
/// Anything that has a limit, and anything that is not a query, stays.
pub fn add_max_rows_limit(max_rows: u64, is_query: bool, limit: Vec<u64>) -> (r: Vec<u64>)
    ensures
        r@ == if max_rows != 0 && is_query && limit@.len() == 0 {
            seq![max_rows]
        } else {
            limit@
        },
{
    if max_rows == 0 {
        return limit;
    }
    if is_query && limit.len() == 0 {
        let mut capped: Vec<u64> = Vec::new();
        capped.push(max_rows);
        assert(capped@ =~= seq![max_rows]);
        return capped;
    }
    limit
}

/// The probes grow: below the maximum, each attempt that follows a failed
/// one sees at least as many tokens again as the failed one saw.
pub proof fn probe_grows(tokens: usize)
    requires
        0 < tokens < PROBE_INSERT_MAX_TOKENS,
    ensures
        2 * tokens > tokens,
        2 * tokens <= usize::MAX,
{
}

} // verus!
