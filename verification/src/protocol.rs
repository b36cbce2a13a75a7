//! The mathematical model of a slot's borrow counters and the laws of the
//! counter protocol.
//!
//! A slot's observable borrowing state is a pair of counters. The protocol
//! grants a shared capability only while no exclusive one is outstanding and
//! grants an exclusive capability only while nothing at all is outstanding;
//! releasing a capability undoes exactly one grant. The proof functions at
//! the end state the global consequences: a sequence of shared requests on an
//! unborrowed slot is granted in full, the shared counter counts the live
//! tokens, and releasing every token returns the slot to its initial state.

use vstd::prelude::*;

verus! {

/// The borrowing state of one slot: how many shared and how many exclusive
/// capability tokens are outstanding.
pub ghost struct Counters {
    pub shared: nat,
    pub exclusive: nat,
}

/// Well-formedness of a slot's counters: at most one exclusive capability
/// exists, and never together with a shared one.
pub open spec fn counters_wf(c: Counters) -> bool {
    &&& c.exclusive <= 1
    &&& !(c.shared > 0 && c.exclusive > 0)
}

/// A slot with no outstanding capability of either kind.
pub open spec fn unborrowed(c: Counters) -> bool {
    c.shared == 0 && c.exclusive == 0
}

/// A shared capability may be granted while no exclusive one is outstanding.
pub open spec fn shared_grant_allowed(c: Counters) -> bool {
    c.exclusive == 0
}

/// An exclusive capability may be granted only on an unborrowed slot.
pub open spec fn exclusive_grant_allowed(c: Counters) -> bool {
    unborrowed(c)
}

/// The counters after a shared capability is granted.
pub open spec fn after_shared_grant(c: Counters) -> Counters {
    Counters { shared: c.shared + 1, exclusive: c.exclusive }
}

/// The counters after a shared capability is released.
pub open spec fn after_shared_release(c: Counters) -> Counters
    recommends
        c.shared >= 1,
{
    Counters { shared: (c.shared - 1) as nat, exclusive: c.exclusive }
}

/// The counters after an exclusive capability is granted.
pub open spec fn after_exclusive_grant(c: Counters) -> Counters {
    Counters { shared: c.shared, exclusive: c.exclusive + 1 }
}

/// The counters after an exclusive capability is released.
pub open spec fn after_exclusive_release(c: Counters) -> Counters
    recommends
        c.exclusive >= 1,
{
    Counters { shared: c.shared, exclusive: (c.exclusive - 1) as nat }
}

/// The counters after `n` consecutive shared grants.
pub open spec fn after_shared_grants(c: Counters, n: nat) -> Counters
    decreases n,
{
    if n == 0 {
        c
    } else {
        after_shared_grant(after_shared_grants(c, (n - 1) as nat))
    }
}

/// The counters after `n` consecutive shared releases.
pub open spec fn after_shared_releases(c: Counters, n: nat) -> Counters
    decreases n,
{
    if n == 0 {
        c
    } else {
        after_shared_release(after_shared_releases(c, (n - 1) as nat))
    }
}

/// One step of the shared-capability protocol: a token is granted, or a live
/// token is released.
pub ghost enum LoanEvent {
    Granted,
    Released,
}

/// The counters after a history of shared grants and releases, applied in
/// order to an initial state.
pub open spec fn counters_after(c: Counters, history: Seq<LoanEvent>) -> Counters
    decreases history.len(),
{
    if history.len() == 0 {
        c
    } else {
        let prev = counters_after(c, history.drop_last());
        match history.last() {
            LoanEvent::Granted => after_shared_grant(prev),
            LoanEvent::Released => after_shared_release(prev),
        }
    }
}

/// Whether the protocol admits a history from an initial state: every grant
/// happens while no exclusive capability is outstanding, and every release
/// matches a token still live at that point.
pub open spec fn history_admitted(c: Counters, history: Seq<LoanEvent>) -> bool
    decreases history.len(),
{
    history.len() == 0 || {
        &&& history_admitted(c, history.drop_last())
        &&& {
            let prev = counters_after(c, history.drop_last());
            match history.last() {
                LoanEvent::Granted => shared_grant_allowed(prev),
                LoanEvent::Released => prev.shared >= 1,
            }
        }
    }
}

/// How many tokens a history leaves live: grants minus releases.
pub open spec fn live_tokens(history: Seq<LoanEvent>) -> int
    decreases history.len(),
{
    if history.len() == 0 {
        0
    } else {
        live_tokens(history.drop_last()) + match history.last() {
            LoanEvent::Granted => 1,
            LoanEvent::Released => -1,
        }
    }
}

/// Law: at any point of any admitted history of shared grants and releases
/// on an initially unborrowed slot, the shared counter equals the number of
/// live tokens, and no exclusive capability ever appears.
pub proof fn lemma_shared_counter_counts_live_tokens(c: Counters, history: Seq<LoanEvent>)
    requires
        unborrowed(c),
        history_admitted(c, history),
    ensures
        live_tokens(history) >= 0,
        counters_after(c, history).shared == live_tokens(history),
        counters_after(c, history).exclusive == 0,
        counters_wf(counters_after(c, history)),
    decreases history.len(),
{
    if history.len() > 0 {
        lemma_shared_counter_counts_live_tokens(c, history.drop_last());
    }
}

/// Law: on an unborrowed slot, every request in a sequence of shared-borrow
/// requests is granted — no prefix of grants ever disables the next one — and
/// after `n` grants the shared counter equals `n`, the number of tokens
/// handed out and still live.
pub proof fn lemma_shared_requests_granted(c: Counters, n: nat)
    requires
        unborrowed(c),
    ensures
        forall|k: nat| k <= n ==> shared_grant_allowed(#[trigger] after_shared_grants(c, k)),
        after_shared_grants(c, n).shared == n,
        after_shared_grants(c, n).exclusive == 0,
        counters_wf(after_shared_grants(c, n)),
    decreases n,
{
    if n > 0 {
        lemma_shared_requests_granted(c, (n - 1) as nat);
    }
}

/// Law: `k` releases take the shared counter down by exactly `k` and leave
/// the exclusive counter untouched, as long as `k` tokens are outstanding.
pub proof fn lemma_shared_releases(c: Counters, k: nat)
    requires
        c.shared >= k,
    ensures
        after_shared_releases(c, k).shared == c.shared - k,
        after_shared_releases(c, k).exclusive == c.exclusive,
    decreases k,
{
    if k > 0 {
        lemma_shared_releases(c, (k - 1) as nat);
    }
}

/// Law: after all tokens derived from a slot are released, both counters
/// return to zero — `n` shared grants followed by `n` shared releases bring
/// an unborrowed slot back to its initial state.
pub proof fn lemma_all_shared_tokens_released(c: Counters, n: nat)
    requires
        unborrowed(c),
    ensures
        after_shared_releases(after_shared_grants(c, n), n) == c,
        unborrowed(after_shared_releases(after_shared_grants(c, n), n)),
{
    lemma_shared_requests_granted(c, n);
    lemma_shared_releases(after_shared_grants(c, n), n);
}

/// Law: releasing the one exclusive token granted on an unborrowed slot
/// returns both counters to zero.
pub proof fn lemma_exclusive_token_released(c: Counters)
    requires
        unborrowed(c),
    ensures
        after_exclusive_release(after_exclusive_grant(c)) == c,
        unborrowed(after_exclusive_release(after_exclusive_grant(c))),
{
}

} // verus!
