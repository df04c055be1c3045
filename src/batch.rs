use vstd::prelude::*;
use crate::config::Config;
use crate::fetch::{FetchError, WalletBalance};
use crate::rpc::{json_string_of, request_body, request_envelope};

verus! {

/// One balance request of a batch: where to send it, for which address, and
/// its body.
#[derive(Debug, Clone, PartialEq, Eq)]
pub struct FetchRequest {
    pub endpoint: String,
    pub address: String,
    pub body: String,
}

/// One request per configured address, in the configured order, each to the
/// configured endpoint.
pub fn plan_fetches(config: &Config) -> (r: Vec<FetchRequest>)
    ensures
        r@.len() == config.wallets@.len(),
        forall|i: int|
            0 <= i < r@.len() ==> {
                &&& (#[trigger] r@[i]).endpoint == config.rpc_url
                &&& r@[i].address == config.wallets@[i]
                &&& r@[i].body@ == request_envelope(
                    json_string_of(config.wallets@[i]@),
                )
            },
{
    let mut plan: Vec<FetchRequest> = Vec::new();
    let mut i: usize = 0;
    while i < config.wallets.len()
        invariant
            i <= config.wallets@.len(),
            plan@.len() == i,
            forall|j: int|
                0 <= j < i ==> {
                    &&& (#[trigger] plan@[j]).endpoint == config.rpc_url
                    &&& plan@[j].address == config.wallets@[j]
                    &&& plan@[j].body@ == request_envelope(
                        json_string_of(config.wallets@[j]@),
                    )
                },
        decreases config.wallets@.len() - i,
    {
        let address = &config.wallets[i];
        let body = request_body(address.as_str());
        plan.push(FetchRequest { endpoint: config.rpc_url.clone(), address: address.clone(), body });
        i = i + 1;
    }
    plan
}

/// How the task that fetched one address ended.
#[derive(Debug, Clone, PartialEq, Eq)]
pub enum FetchOutcome {
    /// The balance was read.
    Balance(WalletBalance),
    /// The fetch ran and failed.
    FetchFailed(FetchError),
    /// The task itself could not run to completion.
    TaskFailed { cause: String },
}

impl FetchOutcome {
    pub open spec fn is_balance(&self) -> bool {
        self is Balance
    }
}

/// The balances read, in the order of the addresses, and the positions of
/// the addresses whose fetch failed, ascending.
#[derive(Debug, Clone, PartialEq, Eq)]
pub struct Report {
    pub balances: Vec<WalletBalance>,
    pub failures: Vec<usize>,
}

/// The balances among `outcomes`, in their order.
pub open spec fn successes(outcomes: Seq<FetchOutcome>) -> Seq<WalletBalance>
    decreases outcomes.len(),
{
    if outcomes.len() == 0 {
        Seq::empty()
    } else {
        let earlier = successes(outcomes.drop_last());
        match outcomes.last() {
            FetchOutcome::Balance(b) => earlier.push(b),
            _ => earlier,
        }
    }
}

/// The positions of the outcomes that are failures, ascending.
pub open spec fn failed_positions(outcomes: Seq<FetchOutcome>) -> Seq<usize>
    decreases outcomes.len(),
{
    if outcomes.len() == 0 {
        Seq::empty()
    } else {
        let earlier = failed_positions(outcomes.drop_last());
        if outcomes.last().is_balance() {
            earlier
        } else {
            earlier.push((outcomes.len() - 1) as usize)
        }
    }
}

/// The positions of the outcomes that are balances, ascending.
pub open spec fn balance_positions(outcomes: Seq<FetchOutcome>) -> Seq<usize>
    decreases outcomes.len(),
{
    if outcomes.len() == 0 {
        Seq::empty()
    } else {
        let earlier = balance_positions(outcomes.drop_last());
        if outcomes.last().is_balance() {
            earlier.push((outcomes.len() - 1) as usize)
        } else {
            earlier
        }
    }
}

/// Collects the outcomes of a batch, given in the order of the addresses
/// whatever the order in which the fetches completed. No failure stops the
/// collection.
pub fn aggregate(outcomes: &Vec<FetchOutcome>) -> (r: Report)
    ensures
        r.balances@ == successes(outcomes@),
        r.failures@ == failed_positions(outcomes@),
{
    let mut balances: Vec<WalletBalance> = Vec::new();
    let mut failures: Vec<usize> = Vec::new();
    let mut i: usize = 0;
    while i < outcomes.len()
        invariant
            i <= outcomes@.len(),
            balances@ == successes(outcomes@.subrange(0, i as int)),
            failures@ == failed_positions(outcomes@.subrange(0, i as int)),
        decreases outcomes@.len() - i,
    {
        proof {
            assert(outcomes@.subrange(0, i + 1).drop_last() =~= outcomes@.subrange(0, i as int));
        }
        match &outcomes[i] {
            FetchOutcome::Balance(b) => {
                balances.push(WalletBalance { address: b.address.clone(), base_units: b.base_units });
            },
            _ => {
                failures.push(i);
            },
        }
        i = i + 1;
    }
    proof {
        assert(outcomes@.subrange(0, outcomes@.len() as int) =~= outcomes@);
    }
    Report { balances, failures }
}

/// Every failed fetch is reported exactly once, by its position, and no
/// address is lost: each outcome is either a reported balance or a reported
/// failure.
pub proof fn lemma_each_failure_reported_once(outcomes: Seq<FetchOutcome>)
    requires
        outcomes.len() <= usize::MAX,
    ensures
        successes(outcomes).len() + failed_positions(outcomes).len() == outcomes.len(),
        forall|k: int|
            0 <= k < failed_positions(outcomes).len() ==> {
                &&& #[trigger] failed_positions(outcomes)[k] < outcomes.len()
                &&& !outcomes[failed_positions(outcomes)[k] as int].is_balance()
            },
        forall|k1: int, k2: int|
            0 <= k1 < k2 < failed_positions(outcomes).len() ==> #[trigger] failed_positions(
                outcomes,
            )[k1] < #[trigger] failed_positions(outcomes)[k2],
        forall|i: int|
            0 <= i < outcomes.len() && !(#[trigger] outcomes[i]).is_balance() ==> exists|k: int|
                0 <= k < failed_positions(outcomes).len() && failed_positions(outcomes)[k] == i,
    decreases outcomes.len(),
{
    if outcomes.len() > 0 {
        let earlier = outcomes.drop_last();
        lemma_each_failure_reported_once(earlier);
        let n = outcomes.len() - 1;
        assert forall|i: int|
            0 <= i < outcomes.len() && !(#[trigger] outcomes[i]).is_balance() implies exists|k: int|
                0 <= k < failed_positions(outcomes).len() && failed_positions(outcomes)[k] == i by {
            if i < n {
                assert(earlier[i] == outcomes[i]);
                let k = choose|k: int|
                    0 <= k < failed_positions(earlier).len() && failed_positions(earlier)[k] == i;
                assert(failed_positions(outcomes)[k] == i);
            } else {
                assert(failed_positions(outcomes)[failed_positions(earlier).len() as int] == i);
            }
        }
    }
}

/// The report keeps the order of the addresses: its balances are those of
/// ascending positions, each one the balance read at that position, and every
/// balance read is in it.
pub proof fn lemma_balances_in_address_order(outcomes: Seq<FetchOutcome>)
    requires
        outcomes.len() <= usize::MAX,
    ensures
        successes(outcomes).len() == balance_positions(outcomes).len(),
        forall|k: int|
            0 <= k < successes(outcomes).len() ==> {
                &&& #[trigger] balance_positions(outcomes)[k] < outcomes.len()
                &&& outcomes[balance_positions(outcomes)[k] as int] == FetchOutcome::Balance(
                    successes(outcomes)[k],
                )
            },
        forall|k1: int, k2: int|
            0 <= k1 < k2 < balance_positions(outcomes).len() ==> #[trigger] balance_positions(
                outcomes,
            )[k1] < #[trigger] balance_positions(outcomes)[k2],
        forall|i: int|
            0 <= i < outcomes.len() && (#[trigger] outcomes[i]).is_balance() ==> exists|k: int|
                0 <= k < balance_positions(outcomes).len() && balance_positions(outcomes)[k] == i,
    decreases outcomes.len(),
{
    if outcomes.len() > 0 {
        let earlier = outcomes.drop_last();
        lemma_balances_in_address_order(earlier);
        let n = outcomes.len() - 1;
        assert forall|k: int| 0 <= k < successes(outcomes).len() implies {
            &&& #[trigger] balance_positions(outcomes)[k] < outcomes.len()
            &&& outcomes[balance_positions(outcomes)[k] as int] == FetchOutcome::Balance(
                successes(outcomes)[k],
            )
        } by {
            if k < successes(earlier).len() {
                assert(earlier[balance_positions(earlier)[k] as int] == outcomes[balance_positions(
                    earlier,
                )[k] as int]);
            }
        }
        assert forall|i: int|
            0 <= i < outcomes.len() && (#[trigger] outcomes[i]).is_balance() implies exists|k: int|
                0 <= k < balance_positions(outcomes).len() && balance_positions(outcomes)[k] == i by {
            if i < n {
                assert(earlier[i] == outcomes[i]);
                let k = choose|k: int|
                    0 <= k < balance_positions(earlier).len() && balance_positions(earlier)[k] == i;
                assert(balance_positions(outcomes)[k] == i);
            } else {
                assert(balance_positions(outcomes)[balance_positions(earlier).len() as int] == i);
            }
        }
    }
}

} // verus!
