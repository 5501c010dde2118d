//! The contribution ledger: an admin credits accounts; the running total is
//! the sum of all account amounts.
use vstd::prelude::*;

use crate::decimal::{decimal, decimal_string};
use crate::error::ContractError;
use crate::response::Response;

verus! {

/// The amount credited to one account.
#[derive(Clone, Debug)]
pub struct ContributionToken {
    pub owner: String,
    pub amount: u128,
}

/// The ledger's settings and running total.
#[derive(Clone, Debug)]
pub struct State {
    pub admin: String,
    pub total_contributions: u128,
}

/// The requests that the ledger is addressed with. Only issuance is served;
/// a transfer between accounts is declared and not carried out.
#[derive(Clone, Debug)]
pub enum ExecuteMsg {
    IssueContribution { recipient: String, amount: u128 },
    TransferContribution { recipient: String, amount: u128 },
}

/// The sum of the amounts of `s`.
pub open spec fn sum_amounts(s: Seq<ContributionToken>) -> int
    decreases s.len(),
{
    if s.len() == 0 {
        0
    } else {
        sum_amounts(s.drop_last()) + s.last().amount
    }
}

/// The amount credited to `who` in `s`, zero where `who` has no account.
pub open spec fn balance(s: Seq<ContributionToken>, who: Seq<char>) -> int
    decreases s.len(),
{
    if s.len() == 0 {
        0
    } else if s.last().owner@ == who {
        s.last().amount as int
    } else {
        balance(s.drop_last(), who)
    }
}

/// No two accounts of `s` have the same owner.
pub open spec fn owners_unique(s: Seq<ContributionToken>) -> bool {
    forall|i: int, j: int|
        0 <= i < s.len() && 0 <= j < s.len() && i != j ==> #[trigger] s[i].owner@ != #[trigger] s[j].owner@
}

/// `who` owns an account of `s`.
pub open spec fn has_account(s: Seq<ContributionToken>, who: Seq<char>) -> bool {
    exists|i: int| 0 <= i < s.len() && #[trigger] s[i].owner@ == who
}

/// A reachable ledger: one account per owner, and the total is their sum.
pub open spec fn ledger_wf(state: State, accounts: Seq<ContributionToken>) -> bool {
    &&& owners_unique(accounts)
    &&& state.total_contributions == sum_amounts(accounts)
}

impl State {
    /// The ledger at deployment: `admin` authorizes issuance; nothing is credited.
    pub fn new(admin: String) -> (r: State)
        ensures
            r.admin == admin,
            r.total_contributions == 0,
            ledger_wf(r, Seq::empty()),
    {
        State { admin, total_contributions: 0 }
    }
}

proof fn lemma_sum_update(s: Seq<ContributionToken>, i: int, v: ContributionToken)
    requires
        0 <= i < s.len(),
    ensures
        sum_amounts(s.update(i, v)) == sum_amounts(s) - s[i].amount + v.amount,
    decreases s.len(),
{
    let t = s.update(i, v);
    if i == s.len() - 1 {
        assert(t.drop_last() =~= s.drop_last());
    } else {
        assert(t.drop_last() =~= s.drop_last().update(i, v));
        lemma_sum_update(s.drop_last(), i, v);
    }
}

proof fn lemma_amount_le_sum(s: Seq<ContributionToken>, i: int)
    requires
        0 <= i < s.len(),
    ensures
        s[i].amount <= sum_amounts(s),
    decreases s.len(),
{
    lemma_sum_nonneg(s.drop_last());
    if i < s.len() - 1 {
        lemma_amount_le_sum(s.drop_last(), i);
    }
}

proof fn lemma_sum_nonneg(s: Seq<ContributionToken>)
    ensures
        sum_amounts(s) >= 0,
    decreases s.len(),
{
    if s.len() > 0 {
        lemma_sum_nonneg(s.drop_last());
    }
}

proof fn lemma_balance_absent(s: Seq<ContributionToken>, who: Seq<char>)
    requires
        forall|j: int| 0 <= j < s.len() ==> #[trigger] s[j].owner@ != who,
    ensures
        balance(s, who) == 0,
    decreases s.len(),
{
    if s.len() > 0 {
        lemma_balance_absent(s.drop_last(), who);
    }
}

proof fn lemma_balance_update(s: Seq<ContributionToken>, i: int, v: ContributionToken, who: Seq<char>)
    requires
        0 <= i < s.len(),
        owners_unique(s),
        v.owner@ == s[i].owner@,
    ensures
        balance(s.update(i, v), who) == if who == v.owner@ {
            v.amount as int
        } else {
            balance(s, who)
        },
    decreases s.len(),
{
    let t = s.update(i, v);
    if i == s.len() - 1 {
        assert(t.drop_last() =~= s.drop_last());
    } else {
        assert(t.drop_last() =~= s.drop_last().update(i, v));
        assert(s.last() == s[s.len() - 1]);
        assert(s.last().owner@ != v.owner@);
        lemma_balance_update(s.drop_last(), i, v, who);
    }
}

/// Credits `amount` to the account of `recipient`, opening it at zero where
/// it does not exist, and adds `amount` to the total.
///
/// Refused with `Unauthorized` unless `sender` is the admin, and then with
/// `Overflow` where the total would pass the largest `u128`; a refusal changes
/// neither the total nor any account.
pub fn execute_issue_contribution(
    state: &mut State,
    accounts: &mut Vec<ContributionToken>,
    sender: &String,
    recipient: String,
    amount: u128,
) -> (r: Result<Response, ContractError>)
    requires
        ledger_wf(*old(state), old(accounts)@),
    ensures
        ledger_wf(*final(state), final(accounts)@),
        final(state).admin == old(state).admin,
        r is Ok <==> sender@ == old(state).admin@ && old(state).total_contributions + amount
            <= u128::MAX,
        sender@ != old(state).admin@ ==> r == Err::<Response, ContractError>(
            ContractError::Unauthorized,
        ),
        sender@ == old(state).admin@ && old(state).total_contributions + amount > u128::MAX ==> r
            == Err::<Response, ContractError>(ContractError::Overflow),
        r is Err ==> *final(state) == *old(state) && final(accounts)@ == old(accounts)@,
        r is Ok ==> {
            &&& final(state).total_contributions == old(state).total_contributions + amount
            &&& has_account(old(accounts)@, recipient@) ==> exists|i: int|
                0 <= i < old(accounts)@.len() && #[trigger] old(accounts)@[i].owner@ == recipient@
                    && final(accounts)@ == old(accounts)@.update(
                    i,
                    (ContributionToken {
                        owner: old(accounts)@[i].owner,
                        amount: (old(accounts)@[i].amount + amount) as u128,
                    }),
                )
            &&& !has_account(old(accounts)@, recipient@) ==> final(accounts)@ == old(
                accounts,
            )@.push((ContributionToken { owner: recipient, amount }))
            &&& forall|who: Seq<char>|
                #[trigger] balance(final(accounts)@, who) == balance(old(accounts)@, who) + if who
                    == recipient@ {
                    amount as int
                } else {
                    0
                }
            &&& r->Ok_0.attrs() == seq![
                ("action"@, "issue_contribution"@),
                ("recipient"@, recipient@),
                ("amount"@, decimal(amount as nat)),
            ]
            &&& r->Ok_0.transfers().len() == 0
        },
{
    if *sender != state.admin {
        return Err(ContractError::Unauthorized);
    }
    if amount > u128::MAX - state.total_contributions {
        return Err(ContractError::Overflow);
    }
    let ghost before = accounts@;
    let mut i: usize = 0;
    while i < accounts.len()
        invariant
            0 <= i <= accounts.len(),
            accounts@ == before,
            forall|j: int| 0 <= j < i ==> #[trigger] accounts@[j].owner@ != recipient@,
        ensures
            0 <= i <= accounts.len(),
            accounts@ == before,
            forall|j: int| 0 <= j < i ==> #[trigger] accounts@[j].owner@ != recipient@,
            i < accounts.len() ==> accounts@[i as int].owner@ == recipient@,
        decreases accounts.len() - i,
    {
        if accounts[i].owner == recipient {
            break;
        }
        i = i + 1;
    }
    if i < accounts.len() {
        proof {
            lemma_amount_le_sum(before, i as int);
        }
        let credited = ContributionToken {
            owner: accounts[i].owner.clone(),
            amount: accounts[i].amount + amount,
        };
        proof {
            lemma_sum_update(before, i as int, credited);
            assert forall|who: Seq<char>|
                #[trigger] balance(before.update(i as int, credited), who) == balance(before, who)
                    + if who == recipient@ {
                    amount as int
                } else {
                    0
                } by {
                lemma_balance_update(before, i as int, credited, who);
                lemma_balance_update(before, i as int, before[i as int], who);
                assert(before.update(i as int, before[i as int]) =~= before);
            }
        }
        accounts.set(i, credited);
    } else {
        accounts.push(ContributionToken { owner: recipient.clone(), amount });
        proof {
            assert(accounts@.drop_last() =~= before);
            assert forall|who: Seq<char>|
                #[trigger] balance(accounts@, who) == balance(before, who) + if who == recipient@ {
                    amount as int
                } else {
                    0
                } by {
                if who == recipient@ {
                    lemma_balance_absent(before, who);
                }
            }
        }
    }
    state.total_contributions = state.total_contributions + amount;
    let res = Response::new().add_attribute("action", "issue_contribution".to_string()).add_attribute(
        "recipient",
        recipient,
    ).add_attribute("amount", decimal_string(amount));
    Ok(res)
}

} // verus!
