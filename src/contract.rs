//! Custody of the tree: one borrower at a time, against a stake of tokens.
use vstd::prelude::*;

use crate::decimal::{decimal, decimal_string};
use crate::error::ContractError;
use crate::response::{BankMsg, Coin, Response};

verus! {

/// The denomination that a stake must be paid in.
pub open spec fn stake_denom() -> Seq<char> {
    "token"@
}

/// The loan record: who holds the tree and how much stake is escrowed.
#[derive(Clone, Debug)]
pub struct State {
    pub borrower: Option<String>,
    pub loan_amount: u128,
    pub tree_available: bool,
}

/// `who` is the current borrower of `s`.
pub open spec fn is_borrower(s: State, who: Seq<char>) -> bool {
    match s.borrower {
        Some(b) => b@ == who,
        None => false,
    }
}

/// Some attached coin is of the stake denomination and reaches `amount`.
pub open spec fn covers(funds: Seq<Coin>, amount: u128) -> bool {
    exists|i: int| 0 <= i < funds.len() && #[trigger] funds[i].denom@ == stake_denom()
        && funds[i].amount >= amount
}

impl State {
    /// The tree is held exactly when someone borrowed it.
    pub open spec fn holds_custody(self) -> bool {
        self.tree_available == (self.borrower is None)
    }

    /// A stake is escrowed exactly while the tree is lent out.
    pub open spec fn holds_stake(self) -> bool {
        (self.loan_amount == 0) == self.tree_available
    }

    /// Both invariants of a reachable loan record.
    pub open spec fn wf(self) -> bool {
        self.holds_custody() && self.holds_stake()
    }

    /// The record at deployment: nobody holds the tree.
    pub fn new() -> (r: State)
        ensures
            r.borrower is None,
            r.loan_amount == 0,
            r.tree_available,
            r.wf(),
    {
        State { borrower: None, loan_amount: 0, tree_available: true }
    }
}

/// Whether some coin of `funds` is of the stake denomination and reaches `amount`.
pub fn has_stake(funds: &Vec<Coin>, amount: u128) -> (r: bool)
    ensures
        r == covers(funds@, amount),
{
    let denom = "token".to_string();
    let mut i: usize = 0;
    while i < funds.len()
        invariant
            0 <= i <= funds.len(),
            denom@ == stake_denom(),
            forall|j: int|
                0 <= j < i ==> !(#[trigger] funds@[j].denom@ == stake_denom() && funds@[j].amount
                    >= amount),
        decreases funds.len() - i,
    {
        if funds[i].denom == denom && funds[i].amount >= amount {
            return true;
        }
        i = i + 1;
    }
    false
}

/// Lends the tree to `sender`, who attached `funds` as stake for `loan_amount`.
///
/// Refused with `ResourceUnavailable` while the tree is lent out, whoever asks
/// and whatever is attached; else with `InsufficientFunds` unless some
/// attached coin of the stake denomination reaches `loan_amount`; else with
/// `ZeroLoan` for a zero `loan_amount`, as a loan must escrow a positive stake.
/// A refusal leaves the state as it was.
pub fn borrow_tree(state: &mut State, sender: String, funds: &Vec<Coin>, loan_amount: u128) -> (r:
    Result<Response, ContractError>)
    ensures
        !old(state).tree_available ==> r == Err::<Response, ContractError>(
            ContractError::ResourceUnavailable,
        ),
        old(state).tree_available && !covers(funds@, loan_amount) ==> r == Err::<
            Response,
            ContractError,
        >(ContractError::InsufficientFunds { expected: loan_amount }),
        old(state).tree_available && covers(funds@, loan_amount) && loan_amount == 0 ==> r
            == Err::<Response, ContractError>(ContractError::ZeroLoan),
        r is Err ==> *final(state) == *old(state),
        r is Ok <==> old(state).tree_available && loan_amount > 0 && covers(funds@, loan_amount),
        r is Ok ==> {
            &&& final(state).borrower == Some(sender)
            &&& final(state).loan_amount == loan_amount
            &&& !final(state).tree_available
            &&& r->Ok_0.attrs() == seq![
                ("action"@, "borrow_tree"@),
                ("borrower"@, sender@),
                ("loan_amount"@, decimal(loan_amount as nat)),
            ]
            &&& r->Ok_0.transfers().len() == 0
        },
        old(state).holds_custody() ==> final(state).holds_custody(),
        old(state).wf() ==> final(state).wf(),
{
    if !state.tree_available {
        return Err(ContractError::ResourceUnavailable);
    }
    if !has_stake(funds, loan_amount) {
        return Err(ContractError::InsufficientFunds { expected: loan_amount });
    }
    if loan_amount == 0 {
        return Err(ContractError::ZeroLoan);
    }
    let shown = sender.clone();
    state.borrower = Some(sender);
    state.loan_amount = loan_amount;
    state.tree_available = false;
    let res = Response::new().add_attribute("action", "borrow_tree".to_string()).add_attribute(
        "borrower",
        shown,
    ).add_attribute("loan_amount", decimal_string(loan_amount));
    assert(res.attrs() =~= seq![
        ("action"@, "borrow_tree"@),
        ("borrower"@, sender@),
        ("loan_amount"@, decimal(loan_amount as nat)),
    ]);
    Ok(res)
}

/// Takes the tree back from `sender` and refunds the escrowed stake to them.
///
/// Refused with `NotBorrower` unless `sender` is the current borrower, and
/// then with `ResourceNotBorrowed` if the tree is not lent out. On success the
/// one transfer and the `refund_amount` attribute carry the stake as it was
/// before the reset.
pub fn return_tree(state: &mut State, sender: &String) -> (r: Result<Response, ContractError>)
    ensures
        !is_borrower(*old(state), sender@) ==> r == Err::<Response, ContractError>(
            ContractError::NotBorrower,
        ),
        is_borrower(*old(state), sender@) && old(state).tree_available ==> r == Err::<
            Response,
            ContractError,
        >(ContractError::ResourceNotBorrowed),
        r is Err ==> *final(state) == *old(state),
        r is Ok <==> is_borrower(*old(state), sender@) && !old(state).tree_available,
        r is Ok ==> {
            &&& final(state).borrower is None
            &&& final(state).loan_amount == 0
            &&& final(state).tree_available
            &&& r->Ok_0.attrs() == seq![
                ("action"@, "return_tree"@),
                ("refund_amount"@, decimal(old(state).loan_amount as nat)),
            ]
            &&& r->Ok_0.transfers() == seq![
                (sender@, stake_denom(), old(state).loan_amount as nat),
            ]
        },
        old(state).holds_custody() ==> final(state).holds_custody(),
        old(state).wf() ==> final(state).wf(),
{
    let is_holder = match &state.borrower {
        Some(b) => *b == *sender,
        None => false,
    };
    if !is_holder {
        return Err(ContractError::NotBorrower);
    }
    if state.tree_available {
        return Err(ContractError::ResourceNotBorrowed);
    }
    let refund = state.loan_amount;
    let refund_msg = BankMsg {
        to_address: sender.clone(),
        amount: Coin { denom: "token".to_string(), amount: refund },
    };
    state.borrower = None;
    state.loan_amount = 0;
    state.tree_available = true;
    let res = Response::new().add_attribute("action", "return_tree".to_string()).add_attribute(
        "refund_amount",
        decimal_string(refund),
    ).add_message(refund_msg);
    assert(res.attrs() =~= seq![
        ("action"@, "return_tree"@),
        ("refund_amount"@, decimal(refund as nat)),
    ]);
    assert(res.transfers() =~= seq![(sender@, stake_denom(), refund as nat)]);
    Ok(res)
}

} // verus!
