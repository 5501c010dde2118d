use tree_loan::contribution_token::{execute_issue_contribution, ContributionToken, State};
use tree_loan::error::ContractError;

fn balance(accounts: &[ContributionToken], who: &str) -> u128 {
    accounts.iter().find(|a| a.owner == who).map(|a| a.amount).unwrap_or(0)
}

fn issue(
    state: &mut State,
    accounts: &mut Vec<ContributionToken>,
    sender: &str,
    recipient: &str,
    amount: u128,
) -> Result<tree_loan::response::Response, ContractError> {
    execute_issue_contribution(state, accounts, &sender.to_string(), recipient.to_string(), amount)
}

#[test]
fn scenario_admin_issues_twice() {
    let mut state = State::new("root".to_string());
    let mut accounts = Vec::new();
    assert_eq!(state.total_contributions, 0);

    let res = issue(&mut state, &mut accounts, "root", "carol", 50).unwrap();
    assert_eq!(balance(&accounts, "carol"), 50);
    assert_eq!(state.total_contributions, 50);
    assert_eq!(res.attributes[0].key, "action");
    assert_eq!(res.attributes[0].value, "issue_contribution");
    assert_eq!(res.attributes[1].key, "recipient");
    assert_eq!(res.attributes[1].value, "carol");
    assert_eq!(res.attributes[2].key, "amount");
    assert_eq!(res.attributes[2].value, "50");

    issue(&mut state, &mut accounts, "root", "carol", 30).unwrap();
    assert_eq!(balance(&accounts, "carol"), 80);
    assert_eq!(state.total_contributions, 80);
    assert_eq!(accounts.len(), 1);
}

#[test]
fn scenario_non_admin_unauthorized() {
    let mut state = State::new("root".to_string());
    let mut accounts = Vec::new();
    issue(&mut state, &mut accounts, "root", "carol", 50).unwrap();
    issue(&mut state, &mut accounts, "root", "carol", 30).unwrap();

    let res = issue(&mut state, &mut accounts, "carol", "dave", 10);
    assert_eq!(res.unwrap_err(), ContractError::Unauthorized);
    assert_eq!(state.total_contributions, 80);
    assert_eq!(balance(&accounts, "dave"), 0);
    assert_eq!(balance(&accounts, "carol"), 80);
    assert_eq!(accounts.len(), 1);
}

#[test]
fn non_admin_never_changes_the_ledger() {
    let mut state = State::new("root".to_string());
    let mut accounts = vec![ContributionToken { owner: "x".to_string(), amount: 3 }];
    state.total_contributions = 3;
    for sender in ["x", "Root", "", "root "] {
        let res = issue(&mut state, &mut accounts, sender, "x", 9);
        assert_eq!(res.unwrap_err(), ContractError::Unauthorized);
        assert_eq!(state.total_contributions, 3);
        assert_eq!(accounts.len(), 1);
        assert_eq!(accounts[0].amount, 3);
    }
}

#[test]
fn total_is_sum_of_accounts() {
    let mut state = State::new("root".to_string());
    let mut accounts = Vec::new();
    for (who, amount) in [("a", 1u128), ("b", 20), ("a", 300), ("c", 0), ("b", 4000)] {
        issue(&mut state, &mut accounts, "root", who, amount).unwrap();
        let sum: u128 = accounts.iter().map(|a| a.amount).sum();
        assert_eq!(state.total_contributions, sum);
    }
    assert_eq!(balance(&accounts, "a"), 301);
    assert_eq!(balance(&accounts, "b"), 4020);
    assert_eq!(balance(&accounts, "c"), 0);
    assert_eq!(accounts.len(), 3);
}

#[test]
fn zero_issue_opens_account() {
    let mut state = State::new("root".to_string());
    let mut accounts = Vec::new();
    issue(&mut state, &mut accounts, "root", "new", 0).unwrap();
    assert_eq!(accounts.len(), 1);
    assert_eq!(accounts[0].owner, "new");
    assert_eq!(accounts[0].amount, 0);
    assert_eq!(state.total_contributions, 0);
}

#[test]
fn issue_touches_only_the_recipient() {
    let mut state = State::new("root".to_string());
    let mut accounts = Vec::new();
    issue(&mut state, &mut accounts, "root", "a", 0).unwrap();
    issue(&mut state, &mut accounts, "root", "b", 7).unwrap();
    issue(&mut state, &mut accounts, "root", "c", 0).unwrap();
    issue(&mut state, &mut accounts, "root", "b", 5).unwrap();
    let owners: Vec<&str> = accounts.iter().map(|a| a.owner.as_str()).collect();
    assert_eq!(owners, vec!["a", "b", "c"]);
    let amounts: Vec<u128> = accounts.iter().map(|a| a.amount).collect();
    assert_eq!(amounts, vec![0, 12, 0]);
    assert_eq!(state.total_contributions, 12);
}

#[test]
fn non_admin_large_amount_is_unauthorized() {
    let mut state = State::new("root".to_string());
    let mut accounts = vec![ContributionToken { owner: "x".to_string(), amount: u128::MAX }];
    state.total_contributions = u128::MAX;
    let res = issue(&mut state, &mut accounts, "x", "x", u128::MAX);
    assert_eq!(res.unwrap_err(), ContractError::Unauthorized);
    assert_eq!(state.total_contributions, u128::MAX);
    assert_eq!(accounts[0].amount, u128::MAX);
}

#[test]
fn admin_overflow_is_refused() {
    let mut state = State::new("root".to_string());
    let mut accounts = Vec::new();
    issue(&mut state, &mut accounts, "root", "a", u128::MAX - 1).unwrap();
    let res = issue(&mut state, &mut accounts, "root", "b", 2);
    assert_eq!(res.unwrap_err(), ContractError::Overflow);
    assert_eq!(state.total_contributions, u128::MAX - 1);
    assert_eq!(accounts.len(), 1);
    issue(&mut state, &mut accounts, "root", "b", 1).unwrap();
    assert_eq!(state.total_contributions, u128::MAX);
    assert_eq!(accounts[1].amount, 1);
}
