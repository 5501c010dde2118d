//! A placeholder operation that only reports itself.
use vstd::prelude::*;

use crate::error::ContractError;
use crate::response::Response;

verus! {

/// Succeeds with the single attribute `action = helper` and changes nothing.
pub fn execute_helper() -> (r: Result<Response, ContractError>)
    ensures
        r is Ok,
        r->Ok_0.attrs() == seq![("action"@, "helper"@)],
        r->Ok_0.transfers().len() == 0,
{
    let res = Response::new().add_attribute("action", "helper".to_string());
    assert(res.attrs() =~= seq![("action"@, "helper"@)]);
    Ok(res)
}

} // verus!
