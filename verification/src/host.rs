//! The types and calls of `cosmwasm_std` and `cw721` that the registry uses.
//!
//! Nothing in this file is proved. Each declaration says what it takes on
//! trust from the crate it names.

use crate::msg::OwnerQuery;
use cosmwasm_std::{Empty, QuerierWrapper, Response, StdError};
use cw721::{Cw721QueryMsg, OwnerOfResponse};
use vstd::prelude::*;

verus! {

/// `cosmwasm_std::Empty`, the placeholder for "no custom message or query".
#[verifier::external_type_specification]
#[verifier::external_body]
pub struct ExEmpty(Empty);

/// `cosmwasm_std::StdError`. The registry never looks inside one: it only
/// carries it from a failed query to the caller.
#[verifier::external_type_specification]
#[verifier::external_body]
pub struct ExStdError(StdError);

/// `cosmwasm_std::Response`, what an operation hands back to the chain.
#[verifier::external_type_specification]
#[verifier::external_body]
#[verifier::reject_recursive_types(T)]
pub struct ExResponse<T>(Response<T>);

/// The key-value pairs in the field `attributes` of a response, in order.
pub uninterp spec fn response_attributes(response: Response<Empty>) -> Seq<(Seq<char>, Seq<char>)>;

/// The length of the field `messages` of a response.
pub uninterp spec fn response_message_count(response: Response<Empty>) -> nat;

/// Whether an attribute key begins with an underscore. Such keys are reserved,
/// and `Attribute::new` panics on them in a debug build.
pub open spec fn is_reserved_key(key: Seq<char>) -> bool {
    key.len() > 0 && key[0] == '_'
}

/// `Response::new`: a response with no attributes and no messages.
#[verifier::external_body]
pub(crate) fn new_response() -> (response: Response<Empty>)
    ensures
        response_attributes(response) == Seq::<(Seq<char>, Seq<char>)>::empty(),
        response_message_count(response) == 0,
{
    Response::new()
}

/// `Response::add_attribute`: the same response with the pair `(key, value)`
/// appended to its attributes, and its messages untouched.
#[verifier::external_body]
pub(crate) fn add_attribute(response: Response<Empty>, key: &str, value: &str) -> (extended:
    Response<Empty>)
    requires
        !is_reserved_key(key@),
    ensures
        response_attributes(extended) == response_attributes(response).push((key@, value@)),
        response_message_count(extended) == response_message_count(response),
{
    response.add_attribute(key, value)
}

/// The handle through which the chain lets a contract query other contracts.
///
/// It holds a `cosmwasm_std::QuerierWrapper`. Verus cannot take that type's
/// declaration, because of the bound on its parameter, so the handle is opaque
/// to it.
#[verifier::external_body]
pub struct OwnershipOracle<'a> {
    pub querier: QuerierWrapper<'a, Empty>,
}

/// `QuerierWrapper::query_wasm_smart` with `Cw721QueryMsg::OwnerOf`: asks the
/// contract at `query.contract_addr` who owns `query.token_id`, expired
/// approvals left out, and gives back the field `owner` of its answer, or the
/// error of the query.
///
/// Nothing is claimed of the answer: it is whatever the registry says at the
/// time of the call.
#[verifier::external_body]
pub(crate) fn query_owner_of(oracle: &OwnershipOracle<'_>, query: &OwnerQuery) -> (answer: Result<
    String,
    StdError,
>) {
    let msg = Cw721QueryMsg::OwnerOf { token_id: query.token_id.clone(), include_expired: None };
    let response: OwnerOfResponse = oracle.querier.query_wasm_smart(&query.contract_addr, &msg)?;
    Ok(response.owner)
}

} // verus!
