//! The entry points of the registry: set-up, changes, and queries.

use crate::error::ContractError;
use crate::host::{add_attribute, new_response, response_attributes, OwnershipOracle};
use crate::model::{
    after_instantiate, config_update_agrees, instantiate_attributes, notification_update_agrees,
    optional_text, query_answer, reports,
};
use crate::msg::{ExecuteMsg, InstantiateMsg, QueryMsg, QueryResponse, QueryResponseView};
use crate::state::{Config, Store};
use cosmwasm_std::{Response, StdError};
use vstd::prelude::*;

pub mod execute;
pub mod query;

verus! {

/// Sets the registry up: `sender` becomes the owner of the configuration, and
/// the message names the ownership registry. Whatever configuration there was
/// is replaced; this never fails.
pub fn instantiate(store: &mut Store, sender: String, msg: InstantiateMsg) -> (result: Result<
    Response,
    ContractError,
>)
    ensures
        final(store)@ == after_instantiate(old(store)@, sender@, msg.dens_addr@),
        reports(result, None, instantiate_attributes(sender@, msg.dens_addr@)),
{
    proof {
        reveal_strlit("method");
        reveal_strlit("owner");
        reveal_strlit("dens_addr");
    }
    let response = add_attribute(new_response(), "method", "instantiate");
    let response = add_attribute(response, "owner", sender.as_str());
    let response = add_attribute(response, "dens_addr", msg.dens_addr.as_str());
    assert(response_attributes(response) =~= instantiate_attributes(sender@, msg.dens_addr@));
    store.save_config(Config { owner: sender, dens_addr: msg.dens_addr });
    Ok(response)
}

/// Carries out the change that `msg` asks for on behalf of `sender`: see
/// [`execute::update_notification`] and [`execute::update_config`].
pub fn execute(
    store: &mut Store,
    oracle: &OwnershipOracle<'_>,
    sender: String,
    msg: ExecuteMsg,
) -> (result: Result<Response, ContractError>)
    ensures
        match msg {
            ExecuteMsg::UpdateNotifications { token_id, notifications } => exists|
                answer: Result<Seq<char>, StdError>,
            |
                notification_update_agrees(
                    old(store)@,
                    answer,
                    sender@,
                    token_id@,
                    notifications.deep_view(),
                    final(store)@,
                    result,
                ),
            ExecuteMsg::UpdateConfig { owner, dens_addr } => config_update_agrees(
                old(store)@,
                sender@,
                optional_text(owner),
                optional_text(dens_addr),
                final(store)@,
                result,
            ),
        },
        result is Err ==> final(store)@ == old(store)@,
{
    match msg {
        ExecuteMsg::UpdateNotifications { token_id, notifications } => {
            execute::update_notification(store, oracle, sender, token_id, notifications)
        },
        ExecuteMsg::UpdateConfig { owner, dens_addr } => {
            execute::update_config(store, sender, owner, dens_addr)
        },
    }
}

/// Answers a question about what is stored. The configuration is `NotFound`
/// before the set-up; the list of a token that never got one is empty, not an
/// error.
pub fn query(store: &Store, msg: QueryMsg) -> (result: Result<QueryResponse, ContractError>)
    ensures
        match result {
            Ok(response) => query_answer(store@, msg) == Ok::<QueryResponseView, ContractError>(
                response@,
            ),
            Err(error) => query_answer(store@, msg) == Err::<QueryResponseView, ContractError>(
                error,
            ),
        },
{
    match msg {
        QueryMsg::GetConfig {  } => match query::config(store) {
            Ok(config) => Ok(QueryResponse::Config(config)),
            Err(error) => Err(error),
        },
        QueryMsg::GetNotifications { token_id } => {
            let list = match query::notifications(store, token_id) {
                Ok(list) => list,
                Err(_) => Vec::new(),
            };
            assert(list.deep_view() =~= store@.notifications_of(token_id@));
            Ok(QueryResponse::Notifications(list))
        },
    }
}

} // verus!
