//! The two guarded changes: of the configuration, and of a token's list.

use crate::error::ContractError;
use crate::host::{
    add_attribute, new_response, query_owner_of, response_attributes, OwnershipOracle,
};
use crate::model::{
    after_ownership_answer, answer_text, config_update_agrees, config_update_attributes,
    notification_update_agrees, notification_update_attributes, optional_text, ownership_refusal,
    patched_config, reports,
};
use crate::msg::OwnerQuery;
use crate::state::{Config, Notification, Store};
use crate::text::render_list;
use cosmwasm_std::{Response, StdError};
use vstd::prelude::*;

verus! {

/// Replaces the list of `token_id` by `notifications`, if `sender` owns the
/// token.
///
/// Who owns it is asked of the registry that the configuration names, at the
/// time of the call and every time anew. What that registry answers is not
/// known beforehand, so the contract says: there is an answer for which the
/// store and the result are those that [`apply_ownership_answer`] gives.
/// Without a configuration the request is refused with `NotFound` and nobody
/// is asked.
pub fn update_notification(
    store: &mut Store,
    oracle: &OwnershipOracle<'_>,
    sender: String,
    token_id: String,
    notifications: Vec<Notification>,
) -> (result: Result<Response, ContractError>)
    ensures
        exists|answer: Result<Seq<char>, StdError>|
            notification_update_agrees(
                old(store)@,
                answer,
                sender@,
                token_id@,
                notifications.deep_view(),
                final(store)@,
                result,
            ),
        old(store)@.config is None ==> result == Err::<Response, ContractError>(
            ContractError::NotFound {  },
        ),
        result is Err ==> final(store)@ == old(store)@,
        result is Ok ==> final(store)@.config == old(store)@.config && final(store)@.notifications
            == old(store)@.notifications.insert(token_id@, notifications.deep_view()),
{
    let query = match owner_query(store, &token_id) {
        Ok(query) => query,
        Err(error) => {
            assert(notification_update_agrees(
                old(store)@,
                Ok(sender@),
                sender@,
                token_id@,
                notifications.deep_view(),
                store@,
                Err(error),
            ));
            return Err(error);
        },
    };
    let answer = query_owner_of(oracle, &query);
    let ghost witness = answer_text(answer);
    let result = apply_ownership_answer(store, answer, sender, token_id, notifications);
    assert(notification_update_agrees(
        old(store)@,
        witness,
        sender@,
        token_id@,
        notifications.deep_view(),
        store@,
        result,
    ));
    result
}

/// The question to put to the ownership registry about `token_id`. It goes to
/// the registry that the configuration names, never to one that a sender
/// names; without a configuration there is nobody to ask.
pub fn owner_query(store: &Store, token_id: &String) -> (result: Result<OwnerQuery, ContractError>)
    ensures
        match result {
            Ok(query) => store@.config is Some && query.contract_addr@
                == store@.config.unwrap().dens_addr && query.token_id@ == token_id@,
            Err(error) => store@.config is None && error == (ContractError::NotFound {  }),
        },
{
    match store.load_config() {
        Ok(config) => Ok(
            OwnerQuery { contract_addr: config.dens_addr, token_id: token_id.clone() },
        ),
        Err(error) => Err(error),
    }
}

/// What follows the answer of the ownership registry: a failed query is
/// passed on as it is, a sender whom the registry does not name as the owner is
/// refused, and for the owner the list of `token_id` is replaced by
/// `notifications`.
pub fn apply_ownership_answer(
    store: &mut Store,
    answer: Result<String, StdError>,
    sender: String,
    token_id: String,
    notifications: Vec<Notification>,
) -> (result: Result<Response, ContractError>)
    ensures
        final(store)@ == after_ownership_answer(
            old(store)@,
            answer_text(answer),
            sender@,
            token_id@,
            notifications.deep_view(),
        ),
        reports(
            result,
            ownership_refusal(answer_text(answer), sender@),
            notification_update_attributes(token_id@, notifications.deep_view()),
        ),
{
    let owner = match answer {
        Ok(owner) => owner,
        Err(error) => {
            return Err(ContractError::Std(error));
        },
    };
    if !(owner == sender) {
        return Err(ContractError::Unauthorized {  });
    }
    let listed = render_list(&notifications);
    proof {
        reveal_strlit("action");
        reveal_strlit("token_id");
        reveal_strlit("notifications");
    }
    let response = add_attribute(new_response(), "action", "update_notification");
    let response = add_attribute(response, "token_id", token_id.as_str());
    let response = add_attribute(response, "notifications", listed.as_str());
    assert(response_attributes(response) =~= notification_update_attributes(
        token_id@,
        notifications.deep_view(),
    ));
    store.save_notifications(token_id, notifications);
    Ok(response)
}

/// Replaces the fields of the configuration that are given, if `sender` owns
/// the configuration. A sender who does not is refused, and nothing changes.
pub fn update_config(
    store: &mut Store,
    sender: String,
    new_owner: Option<String>,
    new_dens_addr: Option<String>,
) -> (result: Result<Response, ContractError>)
    ensures
        config_update_agrees(
            old(store)@,
            sender@,
            optional_text(new_owner),
            optional_text(new_dens_addr),
            final(store)@,
            result,
        ),
{
    let config = match store.load_config() {
        Ok(config) => config,
        Err(error) => {
            return Err(error);
        },
    };
    let config = match apply_config_patch(config, &sender, new_owner, new_dens_addr) {
        Ok(config) => config,
        Err(error) => {
            return Err(error);
        },
    };
    proof {
        reveal_strlit("action");
        reveal_strlit("dens_addr");
        reveal_strlit("owner");
    }
    let response = add_attribute(new_response(), "action", "update_config");
    let response = add_attribute(response, "dens_addr", config.dens_addr.as_str());
    let response = add_attribute(response, "owner", config.owner.as_str());
    assert(response_attributes(response) =~= config_update_attributes(config@));
    store.save_config(config);
    Ok(response)
}

/// The configuration that a change asked for by `sender` makes of `config`:
/// each field that is given is replaced, the others are kept. A sender who
/// does not own `config` is refused.
pub fn apply_config_patch(
    config: Config,
    sender: &String,
    new_owner: Option<String>,
    new_dens_addr: Option<String>,
) -> (result: Result<Config, ContractError>)
    ensures
        match result {
            Ok(patched) => sender@ == config@.owner && patched@ == patched_config(
                config@,
                optional_text(new_owner),
                optional_text(new_dens_addr),
            ),
            Err(error) => sender@ != config@.owner && error == (ContractError::Unauthorized {  }),
        },
{
    let mut config = config;
    if !(*sender == config.owner) {
        return Err(ContractError::Unauthorized {  });
    }
    if let Some(owner) = new_owner {
        config.owner = owner;
    }
    if let Some(dens_addr) = new_dens_addr {
        config.dens_addr = dens_addr;
    }
    Ok(config)
}

} // verus!
