//! Reading what is stored.

use crate::error::ContractError;
use crate::state::{Config, Notification, Store};
use vstd::prelude::*;

verus! {

/// The configuration, or `NotFound` before the registry has been set up.
pub fn config(store: &Store) -> (result: Result<Config, ContractError>)
    ensures
        match result {
            Ok(config) => store@.config == Some(config@),
            Err(error) => store@.config is None && error == (ContractError::NotFound {  }),
        },
{
    store.load_config()
}

/// The list of `token_id` as it was last saved, or `NotFound` for a token
/// that never got one.
pub fn notifications(store: &Store, token_id: String) -> (result: Result<
    Vec<Notification>,
    ContractError,
>)
    ensures
        match result {
            Ok(list) => store@.notifications.contains_key(token_id@) && list.deep_view()
                == store@.notifications[token_id@],
            Err(error) => !store@.notifications.contains_key(token_id@) && error
                == (ContractError::NotFound {  }),
        },
{
    store.load_notifications(token_id.as_str())
}

} // verus!
