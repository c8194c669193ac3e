//! The registry as mathematics: what the store holds, and what each operation
//! makes of it.
//!
//! An operation either goes through or is refused. For each one this file
//! gives the reason for which it is refused, if any, and the store that it
//! leaves; a refused operation leaves the store as it found it.

use crate::error::ContractError;
use crate::host::{response_attributes, response_message_count};
use crate::msg::{QueryMsg, QueryResponseView};
use crate::state::{ConfigView, NotificationView};
use crate::text::list_text;
use cosmwasm_std::{Empty, Response, StdError};
use vstd::prelude::*;

verus! {

/// What a store holds: the configuration, if one has been saved, and the list
/// of each token that has one.
pub struct StoreView {
    pub config: Option<ConfigView>,
    pub notifications: Map<Seq<char>, Seq<NotificationView>>,
}

impl StoreView {
    /// The store before anything has been saved.
    pub open spec fn empty() -> StoreView {
        StoreView { config: None, notifications: Map::empty() }
    }

    /// The list of `token_id`, which is empty for a token that has none.
    pub open spec fn notifications_of(self, token_id: Seq<char>) -> Seq<NotificationView> {
        if self.notifications.contains_key(token_id) {
            self.notifications[token_id]
        } else {
            Seq::empty()
        }
    }
}

/// The text of a string that may be absent.
pub open spec fn optional_text(text: Option<String>) -> Option<Seq<char>> {
    match text {
        Some(text) => Some(text@),
        None => None,
    }
}

/// The answer of the ownership registry, with the owner as text.
pub open spec fn answer_text(answer: Result<String, StdError>) -> Result<Seq<char>, StdError> {
    match answer {
        Ok(owner) => Ok(owner@),
        Err(error) => Err(error),
    }
}

/// The store after it has been set up by `sender` with the registry at
/// `dens_addr`: the configuration is replaced, the lists are kept.
pub open spec fn after_instantiate(
    pre: StoreView,
    sender: Seq<char>,
    dens_addr: Seq<char>,
) -> StoreView {
    StoreView { config: Some(ConfigView { owner: sender, dens_addr }), ..pre }
}

/// Why a change of the configuration that `sender` asks for is refused, if it
/// is: there is no configuration yet, or `sender` does not own it.
pub open spec fn config_update_refusal(pre: StoreView, sender: Seq<char>) -> Option<
    ContractError,
> {
    match pre.config {
        None => Some(ContractError::NotFound {  }),
        Some(config) => if config.owner != sender {
            Some(ContractError::Unauthorized {  })
        } else {
            None
        },
    }
}

/// `config` with each field replaced for which a new value is given.
pub open spec fn patched_config(
    config: ConfigView,
    new_owner: Option<Seq<char>>,
    new_dens_addr: Option<Seq<char>>,
) -> ConfigView {
    ConfigView {
        owner: match new_owner {
            Some(owner) => owner,
            None => config.owner,
        },
        dens_addr: match new_dens_addr {
            Some(dens_addr) => dens_addr,
            None => config.dens_addr,
        },
    }
}

/// The store after `sender` has asked for a change of the configuration.
pub open spec fn after_config_update(
    pre: StoreView,
    sender: Seq<char>,
    new_owner: Option<Seq<char>>,
    new_dens_addr: Option<Seq<char>>,
) -> StoreView {
    if config_update_refusal(pre, sender) is Some {
        pre
    } else {
        StoreView {
            config: Some(patched_config(pre.config.unwrap(), new_owner, new_dens_addr)),
            ..pre
        }
    }
}

/// Why `sender` may not change a token's list, given what the ownership
/// registry answered about that token: the query failed, and its error is
/// passed on as it is, or the registry names another owner.
pub open spec fn ownership_refusal(
    answer: Result<Seq<char>, StdError>,
    sender: Seq<char>,
) -> Option<ContractError> {
    match answer {
        Err(error) => Some(ContractError::Std(error)),
        Ok(owner) => if owner != sender {
            Some(ContractError::Unauthorized {  })
        } else {
            None
        },
    }
}

/// The store after `sender` has asked to replace the list of `token_id` and
/// the ownership registry has given `answer`.
pub open spec fn after_ownership_answer(
    pre: StoreView,
    answer: Result<Seq<char>, StdError>,
    sender: Seq<char>,
    token_id: Seq<char>,
    notifications: Seq<NotificationView>,
) -> StoreView {
    if ownership_refusal(answer, sender) is Some {
        pre
    } else {
        StoreView { notifications: pre.notifications.insert(token_id, notifications), ..pre }
    }
}

/// Why a change of a token's list is refused, if it is. Without a
/// configuration there is no registry to ask, and the answer plays no part.
pub open spec fn notification_update_refusal(
    pre: StoreView,
    answer: Result<Seq<char>, StdError>,
    sender: Seq<char>,
) -> Option<ContractError> {
    if pre.config is None {
        Some(ContractError::NotFound {  })
    } else {
        ownership_refusal(answer, sender)
    }
}

/// The store after `sender` has asked to replace the list of `token_id`, where
/// `answer` is what the ownership registry said when it was asked.
pub open spec fn after_notification_update(
    pre: StoreView,
    answer: Result<Seq<char>, StdError>,
    sender: Seq<char>,
    token_id: Seq<char>,
    notifications: Seq<NotificationView>,
) -> StoreView {
    if pre.config is None {
        pre
    } else {
        after_ownership_answer(pre, answer, sender, token_id, notifications)
    }
}

/// Whether `post` and `result` are what a request to change the configuration
/// leaves and hands back.
pub open spec fn config_update_agrees(
    pre: StoreView,
    sender: Seq<char>,
    new_owner: Option<Seq<char>>,
    new_dens_addr: Option<Seq<char>>,
    post: StoreView,
    result: Result<Response<Empty>, ContractError>,
) -> bool {
    &&& post == after_config_update(pre, sender, new_owner, new_dens_addr)
    &&& reports(
        result,
        config_update_refusal(pre, sender),
        config_update_attributes(patched_config(pre.config.unwrap(), new_owner, new_dens_addr)),
    )
}

/// Whether `post` and `result` are what a request to replace the list of
/// `token_id` leaves and hands back, where the ownership registry has given
/// `answer`.
pub open spec fn notification_update_agrees(
    pre: StoreView,
    answer: Result<Seq<char>, StdError>,
    sender: Seq<char>,
    token_id: Seq<char>,
    notifications: Seq<NotificationView>,
    post: StoreView,
    result: Result<Response<Empty>, ContractError>,
) -> bool {
    &&& post == after_notification_update(pre, answer, sender, token_id, notifications)
    &&& reports(
        result,
        notification_update_refusal(pre, answer, sender),
        notification_update_attributes(token_id, notifications),
    )
}

/// The answer to a query: the configuration, which must be there, or the list
/// of a token, which is empty where the token has none.
pub open spec fn query_answer(store: StoreView, msg: QueryMsg) -> Result<
    QueryResponseView,
    ContractError,
> {
    match msg {
        QueryMsg::GetConfig {  } => match store.config {
            Some(config) => Ok(QueryResponseView::Config(config)),
            None => Err(ContractError::NotFound {  }),
        },
        QueryMsg::GetNotifications { token_id } => Ok(
            QueryResponseView::Notifications(store.notifications_of(token_id@)),
        ),
    }
}

/// A request that may change the store. A request to replace a token's list
/// carries what the ownership registry answered when it was asked.
pub enum Request {
    Instantiate { sender: Seq<char>, dens_addr: Seq<char> },
    UpdateConfig {
        sender: Seq<char>,
        new_owner: Option<Seq<char>>,
        new_dens_addr: Option<Seq<char>>,
    },
    UpdateNotifications {
        sender: Seq<char>,
        answer: Result<Seq<char>, StdError>,
        token_id: Seq<char>,
        notifications: Seq<NotificationView>,
    },
}

/// The store after one request.
pub open spec fn after_request(pre: StoreView, request: Request) -> StoreView {
    match request {
        Request::Instantiate { sender, dens_addr } => after_instantiate(pre, sender, dens_addr),
        Request::UpdateConfig { sender, new_owner, new_dens_addr } => after_config_update(
            pre,
            sender,
            new_owner,
            new_dens_addr,
        ),
        Request::UpdateNotifications {
            sender,
            answer,
            token_id,
            notifications,
        } => after_notification_update(pre, answer, sender, token_id, notifications),
    }
}

/// The store after a history of requests, made in order on an empty store.
pub open spec fn after_requests(requests: Seq<Request>) -> StoreView
    decreases requests.len(),
{
    if requests.len() == 0 {
        StoreView::empty()
    } else {
        after_request(after_requests(requests.drop_last()), requests.last())
    }
}

/// Whether the request at place `at` of a history replaced the list of
/// `token_id`: it asked for that, and it was not refused by the store that the
/// requests before it had left.
pub open spec fn writes_token(requests: Seq<Request>, at: int, token_id: Seq<char>) -> bool {
    &&& 0 <= at < requests.len()
    &&& requests[at] matches Request::UpdateNotifications { sender, answer, token_id: written, .. }
    &&& written == token_id
    &&& notification_update_refusal(after_requests(requests.take(at)), answer, sender) is None
}

/// The attributes that report a set-up by `sender` with the registry at
/// `dens_addr`.
pub open spec fn instantiate_attributes(sender: Seq<char>, dens_addr: Seq<char>) -> Seq<
    (Seq<char>, Seq<char>),
> {
    seq![("method"@, "instantiate"@), ("owner"@, sender), ("dens_addr"@, dens_addr)]
}

/// The attributes that report a change of the configuration to `config`.
pub open spec fn config_update_attributes(config: ConfigView) -> Seq<(Seq<char>, Seq<char>)> {
    seq![
        ("action"@, "update_config"@),
        ("dens_addr"@, config.dens_addr),
        ("owner"@, config.owner),
    ]
}

/// The attributes that report that the list of `token_id` is now
/// `notifications`.
pub open spec fn notification_update_attributes(
    token_id: Seq<char>,
    notifications: Seq<NotificationView>,
) -> Seq<(Seq<char>, Seq<char>)> {
    seq![
        ("action"@, "update_notification"@),
        ("token_id"@, token_id),
        ("notifications"@, list_text(notifications)),
    ]
}

/// Whether `result` is what an operation hands back: the reason of the
/// refusal, if it was refused, and else a response that carries exactly
/// `attributes` and no message.
pub open spec fn reports(
    result: Result<Response<Empty>, ContractError>,
    refusal: Option<ContractError>,
    attributes: Seq<(Seq<char>, Seq<char>)>,
) -> bool {
    match refusal {
        Some(error) => result == Err::<Response<Empty>, ContractError>(error),
        None => {
            &&& result matches Ok(response)
            &&& response_attributes(response) == attributes
            &&& response_message_count(response) == 0
        },
    }
}

} // verus!
