//! What holds of the operations taken together.

use crate::error::ContractError;
use crate::model::{
    after_config_update, after_notification_update, after_request, after_requests,
    config_update_refusal, notification_update_refusal, query_answer, writes_token, Request,
    StoreView,
};
use crate::msg::{QueryMsg, QueryResponseView};
use crate::state::{ConfigView, NotificationView};
use cosmwasm_std::StdError;
use vstd::prelude::*;

verus! {

/// Reading gives what was written: once a request to replace the list of a
/// token has gone through, a query for that token answers with exactly the
/// list that was sent, in the same order.
pub proof fn lemma_read_after_write(
    pre: StoreView,
    answer: Result<Seq<char>, StdError>,
    sender: Seq<char>,
    token_id: String,
    notifications: Seq<NotificationView>,
)
    requires
        notification_update_refusal(pre, answer, sender) is None,
    ensures
        query_answer(
            after_notification_update(pre, answer, sender, token_id@, notifications),
            QueryMsg::GetNotifications { token_id },
        ) == Ok::<QueryResponseView, ContractError>(
            QueryResponseView::Notifications(notifications),
        ),
{
}

/// A token without a list reads as empty: a query for a token that the store
/// holds no list for answers with the empty list, and not with an error.
pub proof fn lemma_default_on_miss(store: StoreView, token_id: String)
    requires
        !store.notifications.contains_key(token_id@),
    ensures
        query_answer(store, QueryMsg::GetNotifications { token_id }) == Ok::<
            QueryResponseView,
            ContractError,
        >(QueryResponseView::Notifications(Seq::empty())),
{
}

/// The store holds a list for exactly the tokens that were written: after any
/// history of requests, a token has a list if and only if some request of the
/// history replaced it.
pub proof fn lemma_listed_iff_written(requests: Seq<Request>, token_id: Seq<char>)
    ensures
        after_requests(requests).notifications.contains_key(token_id) <==> exists|at: int|
            writes_token(requests, at, token_id),
    decreases requests.len(),
{
    if requests.len() > 0 {
        let earlier = requests.drop_last();
        let last = requests.len() - 1;
        lemma_listed_iff_written(earlier, token_id);
        assert(requests.take(last) =~= earlier);
        assert forall|at: int| 0 <= at < last implies writes_token(earlier, at, token_id)
            == writes_token(requests, at, token_id) by {
            assert(earlier.take(at) =~= requests.take(at));
        }
        if after_requests(requests).notifications.contains_key(token_id) {
            if after_requests(earlier).notifications.contains_key(token_id) {
                let at = choose|at: int| writes_token(earlier, at, token_id);
                assert(writes_token(requests, at, token_id));
            } else {
                assert(writes_token(requests, last, token_id));
            }
        }
        if exists|at: int| writes_token(requests, at, token_id) {
            let at = choose|at: int| writes_token(requests, at, token_id);
            if at < last {
                assert(writes_token(earlier, at, token_id));
            }
        }
    }
}

/// A token that was never written reads as empty: after any history of
/// requests of which none replaced the list of a token, a query for that token
/// answers with the empty list.
pub proof fn lemma_unwritten_reads_empty(requests: Seq<Request>, token_id: String)
    requires
        forall|at: int| !writes_token(requests, at, token_id@),
    ensures
        query_answer(after_requests(requests), QueryMsg::GetNotifications { token_id }) == Ok::<
            QueryResponseView,
            ContractError,
        >(QueryResponseView::Notifications(Seq::empty())),
{
    lemma_listed_iff_written(requests, token_id@);
}

/// Only the owner changes the configuration: a request from any other sender
/// is refused as unauthorized, whatever it asks for, and leaves the store as
/// it was.
pub proof fn lemma_owner_gating(
    pre: StoreView,
    sender: Seq<char>,
    new_owner: Option<Seq<char>>,
    new_dens_addr: Option<Seq<char>>,
)
    requires
        pre.config is Some,
        sender != pre.config.unwrap().owner,
    ensures
        config_update_refusal(pre, sender) == Some(ContractError::Unauthorized {  }),
        after_config_update(pre, sender, new_owner, new_dens_addr) == pre,
{
}

/// Only the token's owner changes its list: where the ownership registry
/// names an owner other than the sender, the request is refused as
/// unauthorized and leaves the store as it was.
pub proof fn lemma_oracle_gating(
    pre: StoreView,
    owner: Seq<char>,
    sender: Seq<char>,
    token_id: Seq<char>,
    notifications: Seq<NotificationView>,
)
    requires
        pre.config is Some,
        owner != sender,
    ensures
        notification_update_refusal(pre, Ok(owner), sender) == Some(
            ContractError::Unauthorized {  },
        ),
        after_notification_update(pre, Ok(owner), sender, token_id, notifications) == pre,
{
}

/// A change of one field keeps the other: where the owner asks for a new
/// owner and gives no registry, the registry stays exactly as it was, and so
/// do the lists; likewise the owner stays where only a registry is given.
pub proof fn lemma_partial_update(pre: StoreView, sender: Seq<char>, replacement: Seq<char>)
    requires
        config_update_refusal(pre, sender) is None,
    ensures
        after_config_update(pre, sender, Some(replacement), None) == (StoreView {
            config: Some(
                ConfigView { owner: replacement, dens_addr: pre.config.unwrap().dens_addr },
            ),
            ..pre
        }),
        after_config_update(pre, sender, None, Some(replacement)) == (StoreView {
            config: Some(ConfigView { owner: pre.config.unwrap().owner, dens_addr: replacement }),
            ..pre
        }),
{
}

/// A refused request changes nothing: whatever the reason of the refusal,
/// the store is afterwards what it was before.
pub proof fn lemma_refusal_changes_nothing(
    pre: StoreView,
    answer: Result<Seq<char>, StdError>,
    sender: Seq<char>,
    new_owner: Option<Seq<char>>,
    new_dens_addr: Option<Seq<char>>,
    token_id: Seq<char>,
    notifications: Seq<NotificationView>,
)
    ensures
        config_update_refusal(pre, sender) is Some ==> after_config_update(
            pre,
            sender,
            new_owner,
            new_dens_addr,
        ) == pre,
        notification_update_refusal(pre, answer, sender) is Some ==> after_notification_update(
            pre,
            answer,
            sender,
            token_id,
            notifications,
        ) == pre,
{
}

/// A failed query is passed on: where the ownership registry gives an error
/// in place of an owner, the request is refused with that very error, not as
/// unauthorized, whoever sent it.
pub proof fn lemma_query_error_is_passed_on(pre: StoreView, error: StdError, sender: Seq<char>)
    requires
        pre.config is Some,
    ensures
        notification_update_refusal(pre, Err(error), sender) == Some(ContractError::Std(error)),
{
}

/// No list is ever removed: a token that has a list keeps one, whatever is
/// asked for next.
pub proof fn lemma_lists_are_never_removed(pre: StoreView, request: Request, token_id: Seq<char>)
    requires
        pre.notifications.contains_key(token_id),
    ensures
        after_request(pre, request).notifications.contains_key(token_id),
{
}

/// The configuration stays: once there is one, no request removes it, and a
/// request to replace a token's list leaves it as it is.
pub proof fn lemma_config_is_kept(pre: StoreView, request: Request)
    requires
        pre.config is Some,
    ensures
        after_request(pre, request).config is Some,
        request is UpdateNotifications ==> after_request(pre, request).config == pre.config,
{
}

} // verus!
