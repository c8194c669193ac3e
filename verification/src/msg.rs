//! The messages that the registry takes and gives.

use crate::state::{Config, ConfigView, Notification, NotificationView};
use vstd::prelude::*;

verus! {

/// What the registry is created with. The sender of this message becomes the
/// owner of the configuration.
#[derive(Debug, PartialEq, Eq)]
pub struct InstantiateMsg {
    pub dens_addr: String,
}

/// A change that a sender asks for.
#[derive(Debug, PartialEq, Eq)]
pub enum ExecuteMsg {
    /// Replace the list of `token_id` by `notifications`.
    UpdateNotifications { token_id: String, notifications: Vec<Notification> },
    /// Replace each field of the configuration that is given, and keep the
    /// others.
    UpdateConfig { owner: Option<String>, dens_addr: Option<String> },
}

/// A question about what is stored.
#[derive(Debug, PartialEq, Eq)]
pub enum QueryMsg {
    GetConfig {  },
    GetNotifications { token_id: String },
}

/// The question put to the ownership registry: who owns `token_id`, asked of
/// the contract at `contract_addr`.
#[derive(Debug, PartialEq, Eq)]
pub struct OwnerQuery {
    pub contract_addr: String,
    pub token_id: String,
}

/// The answer to a `QueryMsg`, one variant for each question.
#[derive(Debug, PartialEq, Eq)]
pub enum QueryResponse {
    Config(Config),
    Notifications(Vec<Notification>),
}

/// What a `QueryResponse` holds.
pub enum QueryResponseView {
    Config(ConfigView),
    Notifications(Seq<NotificationView>),
}

impl View for QueryResponse {
    type V = QueryResponseView;

    open spec fn view(&self) -> QueryResponseView {
        match self {
            QueryResponse::Config(config) => QueryResponseView::Config(config@),
            QueryResponse::Notifications(list) => QueryResponseView::Notifications(
                list.deep_view(),
            ),
        }
    }
}

} // verus!
