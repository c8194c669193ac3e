//! What the registry stores: the configuration, the notifications, and the
//! store that holds them.

use crate::error::ContractError;
use crate::model::StoreView;
use vstd::hash_map::StringHashMap;
use vstd::prelude::*;

verus! {

/// The contract's configuration: who may change it, and which registry is
/// asked who owns a token.
#[derive(Debug, PartialEq, Eq)]
pub struct Config {
    pub owner: String,
    pub dens_addr: String,
}

/// What a `Config` holds, as text.
pub struct ConfigView {
    pub owner: Seq<char>,
    pub dens_addr: Seq<char>,
}

impl View for Config {
    type V = ConfigView;

    open spec fn view(&self) -> ConfigView {
        ConfigView { owner: self.owner@, dens_addr: self.dens_addr@ }
    }
}

impl Clone for Config {
    fn clone(&self) -> (copy: Self)
        ensures
            copy == *self,
    {
        Config { owner: self.owner.clone(), dens_addr: self.dens_addr.clone() }
    }
}

/// One way to reach the holder of a token.
#[derive(Debug, PartialEq, Eq)]
pub enum Notification {
    Email(EmailNotification),
    Webhook(WebhookNotification),
}

/// An e-mail address to notify. The registry keeps the three texts as they
/// come and reads none of them: the address as it may be shown, the address
/// itself in some encoding, and the holder's preferences.
#[derive(Debug, PartialEq, Eq)]
pub struct EmailNotification {
    pub masked_addr: String,
    pub encoded_addr: String,
    pub preferences: String,
}

/// A webhook to call, with the same three texts as an e-mail address has.
#[derive(Debug, PartialEq, Eq)]
pub struct WebhookNotification {
    pub masked_url: String,
    pub encoded_url: String,
    pub preferences: String,
}

/// What an `EmailNotification` holds, as text.
pub struct EmailNotificationView {
    pub masked_addr: Seq<char>,
    pub encoded_addr: Seq<char>,
    pub preferences: Seq<char>,
}

/// What a `WebhookNotification` holds, as text.
pub struct WebhookNotificationView {
    pub masked_url: Seq<char>,
    pub encoded_url: Seq<char>,
    pub preferences: Seq<char>,
}

/// What a `Notification` holds, as text.
pub enum NotificationView {
    Email(EmailNotificationView),
    Webhook(WebhookNotificationView),
}

impl View for EmailNotification {
    type V = EmailNotificationView;

    open spec fn view(&self) -> EmailNotificationView {
        EmailNotificationView {
            masked_addr: self.masked_addr@,
            encoded_addr: self.encoded_addr@,
            preferences: self.preferences@,
        }
    }
}

impl View for WebhookNotification {
    type V = WebhookNotificationView;

    open spec fn view(&self) -> WebhookNotificationView {
        WebhookNotificationView {
            masked_url: self.masked_url@,
            encoded_url: self.encoded_url@,
            preferences: self.preferences@,
        }
    }
}

impl View for Notification {
    type V = NotificationView;

    open spec fn view(&self) -> NotificationView {
        match self {
            Notification::Email(email) => NotificationView::Email(email@),
            Notification::Webhook(webhook) => NotificationView::Webhook(webhook@),
        }
    }
}

impl DeepView for Notification {
    type V = NotificationView;

    open spec fn deep_view(&self) -> NotificationView {
        self@
    }
}

impl Clone for EmailNotification {
    fn clone(&self) -> (copy: Self)
        ensures
            copy == *self,
    {
        EmailNotification {
            masked_addr: self.masked_addr.clone(),
            encoded_addr: self.encoded_addr.clone(),
            preferences: self.preferences.clone(),
        }
    }
}

impl Clone for WebhookNotification {
    fn clone(&self) -> (copy: Self)
        ensures
            copy == *self,
    {
        WebhookNotification {
            masked_url: self.masked_url.clone(),
            encoded_url: self.encoded_url.clone(),
            preferences: self.preferences.clone(),
        }
    }
}

impl Clone for Notification {
    fn clone(&self) -> (copy: Self)
        ensures
            copy == *self,
    {
        match self {
            Notification::Email(email) => Notification::Email(email.clone()),
            Notification::Webhook(webhook) => Notification::Webhook(webhook.clone()),
        }
    }
}

/// The durable state of the registry: the configuration, once it has been
/// set, and one list of notifications for each token that has been given one.
pub struct Store {
    config: Option<Config>,
    notifications: StringHashMap<Vec<Notification>>,
}

impl View for Store {
    type V = StoreView;

    closed spec fn view(&self) -> StoreView {
        StoreView {
            config: match self.config {
                Some(config) => Some(config@),
                None => None,
            },
            notifications: self.notifications@.map_values(
                |list: Vec<Notification>| list.deep_view(),
            ),
        }
    }
}

impl Store {
    /// A store in which nothing has been saved yet.
    pub fn new() -> (store: Store)
        ensures
            store@ == StoreView::empty(),
    {
        let store = Store { config: None, notifications: StringHashMap::new() };
        assert(store@.notifications =~= Map::empty());
        store
    }

    /// The configuration, or `NotFound` while none has been saved.
    pub fn load_config(&self) -> (result: Result<Config, ContractError>)
        ensures
            match result {
                Ok(config) => self@.config == Some(config@),
                Err(error) => self@.config is None && error == (ContractError::NotFound {  }),
            },
    {
        match &self.config {
            Some(config) => Ok(config.clone()),
            None => Err(ContractError::NotFound {  }),
        }
    }

    /// Saves `config` in place of whatever configuration there was.
    pub fn save_config(&mut self, config: Config)
        ensures
            final(self)@ == (StoreView { config: Some(config@), ..old(self)@ }),
    {
        self.config = Some(config);
    }

    /// The list saved for `token_id`, or `NotFound` if none ever was.
    pub fn load_notifications(&self, token_id: &str) -> (result: Result<
        Vec<Notification>,
        ContractError,
    >)
        ensures
            match result {
                Ok(list) => self@.notifications.contains_key(token_id@) && list.deep_view()
                    == self@.notifications[token_id@],
                Err(error) => !self@.notifications.contains_key(token_id@) && error
                    == (ContractError::NotFound {  }),
            },
    {
        match self.notifications.get(token_id) {
            Some(list) => Ok(list.clone()),
            None => Err(ContractError::NotFound {  }),
        }
    }

    /// Saves `notifications` as the list of `token_id`, in place of the list
    /// it had, if any. The lists of other tokens stay as they are.
    pub fn save_notifications(&mut self, token_id: String, notifications: Vec<Notification>)
        ensures
            final(self)@ == (StoreView {
                notifications: old(self)@.notifications.insert(
                    token_id@,
                    notifications.deep_view(),
                ),
                ..old(self)@
            }),
    {
        self.notifications.insert(token_id, notifications);
        assert(self@.notifications =~= old(self)@.notifications.insert(
            token_id@,
            notifications.deep_view(),
        ));
    }
}

} // verus!
