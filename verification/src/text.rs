//! How notifications are written out in a report.
//!
//! The text of a list is the one that `{:?}` prints for it: the items between
//! square brackets, separated by a comma and a space, each as its variant's
//! name with the fields in braces behind it.

use crate::state::{
    EmailNotification, EmailNotificationView, Notification, NotificationView, WebhookNotification,
    WebhookNotificationView,
};
use vstd::prelude::*;

verus! {

/// The text that `{:?}` prints for a string: the string between double
/// quotes, with the characters escaped that Rust escapes in a literal.
pub uninterp spec fn quoted(text: Seq<char>) -> Seq<char>;

/// `format!` with `{:?}` on a `str`, which is `<str as Debug>::fmt`: the
/// quoted form of `text`, which depends on nothing but `text`.
#[verifier::external_body]
fn quote(text: &str) -> (result: String)
    ensures
        result@ == quoted(text@),
{
    format!("{:?}", text)
}

/// An e-mail notification, written out.
pub open spec fn email_text(email: EmailNotificationView) -> Seq<char> {
    "EmailNotification { masked_addr: "@ + quoted(email.masked_addr) + ", encoded_addr: "@
        + quoted(email.encoded_addr) + ", preferences: "@ + quoted(email.preferences) + " }"@
}

/// A webhook notification, written out.
pub open spec fn webhook_text(webhook: WebhookNotificationView) -> Seq<char> {
    "WebhookNotification { masked_url: "@ + quoted(webhook.masked_url) + ", encoded_url: "@
        + quoted(webhook.encoded_url) + ", preferences: "@ + quoted(webhook.preferences) + " }"@
}

/// A notification, written out: the name of its variant, and what it holds in
/// round brackets.
pub open spec fn notification_text(notification: NotificationView) -> Seq<char> {
    match notification {
        NotificationView::Email(email) => "Email("@ + email_text(email) + ")"@,
        NotificationView::Webhook(webhook) => "Webhook("@ + webhook_text(webhook) + ")"@,
    }
}

/// The items of a list written out one after the other, with a comma and a
/// space between two of them.
pub open spec fn items_text(list: Seq<NotificationView>) -> Seq<char>
    decreases list.len(),
{
    if list.len() == 0 {
        Seq::empty()
    } else if list.len() == 1 {
        notification_text(list[0])
    } else {
        items_text(list.drop_last()) + ", "@ + notification_text(list.last())
    }
}

/// A list of notifications, written out: its items in square brackets.
pub open spec fn list_text(list: Seq<NotificationView>) -> Seq<char> {
    "["@ + items_text(list) + "]"@
}

/// Writes an e-mail notification out.
pub fn render_email(email: &EmailNotification) -> (text: String)
    ensures
        text@ == email_text(email@),
{
    let mut text = String::from_str("EmailNotification { masked_addr: ");
    text.append(quote(email.masked_addr.as_str()).as_str());
    text.append(", encoded_addr: ");
    text.append(quote(email.encoded_addr.as_str()).as_str());
    text.append(", preferences: ");
    text.append(quote(email.preferences.as_str()).as_str());
    text.append(" }");
    text
}

/// Writes a webhook notification out.
pub fn render_webhook(webhook: &WebhookNotification) -> (text: String)
    ensures
        text@ == webhook_text(webhook@),
{
    let mut text = String::from_str("WebhookNotification { masked_url: ");
    text.append(quote(webhook.masked_url.as_str()).as_str());
    text.append(", encoded_url: ");
    text.append(quote(webhook.encoded_url.as_str()).as_str());
    text.append(", preferences: ");
    text.append(quote(webhook.preferences.as_str()).as_str());
    text.append(" }");
    text
}

/// Writes a notification out.
pub fn render_notification(notification: &Notification) -> (text: String)
    ensures
        text@ == notification_text(notification@),
{
    match notification {
        Notification::Email(email) => {
            let mut text = String::from_str("Email(");
            text.append(render_email(email).as_str());
            text.append(")");
            text
        },
        Notification::Webhook(webhook) => {
            let mut text = String::from_str("Webhook(");
            text.append(render_webhook(webhook).as_str());
            text.append(")");
            text
        },
    }
}

/// Writes a list of notifications out.
pub fn render_list(list: &Vec<Notification>) -> (text: String)
    ensures
        text@ == list_text(list.deep_view()),
{
    let ghost items = list.deep_view();
    let mut text = String::from_str("[");
    let mut done: usize = 0;
    assert(text@ =~= "["@ + items_text(items.take(0)));
    while done < list.len()
        invariant
            done <= list.len(),
            items == list.deep_view(),
            text@ == "["@ + items_text(items.take(done as int)),
        decreases list.len() - done,
    {
        let ghost before = items.take(done as int);
        let ghost after = items.take(done + 1);
        assert(after.drop_last() =~= before);
        assert(after.last() == list[done as int]@);
        if done > 0 {
            text.append(", ");
        }
        text.append(render_notification(&list[done]).as_str());
        assert(text@ =~= "["@ + items_text(after));
        done = done + 1;
    }
    assert(items.take(done as int) =~= items);
    text.append("]");
    text
}

} // verus!
