use howl_pack_contract::state::{EmailNotification, Notification, WebhookNotification};
use howl_pack_contract::text::{render_email, render_list, render_notification, render_webhook};

fn email(masked: &str, encoded: &str, preferences: &str) -> EmailNotification {
    EmailNotification {
        masked_addr: masked.to_string(),
        encoded_addr: encoded.to_string(),
        preferences: preferences.to_string(),
    }
}

fn webhook(masked: &str, encoded: &str, preferences: &str) -> WebhookNotification {
    WebhookNotification {
        masked_url: masked.to_string(),
        encoded_url: encoded.to_string(),
        preferences: preferences.to_string(),
    }
}

#[test]
fn an_empty_list_is_two_brackets() {
    assert_eq!(render_list(&vec![]), "[]");
}

#[test]
fn an_email_is_written_with_its_fields_in_order() {
    assert_eq!(
        render_email(&email("j***@example.org", "ai5kb2U=", "4")),
        "EmailNotification { masked_addr: \"j***@example.org\", encoded_addr: \"ai5kb2U=\", \
         preferences: \"4\" }"
    );
}

#[test]
fn a_webhook_is_written_with_its_fields_in_order() {
    assert_eq!(
        render_webhook(&webhook("https://h***", "aHR0cA==", "{}")),
        "WebhookNotification { masked_url: \"https://h***\", encoded_url: \"aHR0cA==\", \
         preferences: \"{}\" }"
    );
}

#[test]
fn a_notification_is_written_under_its_variant() {
    assert_eq!(
        render_notification(&Notification::Email(email("a", "b", "c"))),
        "Email(EmailNotification { masked_addr: \"a\", encoded_addr: \"b\", preferences: \"c\" })"
    );
    assert_eq!(
        render_notification(&Notification::Webhook(webhook("a", "b", "c"))),
        "Webhook(WebhookNotification { masked_url: \"a\", encoded_url: \"b\", preferences: \"c\" })"
    );
}

#[test]
fn items_are_separated_by_comma_and_space() {
    let list = vec![
        Notification::Email(email("1", "2", "3")),
        Notification::Webhook(webhook("4", "5", "6")),
        Notification::Email(email("7", "8", "9")),
    ];
    assert_eq!(
        render_list(&list),
        "[Email(EmailNotification { masked_addr: \"1\", encoded_addr: \"2\", preferences: \"3\" }), \
         Webhook(WebhookNotification { masked_url: \"4\", encoded_url: \"5\", preferences: \"6\" }), \
         Email(EmailNotification { masked_addr: \"7\", encoded_addr: \"8\", preferences: \"9\" })]"
    );
}

#[test]
fn strings_are_quoted_and_escaped() {
    let list = vec![Notification::Email(email("say \"hi\"", "back\\slash", "line\nbreak\ttab"))];
    assert_eq!(
        render_list(&list),
        "[Email(EmailNotification { masked_addr: \"say \\\"hi\\\"\", \
         encoded_addr: \"back\\\\slash\", preferences: \"line\\nbreak\\ttab\" })]"
    );
}

#[test]
fn the_text_is_what_debug_prints() {
    let lists: Vec<Vec<Notification>> = vec![
        vec![],
        vec![Notification::Email(email("", "", ""))],
        vec![Notification::Webhook(webhook("", "", ""))],
        vec![
            Notification::Email(email("m", "e", "p")),
            Notification::Email(email("m", "e", "p")),
        ],
        vec![
            Notification::Webhook(webhook("gr\u{fc}\u{df}e", "\u{1f980}", "'single'")),
            Notification::Email(email("\u{0}\u{7f}", "a, b", "{ \"k\": [1, 2] }")),
            Notification::Webhook(webhook("\r\n", "\u{200b}", "\u{301}")),
        ],
    ];
    for list in lists.iter() {
        assert_eq!(render_list(list), format!("{:?}", list));
        for notification in list.iter() {
            assert_eq!(render_notification(notification), format!("{:?}", notification));
            match notification {
                Notification::Email(inner) => {
                    assert_eq!(render_email(inner), format!("{:?}", inner))
                }
                Notification::Webhook(inner) => {
                    assert_eq!(render_webhook(inner), format!("{:?}", inner))
                }
            }
        }
    }
}
