use registry_backend::exchange::{
    Action, ApiError, Command, Exchange, FailureContext, Finish, Guard, Plan, PreferenceChange, Reply, Response,
    SubscriptionChange,
};
use registry_backend::handlers::{
    create_webhook, delete_webhook, get_notification_preferences, get_notification_statistics,
    get_webhook_deliveries, list_notifications, list_user_subscriptions, list_webhooks,
    mark_all_notifications_read, mark_notification_read, retry_webhook_delivery, subscribe_to_contract,
    test_webhook, unsubscribe_from_contract, update_notification_preferences, update_subscription,
    webhook_url_allowed,
};
use registry_backend::model::{
    CreateWebhookRequest, DeliveriesQuery, ListSubscriptionsQuery, NotificationChannel, NotificationFrequency,
    NotificationQuery, NotificationStatistics, NotificationType, StatisticsQuery, SubscribeRequest,
    SubscriptionStatus, UpdateSubscriptionRequest, UpdateUserNotificationPreferencesRequest,
};

const USER: u128 = 7;
const OTHER: u128 = 99;

/// Runs a plan with the given replies, returning the commands issued and the answer.
fn drive(plan: Plan, replies: Vec<Reply>) -> (Vec<Command>, Option<Result<Response, ApiError>>) {
    let (mut ex, mut action) = Exchange::start(plan);
    let mut issued = Vec::new();
    let mut replies = replies.into_iter();
    loop {
        match action {
            Action::Run(c) => {
                issued.push(c);
                match replies.next() {
                    Some(r) => {
                        assert!(ex.can_accept(&r));
                        action = ex.step(r);
                    }
                    None => return (issued, None),
                }
            }
            Action::Respond(r) => return (issued, Some(r)),
        }
    }
}

fn not_found_of(r: Option<Result<Response, ApiError>>) -> (String, String) {
    match r {
        Some(Err(ApiError::NotFound { resource, message })) => (resource, message),
        _ => panic!("expected not found"),
    }
}

fn internal_of(r: Option<Result<Response, ApiError>>) -> String {
    match r {
        Some(Err(ApiError::Internal { message })) => message,
        _ => panic!("expected internal error"),
    }
}

fn empty_subscribe() -> SubscribeRequest {
    SubscribeRequest { notification_types: None, channels: None, frequency: None, min_severity: None }
}

#[test]
fn subscribe_uses_defaults() {
    let plan = subscribe_to_contract(USER, 3, empty_subscribe());
    assert_eq!(plan.steps.len(), 2);
    match &plan.steps[1].command {
        Command::UpsertSubscription { user_id, contract_id, settings } => {
            assert_eq!((*user_id, *contract_id), (USER, 3));
            assert_eq!(
                settings.notification_types,
                vec![NotificationType::NewVersion, NotificationType::VerificationStatus, NotificationType::SecurityIssue]
            );
            assert_eq!(settings.channels, vec![NotificationChannel::InApp]);
            assert_eq!(settings.frequency, NotificationFrequency::Realtime);
            assert!(settings.min_severity.is_none());
        }
        _ => panic!("expected an upsert"),
    }
    let (issued, answer) = drive(plan, vec![Reply::Flag(true), Reply::Fetched]);
    assert_eq!(issued.len(), 2);
    assert!(matches!(answer, Some(Ok(Response::Fetched))));
}

#[test]
fn subscribe_keeps_requested_settings() {
    let req = SubscribeRequest {
        notification_types: Some(vec![NotificationType::Deprecation]),
        channels: Some(vec![NotificationChannel::Email, NotificationChannel::Webhook]),
        frequency: Some(NotificationFrequency::Daily),
        min_severity: Some("high".to_string()),
    };
    let plan = subscribe_to_contract(USER, 3, req);
    match &plan.steps[1].command {
        Command::UpsertSubscription { settings, .. } => {
            assert_eq!(settings.notification_types, vec![NotificationType::Deprecation]);
            assert_eq!(settings.channels, vec![NotificationChannel::Email, NotificationChannel::Webhook]);
            assert_eq!(settings.frequency, NotificationFrequency::Daily);
            assert_eq!(settings.min_severity.as_deref(), Some("high"));
        }
        _ => panic!("expected an upsert"),
    }
}

#[test]
fn subscribe_to_missing_contract_is_not_found() {
    let (issued, answer) = drive(subscribe_to_contract(USER, 3, empty_subscribe()), vec![Reply::Flag(false)]);
    assert_eq!(issued.len(), 1);
    assert!(matches!(issued[0], Command::ContractExists { contract_id: 3 }));
    assert_eq!(not_found_of(answer), ("contract".to_string(), "Contract not found".to_string()));
}

#[test]
fn subscribe_failures_are_reported() {
    let (_, answer) = drive(subscribe_to_contract(USER, 3, empty_subscribe()), vec![Reply::Failed("boom".to_string())]);
    assert_eq!(internal_of(answer), "Database error: boom");
    let (_, answer) = drive(
        subscribe_to_contract(USER, 3, empty_subscribe()),
        vec![Reply::Flag(true), Reply::Failed("dup".to_string())],
    );
    assert_eq!(internal_of(answer), "Failed to create subscription: dup");
}

#[test]
fn unsubscribe_answers() {
    let (issued, answer) = drive(unsubscribe_from_contract(USER, 3), vec![Reply::Rows(1)]);
    assert!(matches!(issued[0], Command::DeleteSubscription { user_id: USER, contract_id: 3 }));
    assert!(matches!(answer, Some(Ok(Response::Status(204)))));
    let (_, answer) = drive(unsubscribe_from_contract(USER, 3), vec![Reply::Rows(0)]);
    assert_eq!(not_found_of(answer), ("subscription".to_string(), "Subscription not found".to_string()));
}

#[test]
fn subscription_listing_pages() {
    let plan = list_user_subscriptions(USER, ListSubscriptionsQuery { limit: None, offset: None, status: None });
    match &plan.steps[0].command {
        Command::ListSubscriptions { user_id, status, limit, offset } => {
            assert_eq!((*user_id, status.clone(), *limit, *offset), (USER, None, 20, 0));
        }
        _ => panic!("expected a listing"),
    }
    assert!(matches!(plan.steps[1].command, Command::CountSubscriptions { user_id: USER, status: None }));
    let plan = list_user_subscriptions(
        USER,
        ListSubscriptionsQuery { limit: Some(5), offset: Some(10), status: Some("active".to_string()) },
    );
    match &plan.steps[0].command {
        Command::ListSubscriptions { status, limit, offset, .. } => {
            assert_eq!((status.as_deref(), *limit, *offset), (Some("active"), 5, 10));
        }
        _ => panic!("expected a listing"),
    }
    match &plan.steps[1].command {
        Command::CountSubscriptions { status, .. } => assert_eq!(status.as_deref(), Some("active")),
        _ => panic!("expected a count"),
    }
    let (issued, answer) = drive(plan, vec![Reply::Fetched, Reply::Fetched]);
    assert_eq!(issued.len(), 2);
    assert!(matches!(answer, Some(Ok(Response::Fetched))));
}

#[test]
fn update_subscription_changes_present_fields_in_order() {
    let req = UpdateSubscriptionRequest {
        status: Some(SubscriptionStatus::Paused),
        notification_types: None,
        channels: Some(vec![NotificationChannel::Email]),
        frequency: None,
        min_severity: Some("low".to_string()),
    };
    let plan = update_subscription(USER, 11, req);
    assert_eq!(plan.steps.len(), 5);
    assert!(matches!(plan.steps[0].command, Command::SubscriptionOwned { subscription_id: 11, user_id: USER }));
    assert!(matches!(
        plan.steps[1].command,
        Command::UpdateSubscription { subscription_id: 11, subscription_change: SubscriptionChange::Status(SubscriptionStatus::Paused) }
    ));
    match &plan.steps[2].command {
        Command::UpdateSubscription { subscription_change: SubscriptionChange::Channels(c), .. } => {
            assert_eq!(c, &vec![NotificationChannel::Email])
        }
        _ => panic!("expected channels"),
    }
    match &plan.steps[3].command {
        Command::UpdateSubscription { subscription_change: SubscriptionChange::MinSeverity(s), .. } => assert_eq!(s, "low"),
        _ => panic!("expected severity"),
    }
    assert!(matches!(plan.steps[4].command, Command::FetchSubscription { subscription_id: 11 }));
    let (issued, answer) = drive(plan, vec![Reply::Flag(true), Reply::Rows(1), Reply::Rows(1), Reply::Rows(1), Reply::Fetched]);
    assert_eq!(issued.len(), 5);
    assert!(matches!(answer, Some(Ok(Response::Fetched))));
}

#[test]
fn update_of_someone_elses_subscription_changes_nothing() {
    let req = UpdateSubscriptionRequest {
        status: Some(SubscriptionStatus::Active),
        notification_types: Some(vec![NotificationType::Maintenance]),
        channels: None,
        frequency: Some(NotificationFrequency::Weekly),
        min_severity: None,
    };
    let (issued, answer) = drive(update_subscription(OTHER, 11, req), vec![Reply::Flag(false)]);
    assert_eq!(issued.len(), 1);
    assert!(matches!(issued[0], Command::SubscriptionOwned { subscription_id: 11, user_id: OTHER }));
    assert_eq!(not_found_of(answer), ("subscription".to_string(), "Subscription not found".to_string()));
}

#[test]
fn empty_update_only_fetches() {
    let req = UpdateSubscriptionRequest {
        status: None,
        notification_types: None,
        channels: None,
        frequency: None,
        min_severity: None,
    };
    let plan = update_subscription(USER, 11, req);
    assert_eq!(plan.steps.len(), 2);
    assert!(matches!(plan.steps[1].command, Command::FetchSubscription { subscription_id: 11 }));
}

#[test]
fn preferences_read() {
    let (issued, answer) = drive(get_notification_preferences(USER), vec![Reply::Optional(false)]);
    assert!(matches!(issued[0], Command::FindPreferences { user_id: USER }));
    assert_eq!(not_found_of(answer), ("preferences".to_string(), "User preferences not found".to_string()));
    let (_, answer) = drive(get_notification_preferences(USER), vec![Reply::Optional(true)]);
    assert!(matches!(answer, Some(Ok(Response::Fetched))));
}

#[test]
fn preferences_update_in_order() {
    let req = UpdateUserNotificationPreferencesRequest {
        notification_frequency: Some(NotificationFrequency::Hourly),
        notification_channels: None,
        email_notifications_enabled: Some(false),
        webhook_url: None,
        quiet_hours_start: Some("22:00".to_string()),
        quiet_hours_end: Some("07:00".to_string()),
        timezone: Some("UTC".to_string()),
    };
    let plan = update_notification_preferences(USER, req);
    assert_eq!(plan.steps.len(), 6);
    let kinds: Vec<&str> = plan.steps[..5]
        .iter()
        .map(|s| match &s.command {
            Command::UpdatePreferences { user_id: USER, preference_change } => match preference_change {
                PreferenceChange::NotificationFrequency(_) => "frequency",
                PreferenceChange::NotificationChannels(_) => "channels",
                PreferenceChange::EmailNotificationsEnabled(_) => "email",
                PreferenceChange::WebhookUrl(_) => "url",
                PreferenceChange::QuietHoursStart(_) => "start",
                PreferenceChange::QuietHoursEnd(_) => "end",
                PreferenceChange::Timezone(_) => "tz",
            },
            _ => "other",
        })
        .collect();
    assert_eq!(kinds, vec!["frequency", "email", "start", "end", "tz"]);
    assert!(matches!(plan.steps[5].command, Command::FetchPreferences { user_id: USER }));
    let (_, answer) = drive(
        plan,
        vec![Reply::Rows(1), Reply::Rows(1), Reply::Rows(1), Reply::Rows(1), Reply::Failed("no rows".to_string())],
    );
    assert_eq!(internal_of(answer), "Database error: no rows");
}

#[test]
fn notification_listing_defaults() {
    let plan = list_notifications(USER, NotificationQuery { limit: None, offset: None, unread_only: None });
    assert!(matches!(
        plan.steps[0].command,
        Command::ListNotifications { user_id: USER, unread_only: false, limit: 50, offset: 0 }
    ));
    assert!(matches!(plan.steps[1].command, Command::CountNotifications { user_id: USER, unread_only: false }));
    let plan = list_notifications(USER, NotificationQuery { limit: Some(3), offset: Some(6), unread_only: Some(true) });
    assert!(matches!(
        plan.steps[0].command,
        Command::ListNotifications { user_id: USER, unread_only: true, limit: 3, offset: 6 }
    ));
}

#[test]
fn marking_read_answers_ok() {
    let (issued, answer) = drive(mark_notification_read(USER, 5), vec![Reply::Rows(0)]);
    assert!(matches!(issued[0], Command::MarkNotificationRead { notification_id: 5, user_id: USER }));
    assert!(matches!(answer, Some(Ok(Response::Status(200)))));
    let (issued, answer) = drive(mark_all_notifications_read(USER), vec![Reply::Rows(12)]);
    assert!(matches!(issued[0], Command::MarkAllNotificationsRead { user_id: USER }));
    assert!(matches!(answer, Some(Ok(Response::Status(200)))));
}

#[test]
fn statistics_default_to_zero() {
    let plan = get_notification_statistics(USER, StatisticsQuery { period_start: 738000, period_end: 738030 });
    assert!(matches!(
        plan.steps[0].command,
        Command::FindStatistics { user_id: USER, period_start: 738000, period_end: 738030 }
    ));
    let (_, answer) = drive(plan, vec![Reply::Statistics(None)]);
    match answer {
        Some(Ok(Response::Statistics(s))) => {
            assert_eq!(s.id, 0);
            assert_eq!(s.user_id, Some(USER));
            assert_eq!(s.contract_id, None);
            assert_eq!((s.period_start, s.period_end), (738000, 738030));
            assert_eq!(s.total_sent + s.total_delivered + s.total_failed + s.new_version_count, 0);
        }
        _ => panic!("expected statistics"),
    }
    let stored = NotificationStatistics {
        id: 4,
        user_id: Some(USER),
        contract_id: Some(2),
        period_start: 738001,
        period_end: 738002,
        new_version_count: 1,
        verification_status_count: 2,
        security_issue_count: 3,
        security_scan_completed_count: 4,
        breaking_change_count: 5,
        deprecation_count: 6,
        maintenance_count: 7,
        compatibility_issue_count: 8,
        total_sent: 9,
        total_delivered: 8,
        total_failed: 1,
    };
    let plan = get_notification_statistics(USER, StatisticsQuery { period_start: 738000, period_end: 738030 });
    let (_, answer) = drive(plan, vec![Reply::Statistics(Some(stored))]);
    assert!(matches!(answer, Some(Ok(Response::Statistics(s))) if s == stored));
}

#[test]
fn webhook_listing() {
    let (issued, answer) = drive(list_webhooks(USER), vec![Reply::Fetched]);
    assert!(matches!(issued[0], Command::ListWebhooks { user_id: USER }));
    assert!(matches!(answer, Some(Ok(Response::Fetched))));
}

fn webhook_request(url: &str, verify_ssl: Option<bool>) -> CreateWebhookRequest {
    CreateWebhookRequest {
        name: "hook".to_string(),
        url: url.to_string(),
        notification_types: vec![NotificationType::SecurityIssue],
        verify_ssl,
        custom_headers: Some("{\"X-Token\":\"abc\"}".to_string()),
    }
}

#[test]
fn webhook_urls_must_be_https() {
    assert!(webhook_url_allowed("https://example.com/hook"));
    assert!(webhook_url_allowed("http://localhost:8080/hook"));
    assert!(!webhook_url_allowed("http://example.com/hook"));
    assert!(!webhook_url_allowed("ftp://localhost"));
    match create_webhook(USER, webhook_request("http://example.com", None)) {
        Err(ApiError::BadRequest { message }) => {
            assert_eq!(message, "Webhook URL must use HTTPS (http://localhost is allowed for testing)")
        }
        _ => panic!("expected bad request"),
    }
}

#[test]
fn webhook_creation() {
    let plan = create_webhook(USER, webhook_request("https://example.com", None)).ok().unwrap();
    match &plan.steps[0].command {
        Command::InsertWebhook { user_id, name, url, notification_types, verify_ssl, custom_headers } => {
            assert_eq!(custom_headers.as_deref(), Some("{\"X-Token\":\"abc\"}"));
            assert_eq!(*user_id, USER);
            assert_eq!(name, "hook");
            assert_eq!(url, "https://example.com");
            assert_eq!(notification_types, &vec![NotificationType::SecurityIssue]);
            assert!(*verify_ssl);
        }
        _ => panic!("expected an insert"),
    }
    assert_eq!(plan.steps[0].failure, FailureContext::CreateWebhook);
    let (_, answer) = drive(plan, vec![Reply::Failed("constraint".to_string())]);
    assert_eq!(internal_of(answer), "Failed to create webhook: constraint");
    let plan = create_webhook(USER, webhook_request("https://example.com", Some(false))).ok().unwrap();
    assert!(matches!(plan.steps[0].command, Command::InsertWebhook { verify_ssl: false, .. }));
}

#[test]
fn webhook_deletion() {
    let (_, answer) = drive(delete_webhook(USER, 8), vec![Reply::Rows(1)]);
    assert!(matches!(answer, Some(Ok(Response::Status(204)))));
    let (issued, answer) = drive(delete_webhook(USER, 8), vec![Reply::Rows(0)]);
    assert!(matches!(issued[0], Command::DeleteWebhook { webhook_id: 8, user_id: USER }));
    assert_eq!(not_found_of(answer), ("webhook".to_string(), "Webhook not found".to_string()));
}

#[test]
fn webhook_deliveries_need_ownership() {
    let plan = get_webhook_deliveries(USER, 8, DeliveriesQuery { limit: None, offset: None });
    assert!(matches!(plan.steps[1].command, Command::ListDeliveries { webhook_id: 8, limit: 50, offset: 0 }));
    assert!(matches!(plan.steps[2].command, Command::CountDeliveries { webhook_id: 8 }));
    let (issued, answer) = drive(plan, vec![Reply::Flag(false)]);
    assert_eq!(issued.len(), 1);
    assert_eq!(not_found_of(answer), ("webhook".to_string(), "Webhook not found".to_string()));
    let plan = get_webhook_deliveries(USER, 8, DeliveriesQuery { limit: Some(2), offset: Some(4) });
    let (issued, answer) = drive(plan, vec![Reply::Flag(true), Reply::Fetched, Reply::Fetched]);
    assert!(matches!(issued[1], Command::ListDeliveries { webhook_id: 8, limit: 2, offset: 4 }));
    assert!(matches!(answer, Some(Ok(Response::Fetched))));
}

#[test]
fn webhook_test_event() {
    let (issued, answer) = drive(test_webhook(USER, 8), vec![Reply::Optional(true), Reply::Rows(1)]);
    assert!(matches!(issued[1], Command::QueueTestDelivery { webhook_id: 8 }));
    assert!(matches!(answer, Some(Ok(Response::Status(202)))));
    let (issued, answer) = drive(test_webhook(USER, 8), vec![Reply::Optional(false)]);
    assert_eq!(issued.len(), 1);
    assert_eq!(not_found_of(answer), ("webhook".to_string(), "Webhook not found".to_string()));
    let (_, answer) = drive(test_webhook(USER, 8), vec![Reply::Optional(true), Reply::Failed("io".to_string())]);
    assert_eq!(internal_of(answer), "Failed to queue test delivery: io");
}

#[test]
fn delivery_retry() {
    let (issued, answer) = drive(retry_webhook_delivery(USER, 9), vec![Reply::Flag(true), Reply::Rows(1)]);
    assert!(matches!(issued[0], Command::DeliveryOwned { delivery_id: 9, user_id: USER }));
    assert!(matches!(issued[1], Command::ResetFailedDelivery { delivery_id: 9 }));
    assert!(matches!(answer, Some(Ok(Response::Status(202)))));
    let (_, answer) = drive(retry_webhook_delivery(USER, 9), vec![Reply::Flag(true), Reply::Rows(0)]);
    match answer {
        Some(Err(ApiError::BadRequest { message })) => {
            assert_eq!(message, "Delivery is not in a failed state and cannot be retried")
        }
        _ => panic!("expected bad request"),
    }
    let (issued, answer) = drive(retry_webhook_delivery(USER, 9), vec![Reply::Flag(false)]);
    assert_eq!(issued.len(), 1);
    assert_eq!(not_found_of(answer), ("delivery".to_string(), "Delivery log not found".to_string()));
}

#[test]
fn replies_of_the_wrong_kind_are_refused() {
    let (ex, _) = Exchange::start(unsubscribe_from_contract(USER, 3));
    assert!(ex.can_accept(&Reply::Rows(0)));
    assert!(ex.can_accept(&Reply::Failed(String::new())));
    assert!(!ex.can_accept(&Reply::Flag(true)));
    assert!(!ex.can_accept(&Reply::Fetched));
}

#[test]
fn plans_finish_as_described() {
    assert!(matches!(mark_notification_read(USER, 1).finish, Finish::Status(200)));
    assert!(matches!(unsubscribe_from_contract(USER, 1).steps[0].guard, Guard::RequireRows(_)));
}

#[test]
fn answered_exchanges_take_no_more_replies() {
    let (mut ex, _) = Exchange::start(delete_webhook(USER, 8));
    assert!(matches!(ex.step(Reply::Rows(0)), Action::Respond(Err(_))));
    assert!(!ex.can_accept(&Reply::Rows(1)));
    assert!(!ex.can_accept(&Reply::Failed(String::new())));
}
