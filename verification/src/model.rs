//! The records exchanged by the subscription, notification and webhook
//! endpoints. Identifiers are 128-bit UUID values and calendar dates are
//! counted in days from the common era (day 1 is 0001-01-01).

use vstd::prelude::*;

verus! {

/// The kinds of event a subscriber can be notified about.
#[derive(Clone, Copy, PartialEq, Eq, Structural, Debug)]
pub enum NotificationType {
    NewVersion,
    VerificationStatus,
    SecurityIssue,
    SecurityScanCompleted,
    BreakingChange,
    Deprecation,
    Maintenance,
    CompatibilityIssue,
}

/// Where notifications are delivered.
#[derive(Clone, Copy, PartialEq, Eq, Structural, Debug)]
pub enum NotificationChannel {
    InApp,
    Email,
    Webhook,
}

/// How often notifications are delivered.
#[derive(Clone, Copy, PartialEq, Eq, Structural, Debug)]
pub enum NotificationFrequency {
    Realtime,
    Hourly,
    Daily,
    Weekly,
}

/// Lifecycle state of a subscription.
#[derive(Clone, Copy, PartialEq, Eq, Structural, Debug)]
pub enum SubscriptionStatus {
    Active,
    Paused,
}

/// Body of a subscribe request; absent fields take their defaults.
pub struct SubscribeRequest {
    pub notification_types: Option<Vec<NotificationType>>,
    pub channels: Option<Vec<NotificationChannel>>,
    pub frequency: Option<NotificationFrequency>,
    pub min_severity: Option<String>,
}

/// What a subscription is stored with.
pub struct SubscriptionSettings {
    pub notification_types: Vec<NotificationType>,
    pub channels: Vec<NotificationChannel>,
    pub frequency: NotificationFrequency,
    pub min_severity: Option<String>,
}

/// Body of a subscription update; only the present fields change.
pub struct UpdateSubscriptionRequest {
    pub status: Option<SubscriptionStatus>,
    pub notification_types: Option<Vec<NotificationType>>,
    pub channels: Option<Vec<NotificationChannel>>,
    pub frequency: Option<NotificationFrequency>,
    pub min_severity: Option<String>,
}

/// Body of a notification preferences update; only the present fields change.
pub struct UpdateUserNotificationPreferencesRequest {
    pub notification_frequency: Option<NotificationFrequency>,
    pub notification_channels: Option<Vec<NotificationChannel>>,
    pub email_notifications_enabled: Option<bool>,
    pub webhook_url: Option<String>,
    pub quiet_hours_start: Option<String>,
    pub quiet_hours_end: Option<String>,
    pub timezone: Option<String>,
}

/// Body of a webhook creation request. The custom headers are a JSON
/// document, kept as its text.
pub struct CreateWebhookRequest {
    pub name: String,
    pub url: String,
    pub notification_types: Vec<NotificationType>,
    pub verify_ssl: Option<bool>,
    pub custom_headers: Option<String>,
}

/// Paging and status filter for listing a user's subscriptions.
pub struct ListSubscriptionsQuery {
    pub limit: Option<i64>,
    pub offset: Option<i64>,
    pub status: Option<String>,
}

/// Paging and unread filter for listing notifications.
pub struct NotificationQuery {
    pub limit: Option<i64>,
    pub offset: Option<i64>,
    pub unread_only: Option<bool>,
}

/// The period whose notification statistics are asked for.
pub struct StatisticsQuery {
    pub period_start: i32,
    pub period_end: i32,
}

/// Paging for listing webhook deliveries.
pub struct DeliveriesQuery {
    pub limit: Option<i64>,
    pub offset: Option<i64>,
}

/// Notification counts of one user over one period.
#[derive(Clone, Copy, PartialEq, Eq, Structural, Debug)]
pub struct NotificationStatistics {
    pub id: u128,
    pub user_id: Option<u128>,
    pub contract_id: Option<u128>,
    pub period_start: i32,
    pub period_end: i32,
    pub new_version_count: i32,
    pub verification_status_count: i32,
    pub security_issue_count: i32,
    pub security_scan_completed_count: i32,
    pub breaking_change_count: i32,
    pub deprecation_count: i32,
    pub maintenance_count: i32,
    pub compatibility_issue_count: i32,
    pub total_sent: i32,
    pub total_delivered: i32,
    pub total_failed: i32,
}

/// Page size for subscription listings when none is given.
pub const DEFAULT_SUBSCRIPTION_LIMIT: i64 = 20;

/// Page size for notification and delivery listings when none is given.
pub const DEFAULT_NOTIFICATION_LIMIT: i64 = 50;

/// The notification types a new subscription gets when none are given.
pub open spec fn default_notification_types() -> Seq<NotificationType> {
    seq![NotificationType::NewVersion, NotificationType::VerificationStatus, NotificationType::SecurityIssue]
}

/// The channels a new subscription gets when none are given.
pub open spec fn default_channels() -> Seq<NotificationChannel> {
    seq![NotificationChannel::InApp]
}

/// Statistics with every count zero, the nil id, and the given user and period.
pub open spec fn empty_statistics(user_id: u128, period_start: i32, period_end: i32) -> NotificationStatistics {
    NotificationStatistics {
        id: 0,
        user_id: Some(user_id),
        contract_id: None,
        period_start,
        period_end,
        new_version_count: 0,
        verification_status_count: 0,
        security_issue_count: 0,
        security_scan_completed_count: 0,
        breaking_change_count: 0,
        deprecation_count: 0,
        maintenance_count: 0,
        compatibility_issue_count: 0,
        total_sent: 0,
        total_delivered: 0,
        total_failed: 0,
    }
}

/// `s` holds the requested values of `req`, with the default types (new
/// version, verification status, security issue), the in-app channel and
/// real-time frequency where the request leaves them out.
pub open spec fn is_settings_for(s: SubscriptionSettings, req: SubscribeRequest) -> bool {
    &&& s.notification_types@ == match req.notification_types {
        Some(v) => v@,
        None => default_notification_types(),
    }
    &&& s.channels@ == match req.channels {
        Some(v) => v@,
        None => default_channels(),
    }
    &&& s.frequency == match req.frequency {
        Some(f) => f,
        None => NotificationFrequency::Realtime,
    }
    &&& s.min_severity == req.min_severity
}

/// Each stored setting follows its own request field alone: a given value is
/// stored as given, and a missing one takes its default, whatever the other
/// fields hold.
pub proof fn lemma_settings_follow_request(s: SubscriptionSettings, req: SubscribeRequest)
    requires
        is_settings_for(s, req),
    ensures
        (req.notification_types matches Some(v) ==> s.notification_types@ == v@),
        (req.notification_types is None ==> s.notification_types@ == seq![
            NotificationType::NewVersion,
            NotificationType::VerificationStatus,
            NotificationType::SecurityIssue,
        ]),
        (req.channels matches Some(v) ==> s.channels@ == v@),
        (req.channels is None ==> s.channels@ == seq![NotificationChannel::InApp]),
        (req.frequency matches Some(f) ==> s.frequency == f),
        (req.frequency is None ==> s.frequency == NotificationFrequency::Realtime),
        s.min_severity == req.min_severity,
{
}

/// The settings a subscribe request stores
pub fn subscription_settings(req: SubscribeRequest) -> (s: SubscriptionSettings)
    ensures
        is_settings_for(s, req),
{
    let notification_types = match req.notification_types {
        Some(v) => v,
        None => vec![
            NotificationType::NewVersion,
            NotificationType::VerificationStatus,
            NotificationType::SecurityIssue,
        ],
    };
    let channels = match req.channels {
        Some(v) => v,
        None => vec![NotificationChannel::InApp],
    };
    let frequency = match req.frequency {
        Some(f) => f,
        None => NotificationFrequency::Realtime,
    };
    let s = SubscriptionSettings { notification_types, channels, frequency, min_severity: req.min_severity };
    assert(s.notification_types@ =~= match req.notification_types {
        Some(v) => v@,
        None => default_notification_types(),
    });
    assert(s.channels@ =~= match req.channels {
        Some(v) => v@,
        None => default_channels(),
    });
    s
}

/// The statistics reported for a period with no stored record.
pub fn default_statistics(user_id: u128, query: &StatisticsQuery) -> (s: NotificationStatistics)
    ensures
        s == empty_statistics(user_id, query.period_start, query.period_end),
{
    NotificationStatistics {
        id: 0,
        user_id: Some(user_id),
        contract_id: None,
        period_start: query.period_start,
        period_end: query.period_end,
        new_version_count: 0,
        verification_status_count: 0,
        security_issue_count: 0,
        security_scan_completed_count: 0,
        breaking_change_count: 0,
        deprecation_count: 0,
        maintenance_count: 0,
        compatibility_issue_count: 0,
        total_sent: 0,
        total_delivered: 0,
        total_failed: 0,
    }
}

} // verus!
