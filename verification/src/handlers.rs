//! The subscription, notification-preference, notification and webhook
//! endpoints. Each endpoint is a plan of database commands with guards (see
//! `exchange`); the plans below fix which commands run, in which order, with
//! which values, and how the endpoint answers. Every plan is authorized for
//! the user it is built for.

use crate::exchange::{
    authorized, bad_request, confirms_ownership, is_bad_request, is_not_found, not_found, ApiError,
    Command, FailureContext, Finish, Guard, Plan, PreferenceChange, Resource, Step, SubscriptionChange,
};
use crate::model::{
    default_statistics, empty_statistics, is_settings_for, subscription_settings, CreateWebhookRequest,
    DeliveriesQuery, ListSubscriptionsQuery, NotificationQuery, StatisticsQuery, SubscribeRequest,
    UpdateSubscriptionRequest, UpdateUserNotificationPreferencesRequest, DEFAULT_NOTIFICATION_LIMIT,
    DEFAULT_SUBSCRIPTION_LIMIT,
};
use crate::text::{has_prefix, starts_with};
use vstd::prelude::*;

verus! {

/// HTTP 200 OK.
pub const STATUS_OK: u16 = 200;

/// HTTP 202 Accepted.
pub const STATUS_ACCEPTED: u16 = 202;

/// HTTP 204 No Content.
pub const STATUS_NO_CONTENT: u16 = 204;

/// The step runs `c`, goes on whatever it returns, and reports a failure as a
/// database error.
pub open spec fn runs(s: Step, c: Command) -> bool {
    s.command == c && s.guard is Proceed && s.failure == FailureContext::Database
}

/// The step runs `c` and answers not found (`resource`, `message`) when the
/// answer is no.
pub open spec fn runs_requiring_flag(s: Step, c: Command, resource: Seq<char>, message: Seq<char>) -> bool {
    &&& s.command == c
    &&& s.failure == FailureContext::Database
    &&& s.guard matches Guard::RequireFlag(e) && is_not_found(e, resource, message)
}

/// The step runs `c` and answers not found (`resource`, `message`) when no
/// row is found.
pub open spec fn runs_requiring_found(s: Step, c: Command, resource: Seq<char>, message: Seq<char>) -> bool {
    &&& s.command == c
    &&& s.failure == FailureContext::Database
    &&& s.guard matches Guard::RequireFound(e) && is_not_found(e, resource, message)
}

/// The step runs `c` and answers not found (`resource`, `message`) when no
/// row is affected.
pub open spec fn runs_requiring_rows(s: Step, c: Command, resource: Seq<char>, message: Seq<char>) -> bool {
    &&& s.command == c
    &&& s.failure == FailureContext::Database
    &&& s.guard matches Guard::RequireRows(e) && is_not_found(e, resource, message)
}

/// A page limit, or the default one.
pub open spec fn limit_or(limit: Option<i64>, default: i64) -> i64 {
    match limit {
        Some(l) => l,
        None => default,
    }
}

/// A page offset, or zero.
pub open spec fn offset_or_zero(offset: Option<i64>) -> i64 {
    match offset {
        Some(o) => o,
        None => 0,
    }
}

/// The subscription fields an update request changes, in the order
/// status, notification types, channels, frequency, minimum severity.
pub open spec fn subscription_changes(req: UpdateSubscriptionRequest) -> Seq<SubscriptionChange> {
    (match req.status {
        Some(x) => seq![SubscriptionChange::Status(x)],
        None => seq![],
    }) + (match req.notification_types {
        Some(x) => seq![SubscriptionChange::NotificationTypes(x)],
        None => seq![],
    }) + (match req.channels {
        Some(x) => seq![SubscriptionChange::Channels(x)],
        None => seq![],
    }) + (match req.frequency {
        Some(x) => seq![SubscriptionChange::Frequency(x)],
        None => seq![],
    }) + (match req.min_severity {
        Some(x) => seq![SubscriptionChange::MinSeverity(x)],
        None => seq![],
    })
}

/// The preference fields an update request changes, in the order frequency,
/// channels, e-mail switch, webhook URL, quiet hours start and end, timezone.
pub open spec fn preference_changes(req: UpdateUserNotificationPreferencesRequest) -> Seq<PreferenceChange> {
    (match req.notification_frequency {
        Some(x) => seq![PreferenceChange::NotificationFrequency(x)],
        None => seq![],
    }) + (match req.notification_channels {
        Some(x) => seq![PreferenceChange::NotificationChannels(x)],
        None => seq![],
    }) + (match req.email_notifications_enabled {
        Some(x) => seq![PreferenceChange::EmailNotificationsEnabled(x)],
        None => seq![],
    }) + (match req.webhook_url {
        Some(x) => seq![PreferenceChange::WebhookUrl(x)],
        None => seq![],
    }) + (match req.quiet_hours_start {
        Some(x) => seq![PreferenceChange::QuietHoursStart(x)],
        None => seq![],
    }) + (match req.quiet_hours_end {
        Some(x) => seq![PreferenceChange::QuietHoursEnd(x)],
        None => seq![],
    }) + (match req.timezone {
        Some(x) => seq![PreferenceChange::Timezone(x)],
        None => seq![],
    })
}

/// One step per subscription change, each a plain update of the subscription.
pub open spec fn subscription_update_steps(subscription_id: u128, changes: Seq<SubscriptionChange>) -> Seq<Step> {
    changes.map_values(
        |c: SubscriptionChange|
            Step {
                command: Command::UpdateSubscription { subscription_id, subscription_change: c },
                guard: Guard::Proceed,
                failure: FailureContext::Database,
            },
    )
}

/// One step per preference change, each a plain update of the user's preferences.
pub open spec fn preference_update_steps(user_id: u128, changes: Seq<PreferenceChange>) -> Seq<Step> {
    changes.map_values(
        |c: PreferenceChange|
            Step {
                command: Command::UpdatePreferences { user_id, preference_change: c },
                guard: Guard::Proceed,
                failure: FailureContext::Database,
            },
    )
}

/// An update request changes exactly the subscription fields it holds: one
/// change per present field, carrying that field's value, and no other.
pub proof fn lemma_subscription_changes_follow_request(req: UpdateSubscriptionRequest)
    ensures
        subscription_changes(req).len() == (if req.status is Some { 1int } else { 0int }) + (
        if req.notification_types is Some { 1int } else { 0int }) + (if req.channels is Some { 1int } else { 0int })
            + (if req.frequency is Some { 1int } else { 0int }) + (if req.min_severity is Some { 1int } else { 0int }),
        (req.status matches Some(x) ==> subscription_changes(req).contains(SubscriptionChange::Status(x))),
        (req.notification_types matches Some(x) ==> subscription_changes(req).contains(
            SubscriptionChange::NotificationTypes(x),
        )),
        (req.channels matches Some(x) ==> subscription_changes(req).contains(SubscriptionChange::Channels(x))),
        (req.frequency matches Some(x) ==> subscription_changes(req).contains(SubscriptionChange::Frequency(x))),
        (req.min_severity matches Some(x) ==> subscription_changes(req).contains(SubscriptionChange::MinSeverity(x))),
{
    let c = subscription_changes(req);
    let n0 = if req.status is Some { 1int } else { 0int };
    let n1 = n0 + if req.notification_types is Some { 1int } else { 0int };
    let n2 = n1 + if req.channels is Some { 1int } else { 0int };
    let n3 = n2 + if req.frequency is Some { 1int } else { 0int };
    if let Some(x) = req.status {
        assert(c[0] == SubscriptionChange::Status(x));
    }
    if let Some(x) = req.notification_types {
        assert(c[n0] == SubscriptionChange::NotificationTypes(x));
    }
    if let Some(x) = req.channels {
        assert(c[n1] == SubscriptionChange::Channels(x));
    }
    if let Some(x) = req.frequency {
        assert(c[n2] == SubscriptionChange::Frequency(x));
    }
    if let Some(x) = req.min_severity {
        assert(c[n3] == SubscriptionChange::MinSeverity(x));
    }
}

/// An update request changes exactly the preference fields it holds: one
/// change per present field, carrying that field's value, and no other.
pub proof fn lemma_preference_changes_follow_request(req: UpdateUserNotificationPreferencesRequest)
    ensures
        preference_changes(req).len() == (if req.notification_frequency is Some { 1int } else { 0int }) + (
        if req.notification_channels is Some { 1int } else { 0int }) + (
        if req.email_notifications_enabled is Some { 1int } else { 0int }) + (if req.webhook_url is Some { 1int } else { 0int })
            + (if req.quiet_hours_start is Some { 1int } else { 0int }) + (
        if req.quiet_hours_end is Some { 1int } else { 0int }) + (if req.timezone is Some { 1int } else { 0int }),
        (req.notification_frequency matches Some(x) ==> preference_changes(req).contains(
            PreferenceChange::NotificationFrequency(x),
        )),
        (req.notification_channels matches Some(x) ==> preference_changes(req).contains(
            PreferenceChange::NotificationChannels(x),
        )),
        (req.email_notifications_enabled matches Some(x) ==> preference_changes(req).contains(
            PreferenceChange::EmailNotificationsEnabled(x),
        )),
        (req.webhook_url matches Some(x) ==> preference_changes(req).contains(PreferenceChange::WebhookUrl(x))),
        (req.quiet_hours_start matches Some(x) ==> preference_changes(req).contains(
            PreferenceChange::QuietHoursStart(x),
        )),
        (req.quiet_hours_end matches Some(x) ==> preference_changes(req).contains(
            PreferenceChange::QuietHoursEnd(x),
        )),
        (req.timezone matches Some(x) ==> preference_changes(req).contains(PreferenceChange::Timezone(x))),
{
    let c = preference_changes(req);
    let n0 = if req.notification_frequency is Some { 1int } else { 0int };
    let n1 = n0 + if req.notification_channels is Some { 1int } else { 0int };
    let n2 = n1 + if req.email_notifications_enabled is Some { 1int } else { 0int };
    let n3 = n2 + if req.webhook_url is Some { 1int } else { 0int };
    let n4 = n3 + if req.quiet_hours_start is Some { 1int } else { 0int };
    let n5 = n4 + if req.quiet_hours_end is Some { 1int } else { 0int };
    if let Some(x) = req.notification_frequency {
        assert(c[0] == PreferenceChange::NotificationFrequency(x));
    }
    if let Some(x) = req.notification_channels {
        assert(c[n0] == PreferenceChange::NotificationChannels(x));
    }
    if let Some(x) = req.email_notifications_enabled {
        assert(c[n1] == PreferenceChange::EmailNotificationsEnabled(x));
    }
    if let Some(x) = req.webhook_url {
        assert(c[n2] == PreferenceChange::WebhookUrl(x));
    }
    if let Some(x) = req.quiet_hours_start {
        assert(c[n3] == PreferenceChange::QuietHoursStart(x));
    }
    if let Some(x) = req.quiet_hours_end {
        assert(c[n4] == PreferenceChange::QuietHoursEnd(x));
    }
    if let Some(x) = req.timezone {
        assert(c[n5] == PreferenceChange::Timezone(x));
    }
}

/// A requested page size and offset are used as given; a missing page size
/// is the default and a missing offset is zero.
pub proof fn lemma_paging_as_requested(limit: i64, offset: i64, default: i64)
    ensures
        limit_or(Some(limit), default) == limit,
        limit_or(None, default) == default,
        offset_or_zero(Some(offset)) == offset,
        offset_or_zero(None) == 0,
{
}

/// A change held by `changes` is carried by one of the update steps that
/// stand between the first and the last step of `steps`.
proof fn lemma_subscription_change_issued(
    subscription_id: u128,
    changes: Seq<SubscriptionChange>,
    steps: Seq<Step>,
    c: SubscriptionChange,
)
    requires
        steps.len() >= 2,
        steps.subrange(1, steps.len() - 1) == subscription_update_steps(subscription_id, changes),
        changes.contains(c),
    ensures
        exists|k: int|
            0 < k < steps.len() - 1 && #[trigger] steps[k].command == (Command::UpdateSubscription {
                subscription_id,
                subscription_change: c,
            }),
{
    let j = choose|j: int| 0 <= j < changes.len() && changes[j] == c;
    let sub = steps.subrange(1, steps.len() - 1);
    assert(sub.len() == changes.len());
    assert(sub[j] == subscription_update_steps(subscription_id, changes)[j]);
    assert(steps[j + 1] == sub[j]);
    assert(steps[j + 1].command == (Command::UpdateSubscription { subscription_id, subscription_change: c }));
}

/// A change held by `changes` is carried by one of the update steps before
/// the last step of `steps`.
proof fn lemma_preference_change_issued(user_id: u128, changes: Seq<PreferenceChange>, steps: Seq<Step>, c: PreferenceChange)
    requires
        steps.len() >= 1,
        steps.subrange(0, steps.len() - 1) == preference_update_steps(user_id, changes),
        changes.contains(c),
    ensures
        exists|k: int|
            0 <= k < steps.len() - 1 && #[trigger] steps[k].command == (Command::UpdatePreferences {
                user_id,
                preference_change: c,
            }),
{
    let j = choose|j: int| 0 <= j < changes.len() && changes[j] == c;
    let sub = steps.subrange(0, steps.len() - 1);
    assert(sub.len() == changes.len());
    assert(sub[j] == preference_update_steps(user_id, changes)[j]);
    assert(steps[j] == sub[j]);
    assert(steps[j].command == (Command::UpdatePreferences { user_id, preference_change: c }));
}

/// Webhooks must use HTTPS; plain HTTP is allowed for localhost only.
pub open spec fn is_allowed_webhook_url(url: Seq<char>) -> bool {
    starts_with(url, "https://"@) || starts_with(url, "http://localhost"@)
}

/// HTTPS URLs and plain-HTTP URLs to localhost are accepted for webhooks;
/// a plain-HTTP URL to any host whose name does not start with `l` is refused.
pub proof fn lemma_webhook_url_rule(rest: Seq<char>)
    ensures
        is_allowed_webhook_url("https://"@ + rest),
        is_allowed_webhook_url("http://localhost"@ + rest),
        rest.len() > 0 && rest[0] != 'l' ==> !is_allowed_webhook_url("http://"@ + rest),
{
    reveal_strlit("https://");
    reveal_strlit("http://localhost");
    reveal_strlit("http://");
    assert(("https://"@ + rest).subrange(0, 8) =~= "https://"@);
    assert(("http://localhost"@ + rest).subrange(0, 16) =~= "http://localhost"@);
    let u = "http://"@ + rest;
    if rest.len() > 0 && rest[0] != 'l' {
        if starts_with(u, "https://"@) {
            assert(u.subrange(0, 8)[4] == "https://"@[4]);
        }
        if starts_with(u, "http://localhost"@) {
            assert(u.subrange(0, 16)[7] == "http://localhost"@[7]);
        }
    }
}

/// One update step per subscription field the request changes.
fn subscription_update_step_list(subscription_id: u128, req: UpdateSubscriptionRequest) -> (v: Vec<Step>)
    ensures
        v@ == subscription_update_steps(subscription_id, subscription_changes(req)),
{
    let ghost r = req;
    let mut v: Vec<Step> = Vec::new();
    let ghost mut done: Seq<SubscriptionChange> = seq![];
    match req.status {
        Some(x) => {
            v.push(plain(Command::UpdateSubscription { subscription_id, subscription_change: SubscriptionChange::Status(x) }));
            proof { done = seq![SubscriptionChange::Status(x)]; }
        },
        None => {},
    }
    assert(v@ =~= subscription_update_steps(subscription_id, done));
    match req.notification_types {
        Some(x) => {
            let ghost x0 = x;
            v.push(plain(Command::UpdateSubscription { subscription_id, subscription_change: SubscriptionChange::NotificationTypes(x) }));
            proof { done = done.push(SubscriptionChange::NotificationTypes(x0)); }
        },
        None => {},
    }
    assert(v@ =~= subscription_update_steps(subscription_id, done));
    match req.channels {
        Some(x) => {
            let ghost x0 = x;
            v.push(plain(Command::UpdateSubscription { subscription_id, subscription_change: SubscriptionChange::Channels(x) }));
            proof { done = done.push(SubscriptionChange::Channels(x0)); }
        },
        None => {},
    }
    assert(v@ =~= subscription_update_steps(subscription_id, done));
    match req.frequency {
        Some(x) => {
            v.push(plain(Command::UpdateSubscription { subscription_id, subscription_change: SubscriptionChange::Frequency(x) }));
            proof { done = done.push(SubscriptionChange::Frequency(x)); }
        },
        None => {},
    }
    assert(v@ =~= subscription_update_steps(subscription_id, done));
    match req.min_severity {
        Some(x) => {
            let ghost x0 = x;
            v.push(plain(Command::UpdateSubscription { subscription_id, subscription_change: SubscriptionChange::MinSeverity(x) }));
            proof { done = done.push(SubscriptionChange::MinSeverity(x0)); }
        },
        None => {},
    }
    assert(v@ =~= subscription_update_steps(subscription_id, done));
    assert(done =~= subscription_changes(r));
    v
}

/// The changes an update request makes to a user's preferences.
#[verifier::rlimit(90)]
fn preference_change_list(req: UpdateUserNotificationPreferencesRequest) -> (v: Vec<PreferenceChange>)
    ensures
        v@ == preference_changes(req),
{
    let ghost r = req;
    let mut v: Vec<PreferenceChange> = Vec::new();
    let ghost mut done: Seq<PreferenceChange> = seq![];
    match req.notification_frequency {
        Some(x) => {
            v.push(PreferenceChange::NotificationFrequency(x));
            proof { done = done.push(PreferenceChange::NotificationFrequency(x)); }
        },
        None => {},
    }
    assert(v@ =~= done);
    match req.notification_channels {
        Some(x) => {
            let ghost x0 = x;
            v.push(PreferenceChange::NotificationChannels(x));
            proof { done = done.push(PreferenceChange::NotificationChannels(x0)); }
        },
        None => {},
    }
    assert(v@ =~= done);
    match req.email_notifications_enabled {
        Some(x) => {
            v.push(PreferenceChange::EmailNotificationsEnabled(x));
            proof { done = done.push(PreferenceChange::EmailNotificationsEnabled(x)); }
        },
        None => {},
    }
    assert(v@ =~= done);
    match req.webhook_url {
        Some(x) => {
            let ghost x0 = x;
            v.push(PreferenceChange::WebhookUrl(x));
            proof { done = done.push(PreferenceChange::WebhookUrl(x0)); }
        },
        None => {},
    }
    assert(v@ =~= done);
    match req.quiet_hours_start {
        Some(x) => {
            let ghost x0 = x;
            v.push(PreferenceChange::QuietHoursStart(x));
            proof { done = done.push(PreferenceChange::QuietHoursStart(x0)); }
        },
        None => {},
    }
    assert(v@ =~= done);
    match req.quiet_hours_end {
        Some(x) => {
            let ghost x0 = x;
            v.push(PreferenceChange::QuietHoursEnd(x));
            proof { done = done.push(PreferenceChange::QuietHoursEnd(x0)); }
        },
        None => {},
    }
    assert(v@ =~= done);
    match req.timezone {
        Some(x) => {
            let ghost x0 = x;
            v.push(PreferenceChange::Timezone(x));
            proof { done = done.push(PreferenceChange::Timezone(x0)); }
        },
        None => {},
    }
    assert(v@ =~= done);
    assert(done =~= preference_changes(r));
    v
}

fn plain(command: Command) -> (s: Step)
    ensures
        runs(s, command),
{
    Step { command, guard: Guard::Proceed, failure: FailureContext::Database }
}

fn copy_status(s: &Option<String>) -> (r: Option<String>)
    ensures
        r == *s,
{
    match s {
        Some(s) => Some(s.clone()),
        None => None,
    }
}

fn page(limit: Option<i64>, offset: Option<i64>, default: i64) -> (r: (i64, i64))
    ensures
        r.0 == limit_or(limit, default),
        r.1 == offset_or_zero(offset),
{
    (
        match limit {
            Some(l) => l,
            None => default,
        },
        match offset {
            Some(o) => o,
            None => 0,
        },
    )
}

/// Subscribe the user to a contract: check that the contract exists (else
/// not found), then store the subscription, active, with the request's
/// settings and their defaults; answer with the stored subscription.
pub fn subscribe_to_contract(user_id: u128, contract_id: u128, req: SubscribeRequest) -> (plan: Plan)
    ensures
        plan.wf(),
        authorized(plan, user_id),
        plan.steps@.len() == 2,
        runs_requiring_flag(plan.steps@[0], Command::ContractExists { contract_id }, "contract"@, "Contract not found"@),
        plan.steps@[1].command matches Command::UpsertSubscription { user_id: u, contract_id: c, settings }
            && u == user_id && c == contract_id && is_settings_for(settings, req),
        (plan.steps@[1].guard is Proceed),
        plan.steps@[1].failure == FailureContext::CreateSubscription,
        plan.finish == Finish::Fetched,
{
    let check = Step {
        command: Command::ContractExists { contract_id },
        guard: Guard::RequireFlag(not_found("contract", "Contract not found")),
        failure: FailureContext::Database,
    };
    let settings = subscription_settings(req);
    let upsert = Step {
        command: Command::UpsertSubscription { user_id, contract_id, settings },
        guard: Guard::Proceed,
        failure: FailureContext::CreateSubscription,
    };
    let plan = Plan { steps: vec![check, upsert], finish: Finish::Fetched };
    assert(crate::exchange::step_authorized(plan.steps@, 0, user_id));
    assert(crate::exchange::step_authorized(plan.steps@, 1, user_id));
    plan
}

/// Unsubscribe the user from a contract: delete the subscription; not found
/// when there was none, otherwise answer 204 No Content.
pub fn unsubscribe_from_contract(user_id: u128, contract_id: u128) -> (plan: Plan)
    ensures
        plan.wf(),
        authorized(plan, user_id),
        plan.steps@.len() == 1,
        runs_requiring_rows(
            plan.steps@[0],
            Command::DeleteSubscription { user_id, contract_id },
            "subscription"@,
            "Subscription not found"@,
        ),
        plan.finish == Finish::Status(STATUS_NO_CONTENT),
{
    let delete = Step {
        command: Command::DeleteSubscription { user_id, contract_id },
        guard: Guard::RequireRows(not_found("subscription", "Subscription not found")),
        failure: FailureContext::Database,
    };
    let plan = Plan { steps: vec![delete], finish: Finish::Status(STATUS_NO_CONTENT) };
    assert(crate::exchange::step_authorized(plan.steps@, 0, user_id));
    plan
}

/// List the user's subscriptions: one page (20 by default, from offset 0),
/// optionally of one status, and the total count under the same filter.
pub fn list_user_subscriptions(user_id: u128, query: ListSubscriptionsQuery) -> (plan: Plan)
    ensures
        plan.wf(),
        authorized(plan, user_id),
        plan.steps@.len() == 2,
        runs(
            plan.steps@[0],
            Command::ListSubscriptions {
                user_id,
                status: query.status,
                limit: limit_or(query.limit, DEFAULT_SUBSCRIPTION_LIMIT),
                offset: offset_or_zero(query.offset),
            },
        ),
        runs(plan.steps@[1], Command::CountSubscriptions { user_id, status: query.status }),
        plan.finish == Finish::Fetched,
        (query.limit matches Some(l) ==> (plan.steps@[0].command matches Command::ListSubscriptions { limit, .. } && limit == l)),
        (query.limit is None ==> (plan.steps@[0].command matches Command::ListSubscriptions { limit, .. } && limit == 20)),
        (query.offset matches Some(o) ==> (plan.steps@[0].command matches Command::ListSubscriptions { offset, .. } && offset == o)),
        (query.offset is None ==> (plan.steps@[0].command matches Command::ListSubscriptions { offset, .. } && offset == 0)),
{
    let (limit, offset) = page(query.limit, query.offset, DEFAULT_SUBSCRIPTION_LIMIT);
    let status = copy_status(&query.status);
    let list = plain(Command::ListSubscriptions { user_id, status, limit, offset });
    let count = plain(Command::CountSubscriptions { user_id, status: query.status });
    let plan = Plan { steps: vec![list, count], finish: Finish::Fetched };
    assert(crate::exchange::step_authorized(plan.steps@, 0, user_id));
    assert(crate::exchange::step_authorized(plan.steps@, 1, user_id));
    plan
}

/// The plan of `update_subscription`, stated over the request's changes.
fn subscription_update_plan(user_id: u128, subscription_id: u128, req: UpdateSubscriptionRequest) -> (plan: Plan)
    ensures
        plan.wf(),
        authorized(plan, user_id),
        plan.steps@.len() == subscription_changes(req).len() + 2,
        runs_requiring_flag(
            plan.steps@[0],
            Command::SubscriptionOwned { subscription_id, user_id },
            "subscription"@,
            "Subscription not found"@,
        ),
        plan.steps@.subrange(1, plan.steps@.len() - 1) == subscription_update_steps(
            subscription_id,
            subscription_changes(req),
        ),
        runs(plan.steps@.last(), Command::FetchSubscription { subscription_id }),
        plan.finish == Finish::Fetched,
{
    let mut steps = subscription_update_step_list(subscription_id, req);
    let ghost middle = steps@;
    steps.insert(
        0,
        Step {
            command: Command::SubscriptionOwned { subscription_id, user_id },
            guard: Guard::RequireFlag(not_found("subscription", "Subscription not found")),
            failure: FailureContext::Database,
        },
    );
    assert(steps@.subrange(1, steps@.len() as int) =~= middle);
    steps.push(plain(Command::FetchSubscription { subscription_id }));
    assert(steps@.subrange(1, steps@.len() - 1) =~= middle);
    let plan = Plan { steps, finish: Finish::Fetched };
    proof {
        let all = plan.steps@;
        assert forall|k: int| 0 <= k < all.len() implies #[trigger] crate::exchange::step_authorized(all, k, user_id)
            && crate::exchange::guard_fits(all[k].guard, crate::exchange::reply_kind(all[k].command)) by {
            if k > 0 {
                if k < all.len() - 1 {
                    assert(all[k] == middle[k - 1]);
                }
                assert(crate::exchange::record_of(all[k].command) == (Resource::Subscription, subscription_id));
                assert(confirms_ownership(all[0], crate::exchange::record_of(all[k].command), user_id));
            }
        }
    }
    plan
}

/// Update one of the user's subscriptions: check that it is the user's (else
/// not found), change each field the request holds, one statement per field,
/// then answer with the stored subscription.
pub fn update_subscription(user_id: u128, subscription_id: u128, req: UpdateSubscriptionRequest) -> (plan: Plan)
    ensures
        plan.wf(),
        authorized(plan, user_id),
        plan.steps@.len() == subscription_changes(req).len() + 2,
        runs_requiring_flag(
            plan.steps@[0],
            Command::SubscriptionOwned { subscription_id, user_id },
            "subscription"@,
            "Subscription not found"@,
        ),
        plan.steps@.subrange(1, plan.steps@.len() - 1) == subscription_update_steps(
            subscription_id,
            subscription_changes(req),
        ),
        runs(plan.steps@.last(), Command::FetchSubscription { subscription_id }),
        plan.finish == Finish::Fetched,
        plan.steps@.len() == 2 + (if req.status is Some { 1int } else { 0int }) + (
        if req.notification_types is Some { 1int } else { 0int }) + (if req.channels is Some { 1int } else { 0int })
            + (if req.frequency is Some { 1int } else { 0int }) + (if req.min_severity is Some { 1int } else { 0int }),
        forall|k: int|
            0 < k < plan.steps@.len() - 1 ==> {
                &&& (#[trigger] plan.steps@[k]).guard is Proceed
                &&& plan.steps@[k].failure == FailureContext::Database
                &&& plan.steps@[k].command matches Command::UpdateSubscription { subscription_id: id, .. }
                    && id == subscription_id
            },
        (req.status matches Some(x) ==> exists|k: int|
            0 < k < plan.steps@.len() - 1 && #[trigger] plan.steps@[k].command == (Command::UpdateSubscription {
                subscription_id,
                subscription_change: SubscriptionChange::Status(x),
            })),
        (req.notification_types matches Some(x) ==> exists|k: int|
            0 < k < plan.steps@.len() - 1 && #[trigger] plan.steps@[k].command == (Command::UpdateSubscription {
                subscription_id,
                subscription_change: SubscriptionChange::NotificationTypes(x),
            })),
        (req.channels matches Some(x) ==> exists|k: int|
            0 < k < plan.steps@.len() - 1 && #[trigger] plan.steps@[k].command == (Command::UpdateSubscription {
                subscription_id,
                subscription_change: SubscriptionChange::Channels(x),
            })),
        (req.frequency matches Some(x) ==> exists|k: int|
            0 < k < plan.steps@.len() - 1 && #[trigger] plan.steps@[k].command == (Command::UpdateSubscription {
                subscription_id,
                subscription_change: SubscriptionChange::Frequency(x),
            })),
        (req.min_severity matches Some(x) ==> exists|k: int|
            0 < k < plan.steps@.len() - 1 && #[trigger] plan.steps@[k].command == (Command::UpdateSubscription {
                subscription_id,
                subscription_change: SubscriptionChange::MinSeverity(x),
            })),
{
    let ghost r = req;
    let plan = subscription_update_plan(user_id, subscription_id, req);
    proof {
        lemma_subscription_changes_follow_request(r);
        let all = plan.steps@;
        let changes = subscription_changes(r);
        assert forall|k: int| 0 < k < all.len() - 1 implies {
            &&& (#[trigger] all[k]).guard is Proceed
            &&& all[k].failure == FailureContext::Database
            &&& all[k].command matches Command::UpdateSubscription { subscription_id: id, .. } && id == subscription_id
        } by {
            assert(all[k] == all.subrange(1, all.len() - 1)[k - 1]);
        }
        if let Some(x) = r.status {
            lemma_subscription_change_issued(subscription_id, changes, all, SubscriptionChange::Status(x));
        }
        if let Some(x) = r.notification_types {
            lemma_subscription_change_issued(subscription_id, changes, all, SubscriptionChange::NotificationTypes(x));
        }
        if let Some(x) = r.channels {
            lemma_subscription_change_issued(subscription_id, changes, all, SubscriptionChange::Channels(x));
        }
        if let Some(x) = r.frequency {
            lemma_subscription_change_issued(subscription_id, changes, all, SubscriptionChange::Frequency(x));
        }
        if let Some(x) = r.min_severity {
            lemma_subscription_change_issued(subscription_id, changes, all, SubscriptionChange::MinSeverity(x));
        }
    }
    plan
}

/// Read the user's notification preferences; not found when there are none.
pub fn get_notification_preferences(user_id: u128) -> (plan: Plan)
    ensures
        plan.wf(),
        authorized(plan, user_id),
        plan.steps@.len() == 1,
        runs_requiring_found(
            plan.steps@[0],
            Command::FindPreferences { user_id },
            "preferences"@,
            "User preferences not found"@,
        ),
        plan.finish == Finish::Fetched,
{
    let find = Step {
        command: Command::FindPreferences { user_id },
        guard: Guard::RequireFound(not_found("preferences", "User preferences not found")),
        failure: FailureContext::Database,
    };
    let plan = Plan { steps: vec![find], finish: Finish::Fetched };
    assert(crate::exchange::step_authorized(plan.steps@, 0, user_id));
    plan
}

/// The plan of `update_notification_preferences`, stated over the request's changes.
fn preference_update_plan(user_id: u128, req: UpdateUserNotificationPreferencesRequest) -> (plan: Plan)
    ensures
        plan.wf(),
        authorized(plan, user_id),
        plan.steps@.len() == preference_changes(req).len() + 1,
        plan.steps@.subrange(0, plan.steps@.len() - 1) == preference_update_steps(user_id, preference_changes(req)),
        runs(plan.steps@.last(), Command::FetchPreferences { user_id }),
        plan.finish == Finish::Fetched,
{
    let mut changes = preference_change_list(req);
    let ghost all_changes = changes@;
    let mut steps: Vec<Step> = Vec::new();
    while changes.len() > 0
        invariant
            all_changes.len() == steps@.len() + changes@.len(),
            changes@ == all_changes.subrange(steps@.len() as int, all_changes.len() as int),
            steps@ == preference_update_steps(user_id, all_changes.subrange(0, steps@.len() as int)),
        decreases changes@.len(),
    {
        let c = changes.remove(0);
        steps.push(plain(Command::UpdatePreferences { user_id, preference_change: c }));
        assert(changes@ =~= all_changes.subrange(steps@.len() as int, all_changes.len() as int));
        assert(steps@ =~= preference_update_steps(user_id, all_changes.subrange(0, steps@.len() as int)));
    }
    assert(all_changes.subrange(0, steps@.len() as int) =~= all_changes);
    let ghost middle = steps@;
    steps.push(plain(Command::FetchPreferences { user_id }));
    assert(steps@.subrange(0, steps@.len() - 1) =~= middle);
    let plan = Plan { steps, finish: Finish::Fetched };
    proof {
        let all = plan.steps@;
        assert forall|k: int| 0 <= k < all.len() implies #[trigger] crate::exchange::step_authorized(all, k, user_id)
            && crate::exchange::guard_fits(all[k].guard, crate::exchange::reply_kind(all[k].command)) by {
            if k < all.len() - 1 {
                assert(all[k] == all.subrange(0, all.len() - 1)[k]);
            }
        }
    }
    plan
}

/// Update the user's notification preferences: change each field the
/// request holds, one statement per field, then answer with the stored
/// preferences.
pub fn update_notification_preferences(user_id: u128, req: UpdateUserNotificationPreferencesRequest) -> (plan: Plan)
    ensures
        plan.wf(),
        authorized(plan, user_id),
        plan.steps@.len() == preference_changes(req).len() + 1,
        plan.steps@.subrange(0, plan.steps@.len() - 1) == preference_update_steps(user_id, preference_changes(req)),
        runs(plan.steps@.last(), Command::FetchPreferences { user_id }),
        plan.finish == Finish::Fetched,
        plan.steps@.len() == 1 + (if req.notification_frequency is Some { 1int } else { 0int }) + (
        if req.notification_channels is Some { 1int } else { 0int }) + (
        if req.email_notifications_enabled is Some { 1int } else { 0int }) + (if req.webhook_url is Some { 1int } else { 0int })
            + (if req.quiet_hours_start is Some { 1int } else { 0int }) + (
        if req.quiet_hours_end is Some { 1int } else { 0int }) + (if req.timezone is Some { 1int } else { 0int }),
        forall|k: int|
            0 <= k < plan.steps@.len() - 1 ==> {
                &&& (#[trigger] plan.steps@[k]).guard is Proceed
                &&& plan.steps@[k].failure == FailureContext::Database
                &&& plan.steps@[k].command matches Command::UpdatePreferences { user_id: id, .. } && id == user_id
            },
        (req.notification_frequency matches Some(x) ==> exists|k: int|
            0 <= k < plan.steps@.len() - 1 && #[trigger] plan.steps@[k].command == (Command::UpdatePreferences {
                user_id,
                preference_change: PreferenceChange::NotificationFrequency(x),
            })),
        (req.notification_channels matches Some(x) ==> exists|k: int|
            0 <= k < plan.steps@.len() - 1 && #[trigger] plan.steps@[k].command == (Command::UpdatePreferences {
                user_id,
                preference_change: PreferenceChange::NotificationChannels(x),
            })),
        (req.email_notifications_enabled matches Some(x) ==> exists|k: int|
            0 <= k < plan.steps@.len() - 1 && #[trigger] plan.steps@[k].command == (Command::UpdatePreferences {
                user_id,
                preference_change: PreferenceChange::EmailNotificationsEnabled(x),
            })),
        (req.webhook_url matches Some(x) ==> exists|k: int|
            0 <= k < plan.steps@.len() - 1 && #[trigger] plan.steps@[k].command == (Command::UpdatePreferences {
                user_id,
                preference_change: PreferenceChange::WebhookUrl(x),
            })),
        (req.quiet_hours_start matches Some(x) ==> exists|k: int|
            0 <= k < plan.steps@.len() - 1 && #[trigger] plan.steps@[k].command == (Command::UpdatePreferences {
                user_id,
                preference_change: PreferenceChange::QuietHoursStart(x),
            })),
        (req.quiet_hours_end matches Some(x) ==> exists|k: int|
            0 <= k < plan.steps@.len() - 1 && #[trigger] plan.steps@[k].command == (Command::UpdatePreferences {
                user_id,
                preference_change: PreferenceChange::QuietHoursEnd(x),
            })),
        (req.timezone matches Some(x) ==> exists|k: int|
            0 <= k < plan.steps@.len() - 1 && #[trigger] plan.steps@[k].command == (Command::UpdatePreferences {
                user_id,
                preference_change: PreferenceChange::Timezone(x),
            })),
{
    let ghost r = req;
    let plan = preference_update_plan(user_id, req);
    proof {
        lemma_preference_changes_follow_request(r);
        let all = plan.steps@;
        let changes = preference_changes(r);
        assert forall|k: int| 0 <= k < all.len() - 1 implies {
            &&& (#[trigger] all[k]).guard is Proceed
            &&& all[k].failure == FailureContext::Database
            &&& all[k].command matches Command::UpdatePreferences { user_id: id, .. } && id == user_id
        } by {
            assert(all[k] == all.subrange(0, all.len() - 1)[k]);
        }
        if let Some(x) = r.notification_frequency {
            lemma_preference_change_issued(user_id, changes, all, PreferenceChange::NotificationFrequency(x));
        }
        if let Some(x) = r.notification_channels {
            lemma_preference_change_issued(user_id, changes, all, PreferenceChange::NotificationChannels(x));
        }
        if let Some(x) = r.email_notifications_enabled {
            lemma_preference_change_issued(user_id, changes, all, PreferenceChange::EmailNotificationsEnabled(x));
        }
        if let Some(x) = r.webhook_url {
            lemma_preference_change_issued(user_id, changes, all, PreferenceChange::WebhookUrl(x));
        }
        if let Some(x) = r.quiet_hours_start {
            lemma_preference_change_issued(user_id, changes, all, PreferenceChange::QuietHoursStart(x));
        }
        if let Some(x) = r.quiet_hours_end {
            lemma_preference_change_issued(user_id, changes, all, PreferenceChange::QuietHoursEnd(x));
        }
        if let Some(x) = r.timezone {
            lemma_preference_change_issued(user_id, changes, all, PreferenceChange::Timezone(x));
        }
    }
    plan
}

/// List the notifications of the user's subscriptions: one page (50 by
/// default, from offset 0), unread ones only when asked (not by default),
/// and the total count under the same filter.
pub fn list_notifications(user_id: u128, query: NotificationQuery) -> (plan: Plan)
    ensures
        plan.wf(),
        authorized(plan, user_id),
        plan.steps@.len() == 2,
        runs(
            plan.steps@[0],
            Command::ListNotifications {
                user_id,
                unread_only: query.unread_only == Some(true),
                limit: limit_or(query.limit, DEFAULT_NOTIFICATION_LIMIT),
                offset: offset_or_zero(query.offset),
            },
        ),
        runs(plan.steps@[1], Command::CountNotifications { user_id, unread_only: query.unread_only == Some(true) }),
        plan.finish == Finish::Fetched,
        (query.limit matches Some(l) ==> (plan.steps@[0].command matches Command::ListNotifications { limit, .. } && limit == l)),
        (query.limit is None ==> (plan.steps@[0].command matches Command::ListNotifications { limit, .. } && limit == 50)),
        (query.offset matches Some(o) ==> (plan.steps@[0].command matches Command::ListNotifications { offset, .. } && offset == o)),
        (query.offset is None ==> (plan.steps@[0].command matches Command::ListNotifications { offset, .. } && offset == 0)),
{
    let (limit, offset) = page(query.limit, query.offset, DEFAULT_NOTIFICATION_LIMIT);
    let unread_only = match query.unread_only {
        Some(b) => b,
        None => false,
    };
    let list = plain(Command::ListNotifications { user_id, unread_only, limit, offset });
    let count = plain(Command::CountNotifications { user_id, unread_only });
    let plan = Plan { steps: vec![list, count], finish: Finish::Fetched };
    assert(crate::exchange::step_authorized(plan.steps@, 0, user_id));
    assert(crate::exchange::step_authorized(plan.steps@, 1, user_id));
    plan
}

/// Mark one notification of the user's subscriptions read; answer 200 OK.
pub fn mark_notification_read(user_id: u128, notification_id: u128) -> (plan: Plan)
    ensures
        plan.wf(),
        authorized(plan, user_id),
        plan.steps@.len() == 1,
        runs(plan.steps@[0], Command::MarkNotificationRead { notification_id, user_id }),
        plan.finish == Finish::Status(STATUS_OK),
{
    let plan = Plan {
        steps: vec![plain(Command::MarkNotificationRead { notification_id, user_id })],
        finish: Finish::Status(STATUS_OK),
    };
    assert(crate::exchange::step_authorized(plan.steps@, 0, user_id));
    plan
}

/// Mark every unread notification of the user's subscriptions read; answer 200 OK.
pub fn mark_all_notifications_read(user_id: u128) -> (plan: Plan)
    ensures
        plan.wf(),
        authorized(plan, user_id),
        plan.steps@.len() == 1,
        runs(plan.steps@[0], Command::MarkAllNotificationsRead { user_id }),
        plan.finish == Finish::Status(STATUS_OK),
{
    let plan = Plan {
        steps: vec![plain(Command::MarkAllNotificationsRead { user_id })],
        finish: Finish::Status(STATUS_OK),
    };
    assert(crate::exchange::step_authorized(plan.steps@, 0, user_id));
    plan
}

/// The user's notification statistics for a period: the latest record within
/// it, or all-zero statistics for the user and period when there is none.
pub fn get_notification_statistics(user_id: u128, query: StatisticsQuery) -> (plan: Plan)
    ensures
        plan.wf(),
        authorized(plan, user_id),
        plan.steps@.len() == 1,
        runs(
            plan.steps@[0],
            Command::FindStatistics { user_id, period_start: query.period_start, period_end: query.period_end },
        ),
        plan.finish == Finish::StatisticsOrDefault(empty_statistics(user_id, query.period_start, query.period_end)),
        (plan.finish matches Finish::StatisticsOrDefault(d) && {
            &&& d.id == 0
            &&& d.user_id == Some(user_id)
            &&& d.contract_id is None
            &&& d.period_start == query.period_start
            &&& d.period_end == query.period_end
            &&& d.new_version_count == 0 && d.verification_status_count == 0 && d.security_issue_count == 0
            &&& d.security_scan_completed_count == 0 && d.breaking_change_count == 0 && d.deprecation_count == 0
            &&& d.maintenance_count == 0 && d.compatibility_issue_count == 0
            &&& d.total_sent == 0 && d.total_delivered == 0 && d.total_failed == 0
        }),
{
    let fallback = default_statistics(user_id, &query);
    let plan = Plan {
        steps: vec![
            plain(Command::FindStatistics { user_id, period_start: query.period_start, period_end: query.period_end }),
        ],
        finish: Finish::StatisticsOrDefault(fallback),
    };
    assert(crate::exchange::step_authorized(plan.steps@, 0, user_id));
    plan
}

/// List the user's webhooks.
pub fn list_webhooks(user_id: u128) -> (plan: Plan)
    ensures
        plan.wf(),
        authorized(plan, user_id),
        plan.steps@.len() == 1,
        runs(plan.steps@[0], Command::ListWebhooks { user_id }),
        plan.finish == Finish::Fetched,
{
    let plan = Plan { steps: vec![plain(Command::ListWebhooks { user_id })], finish: Finish::Fetched };
    assert(crate::exchange::step_authorized(plan.steps@, 0, user_id));
    plan
}

/// Whether a webhook URL is acceptable: HTTPS, or HTTP to localhost.
pub fn webhook_url_allowed(url: &str) -> (r: bool)
    ensures
        r == is_allowed_webhook_url(url@),
{
    has_prefix(url, "https://") || has_prefix(url, "http://localhost")
}

/// Create a webhook for the user: a URL that is neither HTTPS nor HTTP to
/// localhost is a bad request; otherwise store the webhook, active, with the
/// request's name, URL, types and custom headers, checking TLS certificates
/// unless the request says not to, and answer with it.
pub fn create_webhook(user_id: u128, req: CreateWebhookRequest) -> (r: Result<Plan, ApiError>)
    ensures
        is_allowed_webhook_url(req.url@) <==> r is Ok,
        match r {
            Ok(plan) => {
                &&& plan.wf()
                &&& authorized(plan, user_id)
                &&& plan.steps@.len() == 1
                &&& plan.steps@[0].command == Command::InsertWebhook {
                    user_id,
                    name: req.name,
                    url: req.url,
                    notification_types: req.notification_types,
                    verify_ssl: req.verify_ssl != Some(false),
                    custom_headers: req.custom_headers,
                }
                &&& plan.steps@[0].guard is Proceed
                &&& plan.steps@[0].failure == FailureContext::CreateWebhook
                &&& plan.finish == Finish::Fetched
            },
            Err(e) => is_bad_request(e, "Webhook URL must use HTTPS (http://localhost is allowed for testing)"@),
        },
{
    if !webhook_url_allowed(req.url.as_str()) {
        return Err(bad_request("Webhook URL must use HTTPS (http://localhost is allowed for testing)"));
    }
    let verify_ssl = match req.verify_ssl {
        Some(b) => b,
        None => true,
    };
    let CreateWebhookRequest { name, url, notification_types, verify_ssl: _, custom_headers } = req;
    let insert = Step {
        command: Command::InsertWebhook { user_id, name, url, notification_types, verify_ssl, custom_headers },
        guard: Guard::Proceed,
        failure: FailureContext::CreateWebhook,
    };
    let plan = Plan { steps: vec![insert], finish: Finish::Fetched };
    assert(crate::exchange::step_authorized(plan.steps@, 0, user_id));
    Ok(plan)
}

/// Delete one of the user's webhooks; not found when there was none,
/// otherwise answer 204 No Content.
pub fn delete_webhook(user_id: u128, webhook_id: u128) -> (plan: Plan)
    ensures
        plan.wf(),
        authorized(plan, user_id),
        plan.steps@.len() == 1,
        runs_requiring_rows(plan.steps@[0], Command::DeleteWebhook { webhook_id, user_id }, "webhook"@, "Webhook not found"@),
        plan.finish == Finish::Status(STATUS_NO_CONTENT),
{
    let delete = Step {
        command: Command::DeleteWebhook { webhook_id, user_id },
        guard: Guard::RequireRows(not_found("webhook", "Webhook not found")),
        failure: FailureContext::Database,
    };
    let plan = Plan { steps: vec![delete], finish: Finish::Status(STATUS_NO_CONTENT) };
    assert(crate::exchange::step_authorized(plan.steps@, 0, user_id));
    plan
}

/// The delivery log of one of the user's webhooks: check that the webhook is
/// the user's (else not found), then one page of deliveries (50 by default,
/// from offset 0) and their total count.
pub fn get_webhook_deliveries(user_id: u128, webhook_id: u128, query: DeliveriesQuery) -> (plan: Plan)
    ensures
        plan.wf(),
        authorized(plan, user_id),
        plan.steps@.len() == 3,
        runs_requiring_flag(plan.steps@[0], Command::WebhookOwned { webhook_id, user_id }, "webhook"@, "Webhook not found"@),
        runs(
            plan.steps@[1],
            Command::ListDeliveries {
                webhook_id,
                limit: limit_or(query.limit, DEFAULT_NOTIFICATION_LIMIT),
                offset: offset_or_zero(query.offset),
            },
        ),
        runs(plan.steps@[2], Command::CountDeliveries { webhook_id }),
        plan.finish == Finish::Fetched,
        (query.limit matches Some(l) ==> (plan.steps@[1].command matches Command::ListDeliveries { limit, .. } && limit == l)),
        (query.limit is None ==> (plan.steps@[1].command matches Command::ListDeliveries { limit, .. } && limit == 50)),
        (query.offset matches Some(o) ==> (plan.steps@[1].command matches Command::ListDeliveries { offset, .. } && offset == o)),
        (query.offset is None ==> (plan.steps@[1].command matches Command::ListDeliveries { offset, .. } && offset == 0)),
{
    let owned = Step {
        command: Command::WebhookOwned { webhook_id, user_id },
        guard: Guard::RequireFlag(not_found("webhook", "Webhook not found")),
        failure: FailureContext::Database,
    };
    let (limit, offset) = page(query.limit, query.offset, DEFAULT_NOTIFICATION_LIMIT);
    let list = plain(Command::ListDeliveries { webhook_id, limit, offset });
    let count = plain(Command::CountDeliveries { webhook_id });
    let plan = Plan { steps: vec![owned, list, count], finish: Finish::Fetched };
    proof {
        let all = plan.steps@;
        assert(confirms_ownership(all[0], (Resource::Webhook, webhook_id), user_id));
        assert(crate::exchange::step_authorized(all, 0, user_id));
        assert(crate::exchange::record_of(all[1].command) == (Resource::Webhook, webhook_id));
        assert(confirms_ownership(all[0], crate::exchange::record_of(all[1].command), user_id));
        assert(crate::exchange::record_of(all[2].command) == (Resource::Webhook, webhook_id));
        assert(confirms_ownership(all[0], crate::exchange::record_of(all[2].command), user_id));
        assert(crate::exchange::step_authorized(all, 1, user_id));
        assert(crate::exchange::step_authorized(all, 2, user_id));
    }
    plan
}

/// Send a test event to one of the user's webhooks: find the webhook (else
/// not found), log a pending test delivery, and answer 202 Accepted.
pub fn test_webhook(user_id: u128, webhook_id: u128) -> (plan: Plan)
    ensures
        plan.wf(),
        authorized(plan, user_id),
        plan.steps@.len() == 2,
        runs_requiring_found(plan.steps@[0], Command::FindOwnedWebhook { webhook_id, user_id }, "webhook"@, "Webhook not found"@),
        plan.steps@[1].command == (Command::QueueTestDelivery { webhook_id }),
        (plan.steps@[1].guard is Proceed),
        plan.steps@[1].failure == FailureContext::QueueTestDelivery,
        plan.finish == Finish::Status(STATUS_ACCEPTED),
{
    let find = Step {
        command: Command::FindOwnedWebhook { webhook_id, user_id },
        guard: Guard::RequireFound(not_found("webhook", "Webhook not found")),
        failure: FailureContext::Database,
    };
    let queue = Step {
        command: Command::QueueTestDelivery { webhook_id },
        guard: Guard::Proceed,
        failure: FailureContext::QueueTestDelivery,
    };
    let plan = Plan { steps: vec![find, queue], finish: Finish::Status(STATUS_ACCEPTED) };
    proof {
        let all = plan.steps@;
        assert(confirms_ownership(all[0], (Resource::Webhook, webhook_id), user_id));
        assert(crate::exchange::record_of(all[1].command) == (Resource::Webhook, webhook_id));
        assert(confirms_ownership(all[0], crate::exchange::record_of(all[1].command), user_id));
        assert(crate::exchange::step_authorized(all, 0, user_id));
        assert(crate::exchange::step_authorized(all, 1, user_id));
    }
    plan
}

/// Retry a failed delivery of one of the user's webhooks: check that the
/// delivery is the user's (else not found), reset it to pending if it failed
/// (a bad request when it had not), and answer 202 Accepted.
pub fn retry_webhook_delivery(user_id: u128, delivery_id: u128) -> (plan: Plan)
    ensures
        plan.wf(),
        authorized(plan, user_id),
        plan.steps@.len() == 2,
        runs_requiring_flag(
            plan.steps@[0],
            Command::DeliveryOwned { delivery_id, user_id },
            "delivery"@,
            "Delivery log not found"@,
        ),
        plan.steps@[1].command == (Command::ResetFailedDelivery { delivery_id }),
        plan.steps@[1].failure == FailureContext::Database,
        plan.steps@[1].guard matches Guard::RequireRows(e)
            && is_bad_request(e, "Delivery is not in a failed state and cannot be retried"@),
        plan.finish == Finish::Status(STATUS_ACCEPTED),
{
    let owned = Step {
        command: Command::DeliveryOwned { delivery_id, user_id },
        guard: Guard::RequireFlag(not_found("delivery", "Delivery log not found")),
        failure: FailureContext::Database,
    };
    let reset = Step {
        command: Command::ResetFailedDelivery { delivery_id },
        guard: Guard::RequireRows(bad_request("Delivery is not in a failed state and cannot be retried")),
        failure: FailureContext::Database,
    };
    let plan = Plan { steps: vec![owned, reset], finish: Finish::Status(STATUS_ACCEPTED) };
    proof {
        let all = plan.steps@;
        assert(confirms_ownership(all[0], (Resource::Delivery, delivery_id), user_id));
        assert(crate::exchange::record_of(all[1].command) == (Resource::Delivery, delivery_id));
        assert(confirms_ownership(all[0], crate::exchange::record_of(all[1].command), user_id));
        assert(crate::exchange::step_authorized(all, 0, user_id));
        assert(crate::exchange::step_authorized(all, 1, user_id));
    }
    plan
}

} // verus!
