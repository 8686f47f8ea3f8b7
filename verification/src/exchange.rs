//! The database exchange of an endpoint: a plan of commands, each followed by
//! a guard on its reply, and a verified interpreter that walks the plan one
//! reply at a time. The caller runs each command against the database and
//! hands back what came of it; the interpreter decides whether to go on, to
//! stop with an error, or to respond.

use crate::model::{NotificationChannel, NotificationFrequency, NotificationStatistics, NotificationType, SubscriptionSettings, SubscriptionStatus};
use crate::text::concat;
use vstd::prelude::*;
use vstd::string::*;

verus! {

/// An endpoint error, as sent to the client.
pub enum ApiError {
    BadRequest { message: String },
    NotFound { resource: String, message: String },
    Internal { message: String },
}

/// `e` is a not-found error for `resource` with `message`.
pub open spec fn is_not_found(e: ApiError, resource: Seq<char>, message: Seq<char>) -> bool {
    e matches ApiError::NotFound { resource: r, message: m } && r@ == resource && m@ == message
}

/// `e` is a bad-request error with `message`.
pub open spec fn is_bad_request(e: ApiError, message: Seq<char>) -> bool {
    e matches ApiError::BadRequest { message: m } && m@ == message
}

/// `e` is an internal error with `message`.
pub open spec fn is_internal(e: ApiError, message: Seq<char>) -> bool {
    e matches ApiError::Internal { message: m } && m@ == message
}

/// A not-found error.
pub fn not_found(resource: &str, message: &str) -> (e: ApiError)
    ensures
        is_not_found(e, resource@, message@),
{
    ApiError::NotFound { resource: String::from_str(resource), message: String::from_str(message) }
}

/// A bad-request error.
pub fn bad_request(message: &str) -> (e: ApiError)
    ensures
        is_bad_request(e, message@),
{
    ApiError::BadRequest { message: String::from_str(message) }
}

/// A change to one field of a subscription.
pub enum SubscriptionChange {
    Status(SubscriptionStatus),
    NotificationTypes(Vec<NotificationType>),
    Channels(Vec<NotificationChannel>),
    Frequency(NotificationFrequency),
    MinSeverity(String),
}

/// A change to one field of a user's notification preferences.
pub enum PreferenceChange {
    NotificationFrequency(NotificationFrequency),
    NotificationChannels(Vec<NotificationChannel>),
    EmailNotificationsEnabled(bool),
    WebhookUrl(String),
    QuietHoursStart(String),
    QuietHoursEnd(String),
    Timezone(String),
}

/// One database statement of an endpoint.
pub enum Command {
    /// Whether a contract with this id exists.
    ContractExists { contract_id: u128 },
    /// Insert the user's subscription to the contract, or reactivate and
    /// overwrite an existing one, returning the stored row.
    UpsertSubscription { user_id: u128, contract_id: u128, settings: SubscriptionSettings },
    /// Delete the user's subscription to the contract.
    DeleteSubscription { user_id: u128, contract_id: u128 },
    /// One page of the user's subscriptions, newest first, optionally of one status.
    ListSubscriptions { user_id: u128, status: Option<String>, limit: i64, offset: i64 },
    /// How many subscriptions the user has, optionally of one status.
    CountSubscriptions { user_id: u128, status: Option<String> },
    /// Whether this subscription belongs to the user.
    SubscriptionOwned { subscription_id: u128, user_id: u128 },
    /// Change one field of a subscription and stamp its update time.
    UpdateSubscription { subscription_id: u128, subscription_change: SubscriptionChange },
    /// The stored subscription row.
    FetchSubscription { subscription_id: u128 },
    /// The user's preferences row, if there is one.
    FindPreferences { user_id: u128 },
    /// Change one field of the user's preferences and stamp its update time.
    UpdatePreferences { user_id: u128, preference_change: PreferenceChange },
    /// The user's preferences row, which must exist.
    FetchPreferences { user_id: u128 },
    /// One page of the notifications of the user's subscriptions, by priority
    /// then newest first; only unread ones when asked.
    ListNotifications { user_id: u128, unread_only: bool, limit: i64, offset: i64 },
    /// How many such notifications there are.
    CountNotifications { user_id: u128, unread_only: bool },
    /// Mark the notification read if it belongs to one of the user's subscriptions.
    MarkNotificationRead { notification_id: u128, user_id: u128 },
    /// Mark every unread notification of the user's subscriptions read.
    MarkAllNotificationsRead { user_id: u128 },
    /// The most recent statistics record of the user lying within the period.
    FindStatistics { user_id: u128, period_start: i32, period_end: i32 },
    /// The user's webhooks, newest first.
    ListWebhooks { user_id: u128 },
    /// Create an active webhook for the user, returning the stored row. The
    /// custom headers are the text of a JSON document.
    InsertWebhook {
        user_id: u128,
        name: String,
        url: String,
        notification_types: Vec<NotificationType>,
        verify_ssl: bool,
        custom_headers: Option<String>,
    },
    /// Delete the user's webhook.
    DeleteWebhook { webhook_id: u128, user_id: u128 },
    /// Whether this webhook belongs to the user.
    WebhookOwned { webhook_id: u128, user_id: u128 },
    /// One page of the webhook's delivery log, newest first.
    ListDeliveries { webhook_id: u128, limit: i64, offset: i64 },
    /// How many deliveries the webhook has logged.
    CountDeliveries { webhook_id: u128 },
    /// The user's webhook with this id, if there is one.
    FindOwnedWebhook { webhook_id: u128, user_id: u128 },
    /// Log a pending test delivery for the webhook.
    QueueTestDelivery { webhook_id: u128 },
    /// Whether this delivery was made for one of the user's webhooks.
    DeliveryOwned { delivery_id: u128, user_id: u128 },
    /// Reset the delivery to pending with no attempts, if it failed.
    ResetFailedDelivery { delivery_id: u128 },
}

/// What kind of reply a command produces.
#[derive(Clone, Copy, PartialEq, Eq, Structural, Debug)]
pub enum ReplyKind {
    /// A yes/no answer (`EXISTS`).
    Flag,
    /// A number of affected rows.
    Rows,
    /// Rows the caller keeps for the response.
    Fetched,
    /// Whether an optional row was found.
    Optional,
    /// An optional statistics record.
    Statistics,
}

/// What the caller reports after running a command.
pub enum Reply {
    Flag(bool),
    Rows(u64),
    Fetched,
    Optional(bool),
    Statistics(Option<NotificationStatistics>),
    /// The database reported an error, described by the text.
    Failed(String),
}

/// The kind of reply each command produces.
pub open spec fn reply_kind(c: Command) -> ReplyKind {
    match c {
        Command::ContractExists { .. } => ReplyKind::Flag,
        Command::UpsertSubscription { .. } => ReplyKind::Fetched,
        Command::DeleteSubscription { .. } => ReplyKind::Rows,
        Command::ListSubscriptions { .. } => ReplyKind::Fetched,
        Command::CountSubscriptions { .. } => ReplyKind::Fetched,
        Command::SubscriptionOwned { .. } => ReplyKind::Flag,
        Command::UpdateSubscription { .. } => ReplyKind::Rows,
        Command::FetchSubscription { .. } => ReplyKind::Fetched,
        Command::FindPreferences { .. } => ReplyKind::Optional,
        Command::UpdatePreferences { .. } => ReplyKind::Rows,
        Command::FetchPreferences { .. } => ReplyKind::Fetched,
        Command::ListNotifications { .. } => ReplyKind::Fetched,
        Command::CountNotifications { .. } => ReplyKind::Fetched,
        Command::MarkNotificationRead { .. } => ReplyKind::Rows,
        Command::MarkAllNotificationsRead { .. } => ReplyKind::Rows,
        Command::FindStatistics { .. } => ReplyKind::Statistics,
        Command::ListWebhooks { .. } => ReplyKind::Fetched,
        Command::InsertWebhook { .. } => ReplyKind::Fetched,
        Command::DeleteWebhook { .. } => ReplyKind::Rows,
        Command::WebhookOwned { .. } => ReplyKind::Flag,
        Command::ListDeliveries { .. } => ReplyKind::Fetched,
        Command::CountDeliveries { .. } => ReplyKind::Fetched,
        Command::FindOwnedWebhook { .. } => ReplyKind::Optional,
        Command::QueueTestDelivery { .. } => ReplyKind::Rows,
        Command::DeliveryOwned { .. } => ReplyKind::Flag,
        Command::ResetFailedDelivery { .. } => ReplyKind::Rows,
    }
}

/// A reply of this kind (a failure fits every kind).
pub open spec fn fits(kind: ReplyKind, r: Reply) -> bool {
    match r {
        Reply::Failed(_) => true,
        Reply::Flag(_) => kind == ReplyKind::Flag,
        Reply::Rows(_) => kind == ReplyKind::Rows,
        Reply::Fetched => kind == ReplyKind::Fetched,
        Reply::Optional(_) => kind == ReplyKind::Optional,
        Reply::Statistics(_) => kind == ReplyKind::Statistics,
    }
}

/// What must hold of a command's reply for the exchange to go on.
pub enum Guard {
    /// Any successful reply.
    Proceed,
    /// The answer must be yes; otherwise respond with the error.
    RequireFlag(ApiError),
    /// The optional row must be found; otherwise respond with the error.
    RequireFound(ApiError),
    /// Some row must be affected; otherwise respond with the error.
    RequireRows(ApiError),
}

/// The guard can judge replies of this kind.
pub open spec fn guard_fits(g: Guard, kind: ReplyKind) -> bool {
    match g {
        Guard::Proceed => true,
        Guard::RequireFlag(_) => kind == ReplyKind::Flag,
        Guard::RequireFound(_) => kind == ReplyKind::Optional,
        Guard::RequireRows(_) => kind == ReplyKind::Rows,
    }
}

/// The guard stops the exchange on this (successful) reply.
pub open spec fn blocks(g: Guard, r: Reply) -> bool {
    match g {
        Guard::Proceed => false,
        Guard::RequireFlag(_) => r == Reply::Flag(false),
        Guard::RequireFound(_) => r == Reply::Optional(false),
        Guard::RequireRows(_) => r == Reply::Rows(0),
    }
}

/// The error a stopping guard responds with.
pub open spec fn guard_error(g: Guard) -> ApiError {
    match g {
        Guard::RequireFlag(e) => e,
        Guard::RequireFound(e) => e,
        Guard::RequireRows(e) => e,
        Guard::Proceed => arbitrary(),
    }
}

/// How a database failure of a command is reported.
#[derive(Clone, Copy, PartialEq, Eq, Structural, Debug)]
pub enum FailureContext {
    Database,
    CreateSubscription,
    CreateWebhook,
    QueueTestDelivery,
}

/// The text put before the database's own message.
pub open spec fn failure_prefix(c: FailureContext) -> Seq<char> {
    match c {
        FailureContext::Database => "Database error: "@,
        FailureContext::CreateSubscription => "Failed to create subscription: "@,
        FailureContext::CreateWebhook => "Failed to create webhook: "@,
        FailureContext::QueueTestDelivery => "Failed to queue test delivery: "@,
    }
}

/// A command with its guard and the way its failure is reported.
pub struct Step {
    pub command: Command,
    pub guard: Guard,
    pub failure: FailureContext,
}

/// How an exchange whose every guard passed is answered.
#[derive(Clone, Copy, PartialEq, Eq, Structural, Debug)]
pub enum Finish {
    /// A bare status code.
    Status(u16),
    /// The rows fetched during the exchange.
    Fetched,
    /// The statistics found by the last command, or these when none were.
    StatisticsOrDefault(NotificationStatistics),
}

/// The answer to a client.
#[derive(Clone, Copy, PartialEq, Eq, Structural, Debug)]
pub enum Response {
    Status(u16),
    Fetched,
    Statistics(NotificationStatistics),
}

/// The successful response of a finished plan, given the last reply.
pub open spec fn finish_response(f: Finish, last: Reply) -> Response {
    match f {
        Finish::Status(code) => Response::Status(code),
        Finish::Fetched => Response::Fetched,
        Finish::StatisticsOrDefault(d) => match last {
            Reply::Statistics(Some(s)) => Response::Statistics(s),
            _ => Response::Statistics(d),
        },
    }
}

/// The commands of an endpoint, in order, and how it answers.
pub struct Plan {
    pub steps: Vec<Step>,
    pub finish: Finish,
}

impl Plan {
    /// Non-empty, every guard fits its command's replies, and a statistics
    /// answer follows a statistics lookup.
    pub open spec fn wf(&self) -> bool {
        &&& self.steps@.len() > 0
        &&& forall|k: int|
            0 <= k < self.steps@.len() ==> guard_fits(
                #[trigger] self.steps@[k].guard,
                reply_kind(self.steps@[k].command),
            )
        &&& self.finish is StatisticsOrDefault ==> reply_kind(self.steps@.last().command)
            == ReplyKind::Statistics
    }
}

/// What the caller is to do next.
pub enum Action {
    Run(Command),
    Respond(Result<Response, ApiError>),
}

impl Command {
    /// The kind of reply this command produces.
    pub fn expected_reply(&self) -> (k: ReplyKind)
        ensures
            k == reply_kind(*self),
    {
        match self {
            Command::ContractExists { .. } => ReplyKind::Flag,
            Command::UpsertSubscription { .. } => ReplyKind::Fetched,
            Command::DeleteSubscription { .. } => ReplyKind::Rows,
            Command::ListSubscriptions { .. } => ReplyKind::Fetched,
            Command::CountSubscriptions { .. } => ReplyKind::Fetched,
            Command::SubscriptionOwned { .. } => ReplyKind::Flag,
            Command::UpdateSubscription { .. } => ReplyKind::Rows,
            Command::FetchSubscription { .. } => ReplyKind::Fetched,
            Command::FindPreferences { .. } => ReplyKind::Optional,
            Command::UpdatePreferences { .. } => ReplyKind::Rows,
            Command::FetchPreferences { .. } => ReplyKind::Fetched,
            Command::ListNotifications { .. } => ReplyKind::Fetched,
            Command::CountNotifications { .. } => ReplyKind::Fetched,
            Command::MarkNotificationRead { .. } => ReplyKind::Rows,
            Command::MarkAllNotificationsRead { .. } => ReplyKind::Rows,
            Command::FindStatistics { .. } => ReplyKind::Statistics,
            Command::ListWebhooks { .. } => ReplyKind::Fetched,
            Command::InsertWebhook { .. } => ReplyKind::Fetched,
            Command::DeleteWebhook { .. } => ReplyKind::Rows,
            Command::WebhookOwned { .. } => ReplyKind::Flag,
            Command::ListDeliveries { .. } => ReplyKind::Fetched,
            Command::CountDeliveries { .. } => ReplyKind::Fetched,
            Command::FindOwnedWebhook { .. } => ReplyKind::Optional,
            Command::QueueTestDelivery { .. } => ReplyKind::Rows,
            Command::DeliveryOwned { .. } => ReplyKind::Flag,
            Command::ResetFailedDelivery { .. } => ReplyKind::Rows,
        }
    }
}

/// Records that belong to a user and are addressed by their own id.
#[derive(Clone, Copy, PartialEq, Eq, Structural, Debug)]
pub enum Resource {
    Subscription,
    Webhook,
    Delivery,
}

/// The user a command restricts itself to, when it filters by user.
pub open spec fn scoped_user(c: Command) -> Option<u128> {
    match c {
        Command::UpsertSubscription { user_id, .. } => Some(user_id),
        Command::DeleteSubscription { user_id, .. } => Some(user_id),
        Command::ListSubscriptions { user_id, .. } => Some(user_id),
        Command::CountSubscriptions { user_id, .. } => Some(user_id),
        Command::SubscriptionOwned { user_id, .. } => Some(user_id),
        Command::FindPreferences { user_id } => Some(user_id),
        Command::UpdatePreferences { user_id, .. } => Some(user_id),
        Command::FetchPreferences { user_id } => Some(user_id),
        Command::ListNotifications { user_id, .. } => Some(user_id),
        Command::CountNotifications { user_id, .. } => Some(user_id),
        Command::MarkNotificationRead { user_id, .. } => Some(user_id),
        Command::MarkAllNotificationsRead { user_id } => Some(user_id),
        Command::FindStatistics { user_id, .. } => Some(user_id),
        Command::ListWebhooks { user_id } => Some(user_id),
        Command::InsertWebhook { user_id, .. } => Some(user_id),
        Command::DeleteWebhook { user_id, .. } => Some(user_id),
        Command::WebhookOwned { user_id, .. } => Some(user_id),
        Command::FindOwnedWebhook { user_id, .. } => Some(user_id),
        Command::DeliveryOwned { user_id, .. } => Some(user_id),
        _ => None,
    }
}

/// The command addresses a user-owned record by its id alone, with no user filter.
pub open spec fn addresses_by_id(c: Command) -> bool {
    ||| c is UpdateSubscription
    ||| c is FetchSubscription
    ||| c is ListDeliveries
    ||| c is CountDeliveries
    ||| c is QueueTestDelivery
    ||| c is ResetFailedDelivery
}

/// The record a command addresses by id: its kind and its id.
pub open spec fn record_of(c: Command) -> (Resource, u128) {
    match c {
        Command::UpdateSubscription { subscription_id, .. } => (Resource::Subscription, subscription_id),
        Command::FetchSubscription { subscription_id } => (Resource::Subscription, subscription_id),
        Command::ListDeliveries { webhook_id, .. } => (Resource::Webhook, webhook_id),
        Command::CountDeliveries { webhook_id } => (Resource::Webhook, webhook_id),
        Command::QueueTestDelivery { webhook_id } => (Resource::Webhook, webhook_id),
        Command::ResetFailedDelivery { delivery_id } => (Resource::Delivery, delivery_id),
        _ => arbitrary(),
    }
}

/// The command reads only public data (the contract catalogue).
pub open spec fn is_public(c: Command) -> bool {
    c is ContractExists
}

/// The step asks whether `user` owns `record`, and its guard stops the
/// exchange when the answer is no.
pub open spec fn confirms_ownership(s: Step, record: (Resource, u128), user: u128) -> bool {
    match s.command {
        Command::SubscriptionOwned { subscription_id, user_id } => record == (Resource::Subscription, subscription_id)
            && user == user_id && s.guard is RequireFlag,
        Command::WebhookOwned { webhook_id, user_id } => record == (Resource::Webhook, webhook_id) && user == user_id
            && s.guard is RequireFlag,
        Command::FindOwnedWebhook { webhook_id, user_id } => record == (Resource::Webhook, webhook_id) && user
            == user_id && s.guard is RequireFound,
        Command::DeliveryOwned { delivery_id, user_id } => record == (Resource::Delivery, delivery_id) && user
            == user_id && s.guard is RequireFlag,
        _ => false,
    }
}

/// Step `k` only touches what `user` may touch: public data, rows filtered by
/// `user`, or a record whose ownership by `user` an earlier step confirms.
pub open spec fn step_authorized(steps: Seq<Step>, k: int, user: u128) -> bool {
    if addresses_by_id(steps[k].command) {
        exists|j: int| 0 <= j < k && #[trigger] confirms_ownership(steps[j], record_of(steps[k].command), user)
    } else {
        is_public(steps[k].command) || scoped_user(steps[k].command) == Some(user)
    }
}

/// Every step of the plan is authorized for `user`.
pub open spec fn authorized(plan: Plan, user: u128) -> bool {
    forall|k: int| 0 <= k < plan.steps@.len() ==> #[trigger] step_authorized(plan.steps@, k, user)
}

/// A reply that answers yes.
pub open spec fn affirms(r: Reply) -> bool {
    r == Reply::Flag(true) || r == Reply::Optional(true)
}

/// An endpoint's exchange in progress: the plan, the replies received so far,
/// and the step whose reply is awaited.
pub struct Exchange {
    plan: Ghost<Plan>,
    replies: Ghost<Seq<Reply>>,
    /// The steps after the awaited one, last to run first.
    remaining: Vec<Step>,
    kind: ReplyKind,
    guard: Guard,
    failure: FailureContext,
    finish: Finish,
    awaiting: usize,
    finished: bool,
}

impl Exchange {
    /// The plan being carried out.
    pub closed spec fn plan(&self) -> Plan {
        self.plan@
    }

    /// The replies received so far, one per answered step.
    pub closed spec fn replies(&self) -> Seq<Reply> {
        self.replies@
    }

    /// The index of the step whose reply is awaited.
    pub closed spec fn awaiting(&self) -> int {
        self.awaiting as int
    }

    /// The exchange has answered; it takes no more replies.
    pub closed spec fn is_finished(&self) -> bool {
        self.finished
    }

    /// The exchange is waiting for the reply to a command: every earlier
    /// step succeeded and passed its guard.
    pub closed spec fn wf(&self) -> bool {
        let steps = self.plan@.steps@;
        let k = self.awaiting as int;
        &&& !self.finished
        &&& self.plan@.wf()
        &&& 0 <= k < steps.len() <= usize::MAX
        &&& self.remaining@.len() == steps.len() - k - 1
        &&& forall|i: int| 0 <= i < self.remaining@.len() ==> #[trigger] self.remaining@[i] == steps[steps.len() - 1 - i]
        &&& self.kind == reply_kind(steps[k].command)
        &&& self.guard == steps[k].guard
        &&& self.failure == steps[k].failure
        &&& self.finish == self.plan@.finish
        &&& self.replies@.len() == k
        &&& forall|j: int| 0 <= j < k ==> {
            &&& !(#[trigger] self.replies@[j] is Failed)
            &&& fits(reply_kind(steps[j].command), self.replies@[j])
            &&& !blocks(steps[j].guard, self.replies@[j])
        }
    }

    /// The reply has the kind that the awaited command produces.
    pub open spec fn accepts(&self, r: Reply) -> bool {
        fits(reply_kind(self.plan().steps@[self.awaiting()].command), r)
    }

    /// Whether `step` may be given this reply now: the exchange has not
    /// answered yet and the reply has the awaited kind.
    pub fn can_accept(&self, r: &Reply) -> (b: bool)
        requires
            self.wf() || self.is_finished(),
        ensures
            b == (!self.is_finished() && self.accepts(*r)),
    {
        if self.finished {
            return false;
        }
        match r {
            Reply::Failed(_) => true,
            Reply::Flag(_) => self.kind == ReplyKind::Flag,
            Reply::Rows(_) => self.kind == ReplyKind::Rows,
            Reply::Fetched => self.kind == ReplyKind::Fetched,
            Reply::Optional(_) => self.kind == ReplyKind::Optional,
            Reply::Statistics(_) => self.kind == ReplyKind::Statistics,
        }
    }

    /// Begins carrying out `plan`: its first command is to be run.
    pub fn start(plan: Plan) -> (res: (Exchange, Action))
        requires
            plan.wf(),
        ensures
            res.0.wf(),
            !res.0.is_finished(),
            res.0.plan() == plan,
            res.0.awaiting() == 0,
            res.0.replies() == Seq::<Reply>::empty(),
            res.1 == Action::Run(plan.steps@[0].command),
    {
        let ghost whole = plan;
        let Plan { steps, finish } = plan;
        let mut steps = steps;
        let mut remaining: Vec<Step> = Vec::new();
        let n = steps.len();
        while steps.len() > 1
            invariant
                whole.steps@.len() == n,
                n >= 1,
                1 <= steps@.len() <= n,
                steps@ == whole.steps@.subrange(0, steps@.len() as int),
                remaining@.len() == n - steps@.len(),
                forall|i: int| 0 <= i < remaining@.len() ==> #[trigger] remaining@[i] == whole.steps@[n - 1 - i],
            decreases steps@.len(),
        {
            let s = steps.pop().unwrap();
            remaining.push(s);
            assert(steps@ =~= whole.steps@.subrange(0, steps@.len() as int));
        }
        let first = steps.pop().unwrap();
        let Step { command, guard, failure } = first;
        let kind = command.expected_reply();
        let ex = Exchange {
            plan: Ghost(whole),
            replies: Ghost(Seq::empty()),
            remaining,
            kind,
            guard,
            failure,
            finish,
            awaiting: 0,
            finished: false,
        };
        (ex, Action::Run(command))
    }

    /// Takes the reply to the awaited command and decides what comes next:
    /// a failure is reported as an internal error, a guard that does not pass
    /// answers with its error, and otherwise the next command runs, or, after
    /// the last one, the plan's answer is given.
    pub fn step(&mut self, reply: Reply) -> (action: Action)
        requires
            old(self).wf(),
            old(self).accepts(reply),
        ensures
            final(self).plan() == old(self).plan(),
            action is Respond <==> final(self).is_finished(),
            !final(self).is_finished() ==> final(self).wf(),
            ({
                let steps = old(self).plan().steps@;
                let k = old(self).awaiting();
                match reply {
                    Reply::Failed(e) => action matches Action::Respond(Err(err)) && is_internal(
                        err,
                        failure_prefix(steps[k].failure) + e@,
                    ),
                    _ => if blocks(steps[k].guard, reply) {
                        action == Action::Respond(Err(guard_error(steps[k].guard)))
                    } else if k + 1 < steps.len() {
                        &&& action == Action::Run(steps[k + 1].command)
                        &&& final(self).wf()
                        &&& final(self).awaiting() == k + 1
                        &&& final(self).replies() == old(self).replies().push(reply)
                    } else {
                        action == Action::Respond(Ok(finish_response(old(self).plan().finish, reply)))
                    },
                }
            }),
    {
        let ghost steps = self.plan@.steps@;
        let ghost k = self.awaiting as int;
        match reply {
            Reply::Failed(e) => {
                let message = match self.failure {
                    FailureContext::Database => concat("Database error: ", e.as_str()),
                    FailureContext::CreateSubscription => concat("Failed to create subscription: ", e.as_str()),
                    FailureContext::CreateWebhook => concat("Failed to create webhook: ", e.as_str()),
                    FailureContext::QueueTestDelivery => concat("Failed to queue test delivery: ", e.as_str()),
                };
                self.finished = true;
                return Action::Respond(Err(ApiError::Internal { message }));
            },
            _ => {},
        }
        let stop = match (&self.guard, &reply) {
            (Guard::RequireFlag(_), Reply::Flag(b)) => !*b,
            (Guard::RequireFound(_), Reply::Optional(b)) => !*b,
            (Guard::RequireRows(_), Reply::Rows(n)) => *n == 0,
            _ => false,
        };
        assert(stop == blocks(steps[k].guard, reply));
        if stop {
            let mut guard = Guard::Proceed;
            std::mem::swap(&mut guard, &mut self.guard);
            let err = match guard {
                Guard::RequireFlag(e) => e,
                Guard::RequireFound(e) => e,
                Guard::RequireRows(e) => e,
                Guard::Proceed => {
                    assert(false);
                    bad_request("")
                },
            };
            self.finished = true;
            return Action::Respond(Err(err));
        }
        if self.remaining.len() == 0 {
            let response = match self.finish {
                Finish::Status(code) => Response::Status(code),
                Finish::Fetched => Response::Fetched,
                Finish::StatisticsOrDefault(d) => match reply {
                    Reply::Statistics(Some(s)) => Response::Statistics(s),
                    _ => Response::Statistics(d),
                },
            };
            self.finished = true;
            return Action::Respond(Ok(response));
        }
        let next = self.remaining.pop().unwrap();
        let Step { command, guard, failure } = next;
        proof {
            assert(self.replies@.push(reply).len() == k + 1);
            self.replies@ = self.replies@.push(reply);
        }
        self.kind = command.expected_reply();
        self.guard = guard;
        self.failure = failure;
        self.awaiting = self.awaiting + 1;
        proof {
            assert forall|j: int| 0 <= j < k + 1 implies {
                &&& !(#[trigger] self.replies@[j] is Failed)
                &&& fits(reply_kind(steps[j].command), self.replies@[j])
                &&& !blocks(steps[j].guard, self.replies@[j])
            } by {
                if j < k {
                    assert(self.replies@[j] == old(self).replies@[j]);
                }
            }
        }
        Action::Run(command)
    }
}

/// Every command an exchange issues is authorized: if the plan is authorized
/// for `user`, the awaited command is public, filtered by `user`, or
/// addresses a record that an earlier step of this exchange confirmed (with a
/// yes answer) to belong to `user`.
pub proof fn lemma_issued_command_authorized(ex: Exchange, user: u128)
    requires
        ex.wf(),
        authorized(ex.plan(), user),
    ensures
        ({
            let steps = ex.plan().steps@;
            let c = steps[ex.awaiting()].command;
            if addresses_by_id(c) {
                exists|j: int|
                    0 <= j < ex.awaiting() && #[trigger] confirms_ownership(steps[j], record_of(c), user)
                        && affirms(ex.replies()[j])
            } else {
                is_public(c) || scoped_user(c) == Some(user)
            }
        }),
{
    let steps = ex.plan().steps@;
    let k = ex.awaiting();
    assert(step_authorized(steps, k, user));
    if addresses_by_id(steps[k].command) {
        let j = choose|j: int| 0 <= j < k && #[trigger] confirms_ownership(steps[j], record_of(steps[k].command), user);
        assert(!(ex.replies()[j] is Failed));
        assert(fits(reply_kind(steps[j].command), ex.replies()[j]));
        assert(!blocks(steps[j].guard, ex.replies()[j]));
        assert(affirms(ex.replies()[j]));
    }
}

} // verus!
