//! Planning the installation of shop webhooks: which of the wanted hooks
//! are already in place, which point elsewhere and which are missing.

use vstd::prelude::*;

verus! {

/// A webhook as the shop reports it.
#[derive(Debug, PartialEq, Eq)]
pub struct Webhook {
    pub id: u64,
    pub topic: String,
    pub address: String,
}

/// A webhook as mathematical values.
pub struct WebhookView {
    pub id: u64,
    pub topic: Seq<char>,
    pub address: Seq<char>,
}

impl View for Webhook {
    type V = WebhookView;

    open spec fn view(&self) -> WebhookView {
        WebhookView { id: self.id, topic: self.topic@, address: self.address@ }
    }
}

/// What has to be done for one wanted webhook.
#[derive(Clone, Copy, Debug, PartialEq, Eq, Structural)]
pub enum WebhookAction {
    /// A hook for the topic exists and points at the wanted address.
    Skip,
    /// A hook for the topic exists but points elsewhere: the hook with this
    /// identifier gets the wanted address.
    Update { id: u64 },
    /// No hook for the topic exists.
    Install,
}

/// One wanted webhook and what has to be done for it.
#[derive(Debug, PartialEq, Eq)]
pub struct WebhookStep {
    pub topic: String,
    pub address: String,
    pub action: WebhookAction,
}

/// A step as mathematical values.
pub struct WebhookStepView {
    pub topic: Seq<char>,
    pub address: Seq<char>,
    pub action: WebhookAction,
}

impl View for WebhookStep {
    type V = WebhookStepView;

    open spec fn view(&self) -> WebhookStepView {
        WebhookStepView { topic: self.topic@, address: self.address@, action: self.action }
    }
}

/// The views of a list of steps, in order.
pub open spec fn step_views(steps: Seq<WebhookStep>) -> Seq<WebhookStepView> {
    steps.map_values(|step: WebhookStep| step@)
}

/// The views of a list of webhooks, in order.
pub open spec fn webhook_views(webhooks: Seq<Webhook>) -> Seq<WebhookView> {
    webhooks.map_values(|webhook: Webhook| webhook@)
}

/// `i` is the index of the first webhook for `topic`.
pub open spec fn is_first_for_topic(webhooks: Seq<WebhookView>, topic: Seq<char>, i: int) -> bool {
    &&& 0 <= i < webhooks.len()
    &&& webhooks[i].topic == topic
    &&& forall|k: int| 0 <= k < i ==> (#[trigger] webhooks[k]).topic != topic
}

/// No webhook is for `topic`.
pub open spec fn none_for_topic(webhooks: Seq<WebhookView>, topic: Seq<char>) -> bool {
    forall|k: int| 0 <= k < webhooks.len() ==> (#[trigger] webhooks[k]).topic != topic
}

/// The first webhook for `topic`, if there is one.
pub open spec fn first_for_topic(webhooks: Seq<WebhookView>, topic: Seq<char>) -> Option<WebhookView> {
    if none_for_topic(webhooks, topic) {
        None
    } else {
        Some(webhooks[choose|i: int| is_first_for_topic(webhooks, topic, i)])
    }
}

/// What has to be done so that a hook for `topic` points at `address`:
/// install one where none exists; otherwise the first existing one counts,
/// and is left alone where it has the address and updated where it has not.
pub open spec fn action_for(webhooks: Seq<WebhookView>, topic: Seq<char>, address: Seq<char>) -> WebhookAction {
    match first_for_topic(webhooks, topic) {
        None => WebhookAction::Install,
        Some(webhook) => if webhook.address == address {
            WebhookAction::Skip
        } else {
            WebhookAction::Update { id: webhook.id }
        },
    }
}

/// The address at which the payment server listens for a webhook route.
pub open spec fn address_for(url: Seq<char>, route: Seq<char>) -> Seq<char> {
    url + "/shopify/webhook/"@ + route
}

/// The step for one topic and the route that serves it.
pub open spec fn step_for(webhooks: Seq<WebhookView>, url: Seq<char>, topic: Seq<char>, route: Seq<char>) -> WebhookStepView {
    WebhookStepView {
        topic,
        address: address_for(url, route),
        action: action_for(webhooks, topic, address_for(url, route)),
    }
}

/// The steps that bring the two webhooks of the payment server in place:
/// order creation first, product updates second.
pub open spec fn install_steps(webhooks: Seq<WebhookView>, url: Seq<char>) -> Seq<WebhookStepView> {
    seq![
        step_for(webhooks, url, "orders/create"@, "checkout_create"@),
        step_for(webhooks, url, "products/update"@, "product_updated"@),
    ]
}

/// The first index that carries a topic is the only one that
/// `is_first_for_topic` accepts.
pub proof fn lemma_first_for_topic(webhooks: Seq<WebhookView>, topic: Seq<char>, i: int)
    requires
        is_first_for_topic(webhooks, topic, i),
    ensures
        !none_for_topic(webhooks, topic),
        first_for_topic(webhooks, topic) == Some(webhooks[i]),
{
    assert(webhooks[i].topic == topic);
    let j = choose|j: int| is_first_for_topic(webhooks, topic, j);
    if j < i {
        assert(webhooks[j].topic != topic);
    } else if i < j {
        assert(webhooks[i].topic != topic);
    }
}

/// Finds the first webhook for `topic` among the existing ones.
pub fn in_existing<'a>(topic: &str, webhooks: &'a [Webhook]) -> (found: Option<&'a Webhook>)
    ensures
        match found {
            Some(webhook) => first_for_topic(webhook_views(webhooks@), topic@) == Some(webhook@),
            None => first_for_topic(webhook_views(webhooks@), topic@).is_none(),
        },
{
    let wanted = topic.to_owned();
    let ghost views = webhook_views(webhooks@);
    let mut i: usize = 0;
    while i < webhooks.len()
        invariant
            i <= webhooks.len(),
            wanted@ == topic@,
            views == webhook_views(webhooks@),
            forall|k: int| 0 <= k < i ==> (#[trigger] views[k]).topic != topic@,
        decreases webhooks.len() - i,
    {
        if webhooks[i].topic == wanted {
            proof {
                assert(views[i as int] == webhooks[i as int]@);
                lemma_first_for_topic(views, topic@, i as int);
            }
            return Some(&webhooks[i]);
        }
        i += 1;
    }
    None
}

/// Builds the address at which the payment server at `url` listens for
/// `route`.
pub fn webhook_address(url: &str, route: &str) -> (address: String)
    ensures
        address@ == address_for(url@, route@),
{
    url.to_owned().concat("/shopify/webhook/").concat(route)
}

/// Decides what has to be done so that a hook for `topic` points at
/// `address`.
pub fn plan_webhook(topic: &str, address: &str, existing: &[Webhook]) -> (action: WebhookAction)
    ensures
        action == action_for(webhook_views(existing@), topic@, address@),
{
    let wanted = address.to_owned();
    match in_existing(topic, existing) {
        None => WebhookAction::Install,
        Some(webhook) => if webhook.address == wanted {
            WebhookAction::Skip
        } else {
            WebhookAction::Update { id: webhook.id }
        },
    }
}

/// Plans one step: the address for `route`, and the action for `topic`.
pub fn plan_step(url: &str, topic: &str, route: &str, existing: &[Webhook]) -> (step: WebhookStep)
    ensures
        step@ == step_for(webhook_views(existing@), url@, topic@, route@),
{
    let address = webhook_address(url, route);
    let action = plan_webhook(topic, address.as_str(), existing);
    WebhookStep { topic: topic.to_owned(), address, action }
}

/// Plans the installation of the payment server's webhooks against the
/// hooks that exist: one step for order creation, one for product updates.
pub fn plan_install(url: &str, existing: &[Webhook]) -> (steps: Vec<WebhookStep>)
    ensures
        steps@.len() == 2,
        step_views(steps@) == install_steps(webhook_views(existing@), url@),
{
    let mut steps: Vec<WebhookStep> = Vec::new();
    steps.push(plan_step(url, "orders/create", "checkout_create", existing));
    steps.push(plan_step(url, "products/update", "product_updated", existing));
    assert(step_views(steps@) =~= install_steps(webhook_views(existing@), url@));
    steps
}

} // verus!
