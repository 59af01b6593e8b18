//! From configured broker triggers to subscriptions.
//!
//! Every broker trigger asks for one subscription on its subject. A trigger
//! that names a queue group shares its messages with the other members of the
//! group; a trigger that names none receives every message itself.

use vstd::prelude::*;
use vstd::string::*;
use crate::config::NatsTrigger;
use crate::config::Trigger;

verus! {

/// A subscription to ask the broker for.
#[derive(Debug)]
pub struct Subscription {
    /// The subject to subscribe to.
    pub subject: String,
    /// The queue group to join, if any.
    pub queue_group: Option<String>,
}

/// A subscription as plain text.
pub struct SubscriptionModel {
    pub subject: Seq<char>,
    pub queue_group: Option<Seq<char>>,
}

impl View for Subscription {
    type V = SubscriptionModel;

    open spec fn view(&self) -> SubscriptionModel {
        SubscriptionModel {
            subject: self.subject@,
            queue_group: match self.queue_group {
                Some(group) => Some(group@),
                None => None,
            },
        }
    }
}

/// The subscription that a trigger on `subject` with queue group `group` asks
/// for: the empty group means no group.
pub open spec fn subscription_for(subject: Seq<char>, group: Seq<char>) -> SubscriptionModel {
    SubscriptionModel {
        subject,
        queue_group: if group.len() > 0 {
            Some(group)
        } else {
            None
        },
    }
}

/// The subscriptions that a list of triggers asks for: one for each, in order.
pub open spec fn plan_for(triggers: Seq<NatsTrigger>) -> Seq<SubscriptionModel> {
    Seq::new(triggers.len(), |i: int| subscription_for(triggers[i].subject@, triggers[i].group@))
}

/// The subscription that `trigger` asks for.
pub fn subscription(trigger: &NatsTrigger) -> (wanted: Subscription)
    ensures
        wanted@ == subscription_for(trigger.subject@, trigger.group@),
{
    let subject = trigger.subject.clone();
    if trigger.group.as_str().is_empty() {
        Subscription { subject, queue_group: None }
    } else {
        Subscription { subject, queue_group: Some(trigger.group.clone()) }
    }
}

/// The subscriptions that `triggers` ask for: one for each trigger, in order.
pub fn subscription_plan(triggers: &Vec<NatsTrigger>) -> (plan: Vec<Subscription>)
    ensures
        plan@.len() == triggers@.len(),
        forall|i: int| 0 <= i < plan@.len() ==> (#[trigger] plan@[i])@ == plan_for(triggers@)[i],
{
    let mut plan: Vec<Subscription> = Vec::new();
    let mut next: usize = 0;
    while next < triggers.len()
        invariant
            next <= triggers@.len(),
            plan@.len() == next,
            forall|i: int| 0 <= i < plan@.len() ==> (#[trigger] plan@[i])@ == plan_for(triggers@)[i],
        decreases triggers@.len() - next,
    {
        plan.push(subscription(&triggers[next]));
        next = next + 1;
    }
    plan
}

/// Whether the workload's message handler is needed: whether any broker
/// trigger is configured.
pub fn needs_message_handler(trigger: &Trigger) -> (needed: bool)
    ensures
        needed == (trigger.nats@.len() > 0),
{
    trigger.nats.len() > 0
}

} // verus!
