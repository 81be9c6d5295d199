//! The agent's permission requests: how they reach the user, and what the agent is told when the
//! user answers, or never does.

use crate::rpc::RequestId;
use crate::text::decimal;
use std::sync::Arc;
use vstd::prelude::*;

verus! {

broadcast use vstd::string::group_string_axioms;

/// What choosing an option means.
#[derive(Clone, Copy, Debug, PartialEq, Eq, Structural)]
pub enum PermissionOptionKind {
    AllowOnce,
    AllowAlways,
    RejectOnce,
    RejectAlways,
    Other,
}

/// An option that the agent offers.
#[derive(Debug, PartialEq, Eq)]
pub struct PermissionOption {
    pub option_id: String,
    pub name: String,
    pub kind: PermissionOptionKind,
}

impl Clone for PermissionOption {
    fn clone(&self) -> (copy: Self)
        ensures
            copy == *self,
    {
        PermissionOption {
            option_id: self.option_id.clone(),
            name: self.name.clone(),
            kind: self.kind,
        }
    }
}

/// The answer to a permission request: none, or the option with the given id.
#[derive(Debug, PartialEq, Eq)]
pub enum PermissionOutcome {
    Cancelled,
    Selected(String),
}

/// What the user is asked to approve: a patch to files, or the execution of something.
#[derive(Debug, PartialEq, Eq)]
pub enum ApprovalEventType<P, E> {
    Patch(P),
    Exec(E),
}

/// What is put to the user. `acp_request` is the agent's request as it came.
pub struct ApprovalRequest<R, P, E> {
    pub request_id: String,
    pub event: ApprovalEventType<P, E>,
    pub acp_request: Arc<R>,
    pub options: Vec<PermissionOption>,
}

/// The option turns the request down.
pub open spec fn is_rejection(option: PermissionOption) -> bool {
    option.kind == PermissionOptionKind::RejectOnce || option.kind
        == PermissionOptionKind::RejectAlways
}

/// The id to answer a request with when nobody answers it: that of the first option that turns it
/// down, or `deny` when none does.
pub open spec fn denial_id(options: Seq<PermissionOption>) -> Seq<char>
    decreases options.len(),
{
    if options.len() == 0 {
        "deny"@
    } else if is_rejection(options[0]) {
        options[0].option_id@
    } else {
        denial_id(options.drop_first())
    }
}

/// The outcome for a request that nobody answers.
pub fn deny(options: &Vec<PermissionOption>) -> (outcome: PermissionOutcome)
    ensures
        outcome matches PermissionOutcome::Selected(id) && id@ == denial_id(options@),
        outcome matches PermissionOutcome::Selected(id) && ((exists|i: int|
            #![trigger options@[i]]
            0 <= i < options@.len() && (options@[i].kind is RejectOnce || options@[i].kind is RejectAlways)
                && id@ == options@[i].option_id@ && (forall|j: int|
                0 <= j < i ==> !(#[trigger] options@[j].kind is RejectOnce) && !(options@[j].kind
                    is RejectAlways))) || (id@ == "deny"@ && forall|j: int|
            0 <= j < options@.len() ==> !(#[trigger] options@[j].kind is RejectOnce) && !(options@[j].kind
                is RejectAlways))),
{
    proof {
        law_denial_is_the_first_rejection(options@);
    }
    let mut i: usize = 0;
    assert(options@.skip(0) =~= options@);
    while i < options.len()
        invariant
            i <= options@.len(),
            denial_id(options@) == denial_id(options@.skip(i as int)),
        decreases options@.len() - i,
    {
        let option = &options[i];
        let rejects = match option.kind {
            PermissionOptionKind::RejectOnce => true,
            PermissionOptionKind::RejectAlways => true,
            _ => false,
        };
        if rejects {
            proof {
                law_denial_is_the_first_rejection(options@);
            }
            return PermissionOutcome::Selected(option.option_id.clone());
        }
        assert(options@.skip(i as int).drop_first() =~= options@.skip(i + 1));
        i = i + 1;
    }
    PermissionOutcome::Selected("deny".to_owned())
}

/// An unanswered request is never granted: the id that it is answered with belongs to an option
/// that turns it down, the first one, unless there is none, and then it is `deny`.
pub proof fn law_unanswered_request_is_turned_down(options: Seq<PermissionOption>)
    ensures
        (exists|i: int|
            #![trigger options[i]]
            0 <= i < options.len() && is_rejection(options[i]) && denial_id(options)
                == options[i].option_id@ && (forall|j: int|
                0 <= j < i ==> !is_rejection(#[trigger] options[j]))) || (denial_id(options)
            == "deny"@ && forall|j: int|
            0 <= j < options.len() ==> !is_rejection(#[trigger] options[j])),
    decreases options.len(),
{
    if options.len() > 0 && !is_rejection(options[0]) {
        let rest = options.drop_first();
        law_unanswered_request_is_turned_down(rest);
        assert(forall|j: int| 0 <= j < rest.len() ==> rest[j] == options[j + 1]);
        if exists|i: int|
            #![trigger rest[i]]
            0 <= i < rest.len() && is_rejection(rest[i]) && denial_id(rest) == rest[i].option_id@
                && (forall|j: int| 0 <= j < i ==> !is_rejection(#[trigger] rest[j])) {
            let i = choose|i: int|
                #![trigger rest[i]]
                0 <= i < rest.len() && is_rejection(rest[i]) && denial_id(rest)
                    == rest[i].option_id@ && (forall|j: int|
                    0 <= j < i ==> !is_rejection(#[trigger] rest[j]));
            assert forall|j: int| 0 <= j < i + 1 implies !is_rejection(#[trigger] options[j]) by {
                if j > 0 {
                    assert(rest[j - 1] == options[j]);
                }
            }
            assert(is_rejection(options[i + 1]));
        } else {
            assert forall|j: int| 0 <= j < options.len() implies !is_rejection(
                #[trigger] options[j],
            ) by {
                if j > 0 {
                    assert(rest[j - 1] == options[j]);
                }
            }
        }
    } else if options.len() > 0 {
        assert(is_rejection(options[0]));
    }
}

/// The next thing to do for a permission request.
pub enum ApprovalStep<R, P, E> {
    /// See whether the request is for a patch to files.
    ReadAsPatch,
    /// Take the request as one to execute something.
    ReadAsExec,
    /// Put the request to the user.
    Deliver(ApprovalRequest<R, P, E>),
    /// Wait for the user's decision.
    AwaitDecision,
    /// Answer the agent.
    Respond(PermissionOutcome),
}

/// What came of a step.
pub enum ApprovalEvent<P, E> {
    /// The request is for this patch, or for none.
    Patch(Option<P>),
    /// The request is to execute this.
    Exec(E),
    /// The request is on its way to the user.
    Delivered,
    /// There is nobody to put the request to.
    Closed,
    /// The user has decided, and the agent is to be told this.
    Decided(PermissionOutcome),
    /// The user will not decide any more.
    Dropped,
}

/// A permission request on its way to an answer.
pub struct Approval<R, P, E> {
    pub request_id: String,
    pub acp_request: Arc<R>,
    pub options: Vec<PermissionOption>,
    pub step: ApprovalStep<R, P, E>,
}

impl<R, P, E> Approval<R, P, E> {
    /// The step at hand is to put `event` to the user, with the agent's own request and its id and
    /// options.
    pub open spec fn delivers(self, event: ApprovalEventType<P, E>) -> bool {
        &&& self.step matches ApprovalStep::Deliver(request)
        &&& request.request_id == self.request_id
        &&& request.event == event
        &&& request.acp_request == self.acp_request
        &&& request.options@ == self.options@
    }

    /// `approval` is what this one becomes with `event`. A request that cannot be put to the user is
    /// cancelled; one that the user decides on is answered as decided; one that the user leaves
    /// undecided is turned down. An event that the step at hand does not wait for changes nothing.
    pub open spec fn leads_to(self, event: ApprovalEvent<P, E>, approval: Self) -> bool {
        &&& approval.request_id == self.request_id
        &&& approval.acp_request == self.acp_request
        &&& approval.options == self.options
        &&& match (self.step, event) {
            (
                ApprovalStep::ReadAsPatch,
                ApprovalEvent::Patch(Some(patch)),
            ) => approval.delivers(ApprovalEventType::Patch(patch)),
            (ApprovalStep::ReadAsPatch, ApprovalEvent::Patch(None)) => approval.step
                is ReadAsExec,
            (ApprovalStep::ReadAsExec, ApprovalEvent::Exec(exec)) => approval.delivers(
                ApprovalEventType::Exec(exec),
            ),
            (ApprovalStep::Deliver(_), ApprovalEvent::Delivered) => approval.step
                is AwaitDecision,
            (ApprovalStep::Deliver(_), ApprovalEvent::Closed) => approval.step
                == ApprovalStep::<R, P, E>::Respond(PermissionOutcome::Cancelled),
            (ApprovalStep::AwaitDecision, ApprovalEvent::Decided(outcome)) => approval.step
                == ApprovalStep::<R, P, E>::Respond(outcome),
            (ApprovalStep::AwaitDecision, ApprovalEvent::Dropped) => approval.step matches
                ApprovalStep::Respond(PermissionOutcome::Selected(id)) && id@ == denial_id(
                self.options@,
            ),
            _ => approval == self,
        }
    }

    /// Begins the handling of a permission request.
    pub fn request_permission(
        id: RequestId,
        acp_request: Arc<R>,
        options: Vec<PermissionOption>,
    ) -> (approval: Self)
        ensures
            approval.request_id@ == id.text_view(),
            id matches RequestId::String(text) ==> approval.request_id@ == text@,
            id matches RequestId::Number(n) ==> approval.request_id@ == decimal(n as nat),
            id is Null ==> approval.request_id@ == "null"@,
            approval.acp_request == acp_request,
            approval.options == options,
            approval.step is ReadAsPatch,
    {
        Approval {
            request_id: id.into_text(),
            acp_request,
            options,
            step: ApprovalStep::ReadAsPatch,
        }
    }

    fn deliver(self, event: ApprovalEventType<P, E>) -> (approval: Self)
        ensures
            approval.request_id == self.request_id,
            approval.acp_request == self.acp_request,
            approval.options == self.options,
            approval.delivers(event),
    {
        let options = self.options.clone();
        assert(options@ =~= self.options@);
        let request = ApprovalRequest {
            request_id: self.request_id.clone(),
            event,
            acp_request: Arc::clone(&self.acp_request),
            options,
        };
        Approval {
            request_id: self.request_id,
            acp_request: self.acp_request,
            options: self.options,
            step: ApprovalStep::Deliver(request),
        }
    }

    /// Takes in what came of a step.
    pub fn on_event(self, event: ApprovalEvent<P, E>) -> (approval: Self)
        ensures
            self.leads_to(event, approval),
            approval.request_id == self.request_id,
            approval.acp_request == self.acp_request,
            approval.options == self.options,
            self.step is ReadAsPatch ==> (event matches ApprovalEvent::Patch(Some(patch)) ==> (
            approval.step matches ApprovalStep::Deliver(request) && request.event
                == ApprovalEventType::<P, E>::Patch(patch) && request.request_id == self.request_id
                && request.acp_request == self.acp_request && request.options@ == self.options@)),
            self.step is ReadAsPatch ==> (event matches ApprovalEvent::Patch(None)
                ==> approval.step is ReadAsExec),
            self.step is ReadAsExec ==> (event matches ApprovalEvent::Exec(exec) ==> (approval.step
                matches ApprovalStep::Deliver(request) && request.event
                == ApprovalEventType::<P, E>::Exec(exec) && request.request_id == self.request_id
                && request.acp_request == self.acp_request && request.options@ == self.options@)),
            self.step is Deliver && event is Delivered ==> approval.step is AwaitDecision,
            self.step is Deliver && event is Closed ==> (approval.step matches
                ApprovalStep::Respond(outcome) && outcome is Cancelled),
            self.step is AwaitDecision ==> (event matches ApprovalEvent::Decided(outcome)
                ==> approval.step == ApprovalStep::<R, P, E>::Respond(outcome)),
            self.step is AwaitDecision && event is Dropped ==> (approval.step matches
                ApprovalStep::Respond(PermissionOutcome::Selected(id)) && ((exists|i: int|
                #![trigger self.options@[i]]
                0 <= i < self.options@.len() && (self.options@[i].kind is RejectOnce || self.options@[i].kind is RejectAlways)
                    && id@ == self.options@[i].option_id@ && (forall|j: int|
                    0 <= j < i ==> !(#[trigger] self.options@[j].kind is RejectOnce) && !(self.options@[j].kind
                        is RejectAlways))) || (id@ == "deny"@ && forall|j: int|
                0 <= j < self.options@.len() ==> !(#[trigger] self.options@[j].kind is RejectOnce) && !(self.options@[j].kind
                    is RejectAlways)))),
            self.step is ReadAsPatch && !(event is Patch) ==> approval == self,
            self.step is ReadAsExec && !(event is Exec) ==> approval == self,
            self.step is Deliver && !(event is Delivered || event is Closed) ==> approval == self,
            self.step is AwaitDecision && !(event is Decided || event is Dropped) ==> approval
                == self,
            self.step is Respond ==> approval == self,
    {
        let request_id = self.request_id;
        let acp_request = self.acp_request;
        let options = self.options;
        match (self.step, event) {
            (ApprovalStep::ReadAsPatch, ApprovalEvent::Patch(Some(patch))) => Approval {
                request_id,
                acp_request,
                options,
                step: ApprovalStep::ReadAsPatch,
            }.deliver(ApprovalEventType::Patch(patch)),
            (ApprovalStep::ReadAsPatch, ApprovalEvent::Patch(None)) => Approval {
                request_id,
                acp_request,
                options,
                step: ApprovalStep::ReadAsExec,
            },
            (ApprovalStep::ReadAsExec, ApprovalEvent::Exec(exec)) => Approval {
                request_id,
                acp_request,
                options,
                step: ApprovalStep::ReadAsExec,
            }.deliver(ApprovalEventType::Exec(exec)),
            (ApprovalStep::Deliver(_), ApprovalEvent::Delivered) => Approval {
                request_id,
                acp_request,
                options,
                step: ApprovalStep::AwaitDecision,
            },
            (ApprovalStep::Deliver(_), ApprovalEvent::Closed) => Approval {
                request_id,
                acp_request,
                options,
                step: ApprovalStep::Respond(PermissionOutcome::Cancelled),
            },
            (ApprovalStep::AwaitDecision, ApprovalEvent::Decided(outcome)) => Approval {
                request_id,
                acp_request,
                options,
                step: ApprovalStep::Respond(outcome),
            },
            (ApprovalStep::AwaitDecision, ApprovalEvent::Dropped) => {
                let outcome = deny(&options);
                Approval { request_id, acp_request, options, step: ApprovalStep::Respond(outcome) }
            },
            (step, _) => Approval { request_id, acp_request, options, step },
        }
    }
}

/// An answer to the agent has one of three grounds: the user has decided so; there was nobody to
/// put the request to, and it is cancelled; or the user left it undecided, and it is turned down.
/// Once given, an answer stands.
pub proof fn law_answers_have_grounds<R, P, E>(
    before: Approval<R, P, E>,
    event: ApprovalEvent<P, E>,
    after: Approval<R, P, E>,
)
    requires
        before.leads_to(event, after),
        after.step is Respond,
    ensures
        before.step is Respond ==> after == before,
        before.step !is Respond ==> {
            ||| event == ApprovalEvent::<P, E>::Decided(after.step->Respond_0)
            ||| event is Closed && after.step->Respond_0 is Cancelled
            ||| event is Dropped && (after.step->Respond_0 matches PermissionOutcome::Selected(id)
                && id@ == denial_id(before.options@))
        },
{
}

/// Each of `events` takes the request from one of `states` to the next.
pub open spec fn is_course<R, P, E>(
    states: Seq<Approval<R, P, E>>,
    events: Seq<ApprovalEvent<P, E>>,
) -> bool {
    &&& states.len() == events.len() + 1
    &&& forall|k: int| 0 <= k < events.len() ==> #[trigger] is_taken_on(states, events, k)
}

/// The event at `k` takes the request from the state at `k` to the next.
pub open spec fn is_taken_on<R, P, E>(
    states: Seq<Approval<R, P, E>>,
    events: Seq<ApprovalEvent<P, E>>,
    k: int,
) -> bool {
    states[k].leads_to(events[k], states[k + 1])
}

/// Whatever happens to a request, what is put to the user is the agent's own request, unchanged,
/// under its own id and with its own options.
pub proof fn law_request_is_handed_on_unchanged<R, P, E>(
    states: Seq<Approval<R, P, E>>,
    events: Seq<ApprovalEvent<P, E>>,
)
    requires
        is_course(states, events),
        states[0].step is ReadAsPatch,
    ensures
        states.last().request_id == states[0].request_id,
        states.last().acp_request == states[0].acp_request,
        states.last().options == states[0].options,
        states.last().step matches ApprovalStep::Deliver(request) ==> {
            &&& request.request_id == states[0].request_id
            &&& request.acp_request == states[0].acp_request
            &&& request.options@ == states[0].options@
        },
    decreases events.len(),
{
    if events.len() > 0 {
        let before = states.drop_last();
        let rest = events.drop_last();
        let last = events.len() - 1;
        assert forall|k: int| 0 <= k < rest.len() implies #[trigger] is_taken_on(
            before,
            rest,
            k,
        ) by {
            assert(is_taken_on(states, events, k));
        }
        law_request_is_handed_on_unchanged(before, rest);
        assert(is_taken_on(states, events, last));
    }
}

/// An unanswered request is answered with the id of the first option whose kind is to reject, once
/// or always; only where no option is of either kind is it answered with `deny`.
pub proof fn law_denial_is_the_first_rejection(options: Seq<PermissionOption>)
    ensures
        (exists|i: int|
            #![trigger options[i]]
            0 <= i < options.len() && (options[i].kind is RejectOnce || options[i].kind is RejectAlways)
                && denial_id(options) == options[i].option_id@ && (forall|j: int|
                0 <= j < i ==> !(#[trigger] options[j].kind is RejectOnce) && !(options[j].kind
                    is RejectAlways))) || (denial_id(options) == "deny"@ && forall|j: int|
            0 <= j < options.len() ==> !(#[trigger] options[j].kind is RejectOnce) && !(options[j].kind
                is RejectAlways)),
{
    law_unanswered_request_is_turned_down(options);
    if exists|i: int|
        #![trigger options[i]]
        0 <= i < options.len() && is_rejection(options[i]) && denial_id(options)
            == options[i].option_id@ && (forall|j: int|
            0 <= j < i ==> !is_rejection(#[trigger] options[j])) {
        let i = choose|i: int|
            #![trigger options[i]]
            0 <= i < options.len() && is_rejection(options[i]) && denial_id(options)
                == options[i].option_id@ && (forall|j: int|
                0 <= j < i ==> !is_rejection(#[trigger] options[j]));
        assert forall|j: int| 0 <= j < i implies !(#[trigger] options[j].kind is RejectOnce) && !(
        options[j].kind is RejectAlways) by {
            assert(!is_rejection(options[j]));
        }
        assert(options[i].kind is RejectOnce || options[i].kind is RejectAlways);
    } else {
        assert forall|j: int| 0 <= j < options.len() implies !(
        #[trigger] options[j].kind is RejectOnce) && !(options[j].kind is RejectAlways) by {
            assert(!is_rejection(options[j]));
        }
    }
}

/// What becomes of a request. One that is for a patch is put to the user as that patch, any other
/// as something to execute, each with the agent's own request, its id and its options. One that
/// reaches nobody is cancelled; one that is decided is answered as decided; one that is left is
/// answered with the first option that rejects, or with `deny`. Anything else changes nothing.
pub proof fn law_requests_take_their_course<R, P, E>(
    before: Approval<R, P, E>,
    event: ApprovalEvent<P, E>,
    after: Approval<R, P, E>,
)
    requires
        before.leads_to(event, after),
    ensures
        after.request_id == before.request_id,
        after.acp_request == before.acp_request,
        after.options == before.options,
        before.step is ReadAsPatch ==> (event matches ApprovalEvent::Patch(Some(patch)) ==> (
        after.step matches ApprovalStep::Deliver(request) && request.event
            == ApprovalEventType::<P, E>::Patch(patch) && request.request_id == before.request_id
            && request.acp_request == before.acp_request && request.options@ == before.options@)),
        before.step is ReadAsPatch ==> (event matches ApprovalEvent::Patch(None)
            ==> after.step is ReadAsExec),
        before.step is ReadAsExec ==> (event matches ApprovalEvent::Exec(exec) ==> (after.step
            matches ApprovalStep::Deliver(request) && request.event
            == ApprovalEventType::<P, E>::Exec(exec) && request.request_id == before.request_id
            && request.acp_request == before.acp_request && request.options@ == before.options@)),
        before.step is Deliver && event is Delivered ==> after.step is AwaitDecision,
        before.step is Deliver && event is Closed ==> (after.step matches
            ApprovalStep::Respond(outcome) && outcome is Cancelled),
        before.step is AwaitDecision ==> (event matches ApprovalEvent::Decided(outcome)
            ==> after.step == ApprovalStep::<R, P, E>::Respond(outcome)),
        before.step is AwaitDecision && event is Dropped ==> (after.step matches
            ApprovalStep::Respond(PermissionOutcome::Selected(id)) && ((exists|i: int|
            #![trigger before.options@[i]]
            0 <= i < before.options@.len() && (before.options@[i].kind is RejectOnce || before.options@[i].kind is RejectAlways)
                && id@ == before.options@[i].option_id@ && (forall|j: int|
                0 <= j < i ==> !(#[trigger] before.options@[j].kind is RejectOnce) && !(before.options@[j].kind
                    is RejectAlways))) || (id@ == "deny"@ && forall|j: int|
            0 <= j < before.options@.len() ==> !(#[trigger] before.options@[j].kind is RejectOnce) && !(before.options@[j].kind
                is RejectAlways)))),
        before.step is ReadAsPatch && !(event is Patch) ==> after == before,
        before.step is ReadAsExec && !(event is Exec) ==> after == before,
        before.step is Deliver && !(event is Delivered || event is Closed) ==> after == before,
        before.step is AwaitDecision && !(event is Decided || event is Dropped) ==> after
            == before,
        before.step is Respond ==> after == before,
{
    law_denial_is_the_first_rejection(before.options@);
}

} // verus!
