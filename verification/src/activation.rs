//! Resolving a button activation into a role-membership toggle decision.
//!
//! An activation carries the identifier text of the pressed control and a
//! snapshot of the acting member's context. The engine parses the
//! identifier back to a role handle, classifies the press as an add or a
//! remove against the member's current role set, and either requests the
//! corresponding membership mutation or answers with a private error.

use vstd::prelude::*;

use crate::grid_layout::control_of_role;
use crate::model::{Response, ResponseView, RoleView, Visibility};
use crate::numerals::{all_digits, dec_value, dec_rep, parse_u64};
use crate::numerals::{lemma_dec_rep_value, lemma_dec_rep_wf};

verus! {

/// The acting member, as reported by the gateway at activation time.
#[derive(Debug, PartialEq, Eq)]
pub struct MemberContext {
    pub guild_id: u64,
    pub member_id: u64,
    /// The member's current role handles.
    pub roles: Vec<u64>,
}

/// Ghost image of a `MemberContext`.
pub ghost struct MemberContextView {
    pub guild_id: u64,
    pub member_id: u64,
    pub roles: Seq<u64>,
}

impl View for MemberContext {
    type V = MemberContextView;

    open spec fn view(&self) -> MemberContextView {
        MemberContextView {
            guild_id: self.guild_id,
            member_id: self.member_id,
            roles: self.roles@,
        }
    }
}

impl DeepView for MemberContext {
    type V = MemberContextView;

    open spec fn deep_view(&self) -> MemberContextView {
        self@
    }
}

/// A control activation: the pressed control's identifier text, echoed
/// verbatim by the platform, plus the member context if the press happened
/// inside a guild.
#[derive(Debug, PartialEq, Eq)]
pub struct ActivationEvent {
    pub control_id: String,
    pub member: Option<MemberContext>,
}

/// Ghost image of an `ActivationEvent`.
pub ghost struct ActivationEventView {
    pub control_id: Seq<char>,
    pub member: Option<MemberContextView>,
}

impl View for ActivationEvent {
    type V = ActivationEventView;

    open spec fn view(&self) -> ActivationEventView {
        ActivationEventView { control_id: self.control_id@, member: self.member.deep_view() }
    }
}

/// Which way a membership toggle goes.
#[derive(Debug, PartialEq, Eq, Structural, Clone, Copy)]
pub enum ToggleDirection {
    Add,
    Remove,
}

/// A membership mutation request handed to the gateway: toggle `role_id`
/// on the member, in the stated direction.
#[derive(Debug, PartialEq, Eq, Structural, Clone, Copy)]
pub struct MembershipMutation {
    pub guild_id: u64,
    pub member_id: u64,
    pub role_id: u64,
    pub direction: ToggleDirection,
}

/// The engine's decision for one activation: either answer immediately
/// with a private response, or request exactly one membership mutation.
#[derive(Debug, PartialEq, Eq)]
pub enum ActivationDecision {
    Respond(Response),
    Mutate(MembershipMutation),
}

/// Ghost image of an `ActivationDecision`.
pub ghost enum ActivationDecisionView {
    Respond(ResponseView),
    Mutate(MembershipMutation),
}

impl View for ActivationDecision {
    type V = ActivationDecisionView;

    open spec fn view(&self) -> ActivationDecisionView {
        match self {
            ActivationDecision::Respond(r) => ActivationDecisionView::Respond(r@),
            ActivationDecision::Mutate(m) => ActivationDecisionView::Mutate(*m),
        }
    }
}

/// A control identifier is valid when it is a non-empty digit string whose
/// value fits the role handle type.
pub open spec fn identifier_ok(s: Seq<char>) -> bool {
    s.len() >= 1 && all_digits(s) && dec_value(s) <= u64::MAX
}

/// A private text-only response.
pub open spec fn private_text(content: Seq<char>) -> ResponseView {
    ResponseView { content, visibility: Visibility::Private, grid: None }
}

/// The decision taken for an activation: an unparsable identifier or a
/// missing member context is answered privately; otherwise the member's
/// role set decides the toggle direction — present means remove, absent
/// means add.
pub open spec fn decide_spec(ev: ActivationEventView) -> ActivationDecisionView {
    if !identifier_ok(ev.control_id) {
        ActivationDecisionView::Respond(private_text("Error: Invalid role"@))
    } else {
        match ev.member {
            None => ActivationDecisionView::Respond(private_text("Error: Invalid"@)),
            Some(m) => {
                let role_id = dec_value(ev.control_id) as u64;
                let direction = if m.roles.contains(role_id) {
                    ToggleDirection::Remove
                } else {
                    ToggleDirection::Add
                };
                ActivationDecisionView::Mutate(
                    MembershipMutation {
                        guild_id: m.guild_id,
                        member_id: m.member_id,
                        role_id,
                        direction,
                    },
                )
            },
        }
    }
}

/// An identifier that does not parse as a role handle is answered with a
/// private "invalid role" response; no mutation is requested.
pub proof fn lemma_bad_identifier_responds(ev: ActivationEventView)
    requires
        !identifier_ok(ev.control_id),
    ensures
        decide_spec(ev) == ActivationDecisionView::Respond(private_text("Error: Invalid role"@)),
        !(decide_spec(ev) is Mutate),
{
}

/// A member who already holds the role gets a remove mutation for exactly
/// that role.
pub proof fn lemma_member_with_role_removes(ev: ActivationEventView, m: MemberContextView)
    requires
        identifier_ok(ev.control_id),
        ev.member == Some(m),
        m.roles.contains(dec_value(ev.control_id) as u64),
    ensures
        decide_spec(ev) == ActivationDecisionView::Mutate(
            MembershipMutation {
                guild_id: m.guild_id,
                member_id: m.member_id,
                role_id: dec_value(ev.control_id) as u64,
                direction: ToggleDirection::Remove,
            },
        ),
{
}

/// A member who lacks the role gets an add mutation for exactly that role.
pub proof fn lemma_member_without_role_adds(ev: ActivationEventView, m: MemberContextView)
    requires
        identifier_ok(ev.control_id),
        ev.member == Some(m),
        !m.roles.contains(dec_value(ev.control_id) as u64),
    ensures
        decide_spec(ev) == ActivationDecisionView::Mutate(
            MembershipMutation {
                guild_id: m.guild_id,
                member_id: m.member_id,
                role_id: dec_value(ev.control_id) as u64,
                direction: ToggleDirection::Add,
            },
        ),
{
}

/// Round trip with the create path: the identifier issued for a role is
/// valid and resolves back to that role's handle.
pub proof fn lemma_issued_identifier_resolves(r: RoleView)
    ensures
        control_of_role(r).custom_id == dec_rep(r.id as nat),
        identifier_ok(control_of_role(r).custom_id),
        dec_value(control_of_role(r).custom_id) == r.id,
{
    lemma_dec_rep_wf(r.id as nat);
    lemma_dec_rep_value(r.id as nat);
}

/// Whether `roles` holds `id`.
fn contains_role(roles: &Vec<u64>, id: u64) -> (b: bool)
    ensures
        b == roles@.contains(id),
{
    let mut i: usize = 0;
    while i < roles.len()
        invariant
            0 <= i <= roles@.len(),
            forall|j: int| 0 <= j < i ==> roles@[j] != id,
        decreases roles@.len() - i,
    {
        if roles[i] == id {
            assert(roles@.contains(id)) by {
                assert(roles@[i as int] == id);
            }
            return true;
        }
        i = i + 1;
    }
    false
}

/// A private text-only response with the given content.
fn private_response(content: &str) -> (r: Response)
    ensures
        r@ == private_text(content@),
{
    Response { content: String::from_str(content), visibility: Visibility::Private, grid: None }
}

/// Resolves one activation into its decision.
pub fn decide_activation(ev: &ActivationEvent) -> (d: ActivationDecision)
    ensures
        d@ == decide_spec(ev@),
{
    match parse_u64(ev.control_id.as_str()) {
        None => ActivationDecision::Respond(private_response("Error: Invalid role")),
        Some(role_id) => {
            match &ev.member {
                None => ActivationDecision::Respond(private_response("Error: Invalid")),
                Some(m) => {
                    let direction = if contains_role(&m.roles, role_id) {
                        ToggleDirection::Remove
                    } else {
                        ToggleDirection::Add
                    };
                    ActivationDecision::Mutate(
                        MembershipMutation {
                            guild_id: m.guild_id,
                            member_id: m.member_id,
                            role_id,
                            direction,
                        },
                    )
                },
            }
        },
    }
}

/// The private text reported to the member once the gateway has applied,
/// or failed to apply, the requested mutation.
pub open spec fn mutation_response_text(direction: ToggleDirection, success: bool) -> Seq<char> {
    match direction {
        ToggleDirection::Add => {
            if success {
                "Successfully added role!"@
            } else {
                "Error: Couldn't add role!"@
            }
        },
        ToggleDirection::Remove => {
            if success {
                "Successfully removed role!"@
            } else {
                "Error: Couldn't remove role!"@
            }
        },
    }
}

/// The response sent after the gateway reports the mutation's outcome.
pub fn mutation_response(direction: ToggleDirection, success: bool) -> (r: Response)
    ensures
        r@ == private_text(mutation_response_text(direction, success)),
{
    match direction {
        ToggleDirection::Add => {
            if success {
                private_response("Successfully added role!")
            } else {
                private_response("Error: Couldn't add role!")
            }
        },
        ToggleDirection::Remove => {
            if success {
                private_response("Successfully removed role!")
            } else {
                private_response("Error: Couldn't remove role!")
            }
        },
    }
}

/// The audit reason attached to every membership mutation.
pub fn mutation_reason() -> (s: String)
    ensures
        s@ == "Role Buttons"@,
{
    String::from_str("Role Buttons")
}

} // verus!
