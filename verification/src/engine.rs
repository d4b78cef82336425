//! The interaction processor: one inbound event in, one output out.
//!
//! Inbound events are a tagged variant — a command invocation or a control
//! activation — dispatched by exhaustive matching. A command is validated
//! and, on success, laid out as a control grid; an activation is resolved
//! into a toggle decision. Each event is processed independently; the
//! engine keeps no state across events.

use vstd::prelude::*;

use crate::activation::{
    ActivationDecision, ActivationDecisionView, ActivationEvent, ActivationEventView,
    MembershipMutation, decide_activation, decide_spec,
};
use crate::create::{
    ArgumentView, CreateRequest, create_error_text, validate_spec,
};
use crate::grid_layout::{grid_rows, layout};
use crate::model::{Response, ResponseView, Visibility};

verus! {

/// One inbound event, as the gateway hands it over.
#[derive(Debug, PartialEq, Eq)]
pub enum InboundEvent {
    /// A command invocation: the command's name and its argument list.
    Command { name: String, request: CreateRequest },
    /// A control activation.
    Activation(ActivationEvent),
}

/// Ghost image of an `InboundEvent`.
pub ghost enum InboundEventView {
    Command { name: Seq<char>, args: Seq<ArgumentView> },
    Activation(ActivationEventView),
}

impl View for InboundEvent {
    type V = InboundEventView;

    open spec fn view(&self) -> InboundEventView {
        match self {
            InboundEvent::Command { name, request } => InboundEventView::Command {
                name: name@,
                args: request@,
            },
            InboundEvent::Activation(ev) => InboundEventView::Activation(ev@),
        }
    }
}

/// What the engine hands back to the gateway for one event: either a
/// response to deliver, or a membership mutation to perform.
#[derive(Debug, PartialEq, Eq)]
pub enum EngineOutput {
    Reply(Response),
    RequestMutation(MembershipMutation),
}

/// Ghost image of an `EngineOutput`.
pub ghost enum EngineOutputView {
    Reply(ResponseView),
    RequestMutation(MembershipMutation),
}

impl View for EngineOutput {
    type V = EngineOutputView;

    open spec fn view(&self) -> EngineOutputView {
        match self {
            EngineOutput::Reply(r) => EngineOutputView::Reply(r@),
            EngineOutput::RequestMutation(m) => EngineOutputView::RequestMutation(*m),
        }
    }
}

/// The response to a create command: on success, the announcement text
/// above the laid-out control grid; on a validation failure, the error's
/// text and nothing else. Command responses are public either way.
pub open spec fn create_response_spec(args: Seq<ArgumentView>) -> ResponseView {
    match validate_spec(args) {
        Ok(v) => ResponseView {
            content: v.message,
            visibility: Visibility::Public,
            grid: Some(grid_rows(v.roles)),
        },
        Err(e) => ResponseView {
            content: create_error_text(e),
            visibility: Visibility::Public,
            grid: None,
        },
    }
}

/// The response to a command invocation: only "create" is known.
pub open spec fn command_response_spec(name: Seq<char>, args: Seq<ArgumentView>) -> ResponseView {
    if name == "create"@ {
        create_response_spec(args)
    } else {
        ResponseView {
            content: "Error: Invalid command"@,
            visibility: Visibility::Public,
            grid: None,
        }
    }
}

/// The output owed for one inbound event.
pub open spec fn event_output_spec(ev: InboundEventView) -> EngineOutputView {
    match ev {
        InboundEventView::Command { name, args } => EngineOutputView::Reply(
            command_response_spec(name, args),
        ),
        InboundEventView::Activation(a) => match decide_spec(a) {
            ActivationDecisionView::Respond(r) => EngineOutputView::Reply(r),
            ActivationDecisionView::Mutate(m) => EngineOutputView::RequestMutation(m),
        },
    }
}

/// Creating is idempotent in the structural sense: two create requests
/// with identical argument lists are owed identical responses — in
/// particular, identical control grids — since the response is a function
/// of the argument list alone.
pub proof fn lemma_create_idempotent(args1: Seq<ArgumentView>, args2: Seq<ArgumentView>)
    requires
        args1 == args2,
    ensures
        create_response_spec(args1) == create_response_spec(args2),
{
}

/// Validates a create command and, on success, lays its roles out as a
/// control grid.
pub fn process_create(request: &CreateRequest) -> (r: Response)
    ensures
        r@ == create_response_spec(request@),
{
    match request.validate() {
        Ok(v) => {
            let grid = layout(&v.roles);
            Response {
                content: v.message,
                visibility: Visibility::Public,
                grid: Some(grid),
            }
        },
        Err(e) => Response {
            content: e.message_text(),
            visibility: Visibility::Public,
            grid: None,
        },
    }
}

/// Handles a command invocation; a name other than "create" is refused.
pub fn process_command(name: &String, request: &CreateRequest) -> (r: Response)
    ensures
        r@ == command_response_spec(name@, request@),
{
    let create_name = String::from_str("create");
    if name.eq(&create_name) {
        process_create(request)
    } else {
        Response {
            content: String::from_str("Error: Invalid command"),
            visibility: Visibility::Public,
            grid: None,
        }
    }
}

/// Processes one inbound event to the single output owed for it.
pub fn process_event(ev: &InboundEvent) -> (out: EngineOutput)
    ensures
        out@ == event_output_spec(ev@),
{
    match ev {
        InboundEvent::Command { name, request } => EngineOutput::Reply(
            process_command(name, request),
        ),
        InboundEvent::Activation(a) => match decide_activation(a) {
            ActivationDecision::Respond(r) => EngineOutput::Reply(r),
            ActivationDecision::Mutate(m) => EngineOutput::RequestMutation(m),
        },
    }
}

} // verus!
