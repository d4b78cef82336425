use role_buttons::activation::{
    ActivationDecision, ActivationEvent, MemberContext, MembershipMutation, ToggleDirection,
    decide_activation, mutation_reason, mutation_response,
};
use role_buttons::create::{ArgValue, Argument, CreateError, CreateRequest};
use role_buttons::engine::{EngineOutput, InboundEvent, process_command, process_create, process_event};
use role_buttons::model::{RoleOption, Visibility};

fn text_arg(name: &str, value: &str) -> Argument {
    Argument { name: name.to_string(), value: ArgValue::Text(value.to_string()) }
}

fn role_arg(name: &str, id: u64, role_name: &str) -> Argument {
    Argument {
        name: name.to_string(),
        value: ArgValue::Role(RoleOption { id, name: role_name.to_string() }),
    }
}

fn other_arg(name: &str) -> Argument {
    Argument { name: name.to_string(), value: ArgValue::Other }
}

fn request(args: Vec<Argument>) -> CreateRequest {
    CreateRequest { args }
}

fn member(guild_id: u64, member_id: u64, roles: Vec<u64>) -> MemberContext {
    MemberContext { guild_id, member_id, roles }
}

fn event(control_id: &str, member: Option<MemberContext>) -> ActivationEvent {
    ActivationEvent { control_id: control_id.to_string(), member }
}

#[test]
fn zero_arguments_is_no_role_provided() {
    let req = request(vec![]);
    assert_eq!(req.validate(), Err(CreateError::NoRoleProvided));
    let resp = process_create(&req);
    assert_eq!(resp.content, "Error: No role has been provided");
    assert_eq!(resp.visibility, Visibility::Public);
    assert!(resp.grid.is_none());
}

#[test]
fn eleven_arguments_is_too_many_roles() {
    let mut args = vec![text_arg("message", "hi")];
    for i in 1..=10u64 {
        args.push(role_arg(&format!("role{i}"), i, "r"));
    }
    assert_eq!(args.len(), 11);
    let req = request(args);
    assert_eq!(req.validate(), Err(CreateError::TooManyRoles));
    assert_eq!(process_create(&req).content, "Error: Too many roles");
}

#[test]
fn non_text_first_argument_is_message_not_string() {
    let req = request(vec![role_arg("message", 7, "oops"), role_arg("role1", 1, "r")]);
    assert_eq!(req.validate(), Err(CreateError::MessageNotString));
    assert_eq!(process_create(&req).content, "Error: Message is not a string");
}

#[test]
fn non_role_argument_is_named_in_the_error() {
    let req = request(vec![
        text_arg("message", "hi"),
        role_arg("role1", 1, "alpha"),
        role_arg("role2", 2, "beta"),
        other_arg("role3"),
        role_arg("role4", 4, "delta"),
    ]);
    assert_eq!(req.validate(), Err(CreateError::NotARole { label: "role3".to_string() }));
    assert_eq!(process_create(&req).content, "Error: role3 is not a role");
}

#[test]
fn valid_request_yields_announcement_and_grid() {
    let req = request(vec![
        text_arg("message", "pick a role"),
        role_arg("role1", 11, "alpha"),
        role_arg("role2", 22, "beta"),
    ]);
    let validated = req.validate().unwrap();
    assert_eq!(validated.message, "pick a role");
    assert_eq!(validated.roles.len(), 2);
    let resp = process_create(&req);
    assert_eq!(resp.content, "pick a role");
    assert_eq!(resp.visibility, Visibility::Public);
    let grid = resp.grid.unwrap();
    assert_eq!(grid.rows.len(), 1);
    assert_eq!(grid.rows[0].len(), 2);
    assert_eq!(grid.rows[0][0].custom_id, "11");
    assert_eq!(grid.rows[0][0].label, "alpha");
    assert_eq!(grid.rows[0][1].custom_id, "22");
    assert_eq!(grid.rows[0][1].label, "beta");
}

#[test]
fn message_without_any_role_is_no_role_provided() {
    let req = request(vec![text_arg("message", "plain announcement")]);
    assert_eq!(req.validate(), Err(CreateError::NoRoleProvided));
    let resp = process_create(&req);
    assert_eq!(resp.content, "Error: No role has been provided");
    assert!(resp.grid.is_none());
}

#[test]
fn identical_requests_give_structurally_identical_responses() {
    let build = || {
        request(vec![
            text_arg("message", "same every time"),
            role_arg("role1", 5, "five"),
            role_arg("role2", 6, "six"),
            role_arg("role3", 7, "seven"),
        ])
    };
    let first = process_create(&build());
    let second = process_create(&build());
    assert_eq!(first, second);
    assert_eq!(first.grid, second.grid);
}

#[test]
fn unknown_command_is_refused() {
    let resp = process_command(
        &"destroy".to_string(),
        &request(vec![text_arg("message", "hi")]),
    );
    assert_eq!(resp.content, "Error: Invalid command");
    assert_eq!(resp.visibility, Visibility::Public);
    assert!(resp.grid.is_none());
}

#[test]
fn non_numeric_identifier_is_invalid_role_and_no_mutation() {
    let d = decide_activation(&event("abc", Some(member(1, 2, vec![42]))));
    match d {
        ActivationDecision::Respond(r) => {
            assert_eq!(r.content, "Error: Invalid role");
            assert_eq!(r.visibility, Visibility::Private);
            assert!(r.grid.is_none());
        },
        ActivationDecision::Mutate(_) => panic!("a mutation was issued for a bad identifier"),
    }
}

#[test]
fn missing_member_context_is_invalid() {
    let d = decide_activation(&event("42", None));
    match d {
        ActivationDecision::Respond(r) => {
            assert_eq!(r.content, "Error: Invalid");
            assert_eq!(r.visibility, Visibility::Private);
        },
        ActivationDecision::Mutate(_) => panic!("a mutation was issued without a member"),
    }
}

#[test]
fn member_holding_the_role_gets_a_remove_mutation() {
    let d = decide_activation(&event("42", Some(member(10, 20, vec![7, 42, 9]))));
    assert_eq!(
        d,
        ActivationDecision::Mutate(MembershipMutation {
            guild_id: 10,
            member_id: 20,
            role_id: 42,
            direction: ToggleDirection::Remove,
        })
    );
    let ok = mutation_response(ToggleDirection::Remove, true);
    assert_eq!(ok.content, "Successfully removed role!");
    assert_eq!(ok.visibility, Visibility::Private);
}

#[test]
fn member_lacking_the_role_gets_an_add_mutation() {
    let d = decide_activation(&event("99", Some(member(10, 20, vec![7, 42, 9]))));
    assert_eq!(
        d,
        ActivationDecision::Mutate(MembershipMutation {
            guild_id: 10,
            member_id: 20,
            role_id: 99,
            direction: ToggleDirection::Add,
        })
    );
    let failed = mutation_response(ToggleDirection::Add, false);
    assert_eq!(failed.content, "Error: Couldn't add role!");
    assert_eq!(failed.visibility, Visibility::Private);
}

#[test]
fn overflowing_identifier_is_invalid_role() {
    let d = decide_activation(&event("18446744073709551616", Some(member(1, 2, vec![]))));
    match d {
        ActivationDecision::Respond(r) => assert_eq!(r.content, "Error: Invalid role"),
        ActivationDecision::Mutate(_) => panic!("a mutation was issued for an overflowing handle"),
    }
}

#[test]
fn largest_handle_still_resolves() {
    let d = decide_activation(&event("18446744073709551615", Some(member(1, 2, vec![]))));
    assert_eq!(
        d,
        ActivationDecision::Mutate(MembershipMutation {
            guild_id: 1,
            member_id: 2,
            role_id: u64::MAX,
            direction: ToggleDirection::Add,
        })
    );
}

#[test]
fn every_mutation_outcome_has_its_text() {
    assert_eq!(mutation_response(ToggleDirection::Add, true).content, "Successfully added role!");
    assert_eq!(
        mutation_response(ToggleDirection::Add, false).content,
        "Error: Couldn't add role!"
    );
    assert_eq!(
        mutation_response(ToggleDirection::Remove, true).content,
        "Successfully removed role!"
    );
    assert_eq!(
        mutation_response(ToggleDirection::Remove, false).content,
        "Error: Couldn't remove role!"
    );
}

#[test]
fn mutation_reason_is_the_audit_tag() {
    assert_eq!(mutation_reason(), "Role Buttons");
}

#[test]
fn events_dispatch_to_reply_or_mutation() {
    let cmd = InboundEvent::Command {
        name: "create".to_string(),
        request: request(vec![text_arg("message", "hello"), role_arg("role1", 3, "three")]),
    };
    match process_event(&cmd) {
        EngineOutput::Reply(r) => assert_eq!(r.content, "hello"),
        EngineOutput::RequestMutation(_) => panic!("a command asked for a mutation"),
    }
    let press = InboundEvent::Activation(event("3", Some(member(1, 2, vec![]))));
    match process_event(&press) {
        EngineOutput::RequestMutation(m) => {
            assert_eq!(m.role_id, 3);
            assert_eq!(m.direction, ToggleDirection::Add);
        },
        EngineOutput::Reply(_) => panic!("a pressable control did not ask for a mutation"),
    }
}
