//! Validation of a "create" command's arguments.
//!
//! The gateway hands the engine an ordered list of typed argument values.
//! The first must carry the announcement text; every later one must carry a
//! role. Validation short-circuits at the first failure and yields either
//! the announcement plus the role list, in order, or one validation error.

use vstd::prelude::*;

use crate::model::{RoleOption, RoleView};

verus! {

/// One resolved argument value, as typed by the gateway.
#[derive(Debug, PartialEq, Eq)]
pub enum ArgValue {
    /// A free-text value.
    Text(String),
    /// A role value, fully resolved.
    Role(RoleOption),
    /// Any other kind of value.
    Other,
}

/// Ghost image of an `ArgValue`.
pub ghost enum ArgValueView {
    Text(Seq<char>),
    Role(RoleView),
    Other,
}

impl View for ArgValue {
    type V = ArgValueView;

    open spec fn view(&self) -> ArgValueView {
        match self {
            ArgValue::Text(s) => ArgValueView::Text(s@),
            ArgValue::Role(r) => ArgValueView::Role(r@),
            ArgValue::Other => ArgValueView::Other,
        }
    }
}

impl DeepView for ArgValue {
    type V = ArgValueView;

    open spec fn deep_view(&self) -> ArgValueView {
        self@
    }
}

/// One argument of the command: its declared label plus its value.
#[derive(Debug, PartialEq, Eq)]
pub struct Argument {
    pub name: String,
    pub value: ArgValue,
}

/// Ghost image of an `Argument`.
pub ghost struct ArgumentView {
    pub name: Seq<char>,
    pub value: ArgValueView,
}

impl View for Argument {
    type V = ArgumentView;

    open spec fn view(&self) -> ArgumentView {
        ArgumentView { name: self.name@, value: self.value@ }
    }
}

impl DeepView for Argument {
    type V = ArgumentView;

    open spec fn deep_view(&self) -> ArgumentView {
        self@
    }
}

/// A create command as received: the ordered raw argument list.
#[derive(Debug, PartialEq, Eq)]
pub struct CreateRequest {
    pub args: Vec<Argument>,
}

impl View for CreateRequest {
    type V = Seq<ArgumentView>;

    open spec fn view(&self) -> Seq<ArgumentView> {
        self.args.deep_view()
    }
}

impl DeepView for CreateRequest {
    type V = Seq<ArgumentView>;

    open spec fn deep_view(&self) -> Seq<ArgumentView> {
        self@
    }
}

/// Why a create command was rejected.
#[derive(Debug, PartialEq, Eq)]
pub enum CreateError {
    /// No role supplied: fewer than two arguments in all, so nothing
    /// beyond, at most, the message itself.
    NoRoleProvided,
    /// More than ten arguments (one message plus at most nine roles).
    TooManyRoles,
    /// The first argument does not carry text.
    MessageNotString,
    /// The first argument is absent. Unreachable once the count check has
    /// passed; kept as the distinct case the taxonomy names.
    MessageMissing,
    /// A later argument does not carry a role; holds that argument's label.
    NotARole { label: String },
}

/// Ghost image of a `CreateError`.
pub ghost enum CreateErrorView {
    NoRoleProvided,
    TooManyRoles,
    MessageNotString,
    MessageMissing,
    NotARole(Seq<char>),
}

impl View for CreateError {
    type V = CreateErrorView;

    open spec fn view(&self) -> CreateErrorView {
        match self {
            CreateError::NoRoleProvided => CreateErrorView::NoRoleProvided,
            CreateError::TooManyRoles => CreateErrorView::TooManyRoles,
            CreateError::MessageNotString => CreateErrorView::MessageNotString,
            CreateError::MessageMissing => CreateErrorView::MessageMissing,
            CreateError::NotARole { label } => CreateErrorView::NotARole(label@),
        }
    }
}

/// A validated create command: the announcement text and the roles, in the
/// order the arguments supplied them.
#[derive(Debug, PartialEq, Eq)]
pub struct ValidatedCreate {
    pub message: String,
    pub roles: Vec<RoleOption>,
}

/// Ghost image of a `ValidatedCreate`.
pub ghost struct ValidatedCreateView {
    pub message: Seq<char>,
    pub roles: Seq<RoleView>,
}

impl View for ValidatedCreate {
    type V = ValidatedCreateView;

    open spec fn view(&self) -> ValidatedCreateView {
        ValidatedCreateView { message: self.message@, roles: self.roles.deep_view() }
    }
}

/// The first position at or after `k` whose argument does not carry a role,
/// or the length if every one from `k` on does.
pub open spec fn first_non_role(args: Seq<ArgumentView>, k: int) -> int
    recommends
        0 <= k <= args.len(),
    decreases args.len() - k,
{
    if k < 0 || k >= args.len() {
        args.len() as int
    } else if !(args[k].value is Role) {
        k
    } else {
        first_non_role(args, k + 1)
    }
}

/// The validation outcome for an argument list. Checks short-circuit in
/// order: no role supplied (fewer than two arguments), count above ten,
/// non-text first argument, first non-role later argument. A valid request
/// therefore always carries one to nine roles.
pub open spec fn validate_spec(args: Seq<ArgumentView>) -> Result<
    ValidatedCreateView,
    CreateErrorView,
> {
    if args.len() <= 1 {
        Err(CreateErrorView::NoRoleProvided)
    } else if args.len() > 10 {
        Err(CreateErrorView::TooManyRoles)
    } else if !(args[0].value is Text) {
        Err(CreateErrorView::MessageNotString)
    } else if first_non_role(args, 1) < args.len() {
        Err(CreateErrorView::NotARole(args[first_non_role(args, 1)].name))
    } else {
        Ok(
            ValidatedCreateView {
                message: args[0].value->Text_0,
                roles: args.skip(1).map_values(|a: ArgumentView| a.value->Role_0),
            },
        )
    }
}

/// Scanning over a prefix of role-carrying arguments does not move the
/// first non-role position.
proof fn lemma_first_non_role_step(args: Seq<ArgumentView>, lo: int, i: int)
    requires
        0 <= lo <= i <= args.len(),
        forall|k: int| lo <= k < i ==> args[k].value is Role,
    ensures
        first_non_role(args, lo) == first_non_role(args, i),
    decreases i - lo,
{
    if lo < i {
        lemma_first_non_role_step(args, lo + 1, i);
    }
}

impl CreateRequest {
    /// Validates the argument list: exactly the outcome `validate_spec`
    /// gives for it, with every role carried over in order.
    pub fn validate(&self) -> (r: Result<ValidatedCreate, CreateError>)
        ensures
            r is Ok <==> validate_spec(self@) is Ok,
            r matches Ok(v) ==> validate_spec(self@) matches Ok(sv) && v@ == sv,
            r matches Err(e) ==> validate_spec(self@) matches Err(se) && e@ == se,
    {
        let ghost av = self@;
        let n = self.args.len();
        if n <= 1 {
            return Err(CreateError::NoRoleProvided);
        }
        if n > 10 {
            return Err(CreateError::TooManyRoles);
        }
        let message: String = match &self.args[0].value {
            ArgValue::Text(m) => m.clone(),
            _ => {
                return Err(CreateError::MessageNotString);
            },
        };
        let mut roles: Vec<RoleOption> = Vec::new();
        let mut k: usize = 1;
        proof {
            assert(roles.deep_view() =~= av.subrange(1, 1).map_values(
                |a: ArgumentView| a.value->Role_0,
            ));
        }
        while k < n
            invariant
                1 <= k <= n,
                n == self.args.len(),
                av == self@,
                av.len() == n,
                n <= 10,
                av[0].value is Text,
                message@ == av[0].value->Text_0,
                forall|t: int| 1 <= t < k ==> av[t].value is Role,
                roles.deep_view() =~= av.subrange(1, k as int).map_values(
                    |a: ArgumentView| a.value->Role_0,
                ),
            decreases n - k,
        {
            match &self.args[k].value {
                ArgValue::Role(role) => {
                    let r = role.duplicate();
                    proof {
                        assert(av.subrange(1, k + 1) =~= av.subrange(1, k as int).push(
                            av[k as int],
                        ));
                        assert(av.subrange(1, k + 1).map_values(
                            |a: ArgumentView| a.value->Role_0,
                        ) =~= av.subrange(1, k as int).map_values(
                            |a: ArgumentView| a.value->Role_0,
                        ).push(av[k as int].value->Role_0));
                    }
                    roles.push(r);
                },
                _ => {
                    proof {
                        assert(av[k as int] == self.args@[k as int]@);
                        assert(!(av[k as int].value is Role));
                        lemma_first_non_role_step(av, 1, k as int);
                        assert(first_non_role(av, 1) == k);
                        assert(validate_spec(av) == Err::<ValidatedCreateView, _>(
                            CreateErrorView::NotARole(av[k as int].name),
                        ));
                    }
                    return Err(CreateError::NotARole { label: self.args[k].name.clone() });
                },
            }
            k = k + 1;
        }
        proof {
            lemma_first_non_role_step(av, 1, n as int);
            assert(av.subrange(1, n as int) =~= av.skip(1));
        }
        Ok(ValidatedCreate { message, roles })
    }
}

/// The user-facing text of each validation error.
pub open spec fn create_error_text(e: CreateErrorView) -> Seq<char> {
    match e {
        CreateErrorView::NoRoleProvided => "Error: No role has been provided"@,
        CreateErrorView::TooManyRoles => "Error: Too many roles"@,
        CreateErrorView::MessageNotString => "Error: Message is not a string"@,
        CreateErrorView::MessageMissing => "Error: Message parameter missing"@,
        CreateErrorView::NotARole(label) => "Error: "@ + label + " is not a role"@,
    }
}

impl CreateError {
    /// Renders this error as its user-facing text.
    pub fn message_text(&self) -> (s: String)
        ensures
            s@ == create_error_text(self@),
    {
        match self {
            CreateError::NoRoleProvided => String::from_str("Error: No role has been provided"),
            CreateError::TooManyRoles => String::from_str("Error: Too many roles"),
            CreateError::MessageNotString => String::from_str("Error: Message is not a string"),
            CreateError::MessageMissing => String::from_str("Error: Message parameter missing"),
            CreateError::NotARole { label } => {
                let mut s = String::from_str("Error: ");
                s.append(label.as_str());
                s.append(" is not a role");
                proof {
                    assert(s@ =~= "Error: "@ + label@ + " is not a role"@);
                }
                s
            },
        }
    }
}

} // verus!
