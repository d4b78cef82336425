use vstd::prelude::*;

verus! {

/// A role offered for self-assignment: the platform's numeric handle plus a
/// display name. Received fully resolved from the platform gateway.
#[derive(Debug, PartialEq, Eq)]
pub struct RoleOption {
    pub id: u64,
    pub name: String,
}

/// Ghost image of a `RoleOption`.
pub ghost struct RoleView {
    pub id: u64,
    pub name: Seq<char>,
}

impl View for RoleOption {
    type V = RoleView;

    open spec fn view(&self) -> RoleView {
        RoleView { id: self.id, name: self.name@ }
    }
}

impl DeepView for RoleOption {
    type V = RoleView;

    open spec fn deep_view(&self) -> RoleView {
        self@
    }
}

impl RoleOption {
    /// A fresh value with the same handle and name.
    pub fn duplicate(&self) -> (r: RoleOption)
        ensures
            r@ == self@,
    {
        RoleOption { id: self.id, name: self.name.clone() }
    }
}

/// A single button control: the identifier text the platform will echo back
/// on activation, plus the label shown to members.
#[derive(Debug, PartialEq, Eq)]
pub struct Control {
    pub custom_id: String,
    pub label: String,
}

/// Ghost image of a `Control`.
pub ghost struct ControlView {
    pub custom_id: Seq<char>,
    pub label: Seq<char>,
}

impl View for Control {
    type V = ControlView;

    open spec fn view(&self) -> ControlView {
        ControlView { custom_id: self.custom_id@, label: self.label@ }
    }
}

impl DeepView for Control {
    type V = ControlView;

    open spec fn deep_view(&self) -> ControlView {
        self@
    }
}

/// The paginated layout of controls sent with one create response: rows of
/// at most five controls each.
#[derive(Debug, PartialEq, Eq)]
pub struct ControlGrid {
    pub rows: Vec<Vec<Control>>,
}

impl View for ControlGrid {
    type V = Seq<Seq<ControlView>>;

    open spec fn view(&self) -> Seq<Seq<ControlView>> {
        self.rows.deep_view()
    }
}

impl DeepView for ControlGrid {
    type V = Seq<Seq<ControlView>>;

    open spec fn deep_view(&self) -> Seq<Seq<ControlView>> {
        self@
    }
}

/// Who may see a response.
#[derive(Debug, PartialEq, Eq, Structural, Clone, Copy)]
pub enum Visibility {
    /// Delivered to the channel, visible to everyone.
    Public,
    /// Ephemeral: shown only to the acting member.
    Private,
}

/// An outbound response handed to the platform gateway: message text, its
/// visibility, and, for a successful create command, the control grid.
#[derive(Debug, PartialEq, Eq)]
pub struct Response {
    pub content: String,
    pub visibility: Visibility,
    pub grid: Option<ControlGrid>,
}

/// Ghost image of a `Response`.
pub ghost struct ResponseView {
    pub content: Seq<char>,
    pub visibility: Visibility,
    pub grid: Option<Seq<Seq<ControlView>>>,
}

impl View for Response {
    type V = ResponseView;

    open spec fn view(&self) -> ResponseView {
        ResponseView {
            content: self.content@,
            visibility: self.visibility,
            grid: self.grid.deep_view(),
        }
    }
}

impl DeepView for Response {
    type V = ResponseView;

    open spec fn deep_view(&self) -> ResponseView {
        self@
    }
}

} // verus!
