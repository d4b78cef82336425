//! Partitioning an ordered list of roles into a grid of button controls.
//!
//! The presentation surface caps each row at five controls, so the list is
//! cut into consecutive chunks of at most five, preserving order. Each role
//! becomes one control whose identifier is the decimal text of the role's
//! handle and whose label is the role's display name.

use vstd::prelude::*;

use crate::model::{Control, ControlGrid, ControlView, RoleOption, RoleView};
use crate::numerals::{dec_rep, u64_to_decimal};

verus! {

/// The platform's per-row capacity for button controls.
pub const ROW_CAPACITY: usize = 5;

/// The control issued for one role.
pub open spec fn control_of_role(r: RoleView) -> ControlView {
    ControlView { custom_id: dec_rep(r.id as nat), label: r.name }
}

/// The controls issued for a list of roles, in the same order.
pub open spec fn controls_of(roles: Seq<RoleView>) -> Seq<ControlView> {
    roles.map_values(|r: RoleView| control_of_role(r))
}

/// The grid produced for a list of roles: consecutive chunks of at most
/// five controls, in order.
pub open spec fn grid_rows(roles: Seq<RoleView>) -> Seq<Seq<ControlView>>
    decreases roles.len(),
{
    if roles.len() == 0 {
        Seq::empty()
    } else if roles.len() <= 5 {
        seq![controls_of(roles)]
    } else {
        seq![controls_of(roles.take(5))] + grid_rows(roles.skip(5))
    }
}

/// Shape of the grid: one row per started chunk of five, every row holds
/// between one and five controls, and flattening the rows gives back one
/// control per input role, in the input order.
pub proof fn lemma_grid_shape(roles: Seq<RoleView>)
    ensures
        grid_rows(roles).len() == (roles.len() + 4) / 5,
        forall|k: int|
            0 <= k < grid_rows(roles).len() ==> 1 <= #[trigger] grid_rows(roles)[k].len() <= 5,
        grid_rows(roles).flatten() =~= controls_of(roles),
    decreases roles.len(),
{
    if roles.len() == 0 {
        assert(grid_rows(roles).flatten() =~= controls_of(roles));
    } else if roles.len() <= 5 {
        assert(grid_rows(roles) == seq![controls_of(roles)]);
        assert(seq![controls_of(roles)].drop_first() =~= Seq::<Seq<ControlView>>::empty());
        assert(grid_rows(roles).flatten() =~= controls_of(roles) + Seq::<
            Seq<ControlView>,
        >::empty().flatten());
        assert(grid_rows(roles).flatten() =~= controls_of(roles));
    } else {
        let head = controls_of(roles.take(5));
        let tail = grid_rows(roles.skip(5));
        lemma_grid_shape(roles.skip(5));
        assert(grid_rows(roles) == seq![head] + tail);
        assert((seq![head] + tail).drop_first() =~= tail);
        assert(grid_rows(roles).flatten() =~= head + tail.flatten());
        assert(controls_of(roles) =~= head + controls_of(roles.skip(5)));
        assert forall|k: int|
            0 <= k < grid_rows(roles).len() implies 1 <= #[trigger] grid_rows(roles)[k].len()
            <= 5 by {
            if k > 0 {
                assert(grid_rows(roles)[k] == tail[k - 1]);
            }
        }
    }
}

/// The grid never drops or reorders roles: the flattened grid has exactly
/// one control per role, standing at the role's own position.
pub proof fn lemma_grid_preserves_order(roles: Seq<RoleView>)
    ensures
        grid_rows(roles).flatten().len() == roles.len(),
        forall|i: int|
            0 <= i < roles.len() ==> grid_rows(roles).flatten()[i] == control_of_role(roles[i]),
{
    lemma_grid_shape(roles);
}

/// The control for one role: identifier is the decimal text of the handle,
/// label is the display name.
pub fn control_for(role: &RoleOption) -> (c: Control)
    ensures
        c@ == control_of_role(role@),
{
    Control { custom_id: u64_to_decimal(role.id), label: role.name.clone() }
}

/// Lays the roles out as a grid of button controls. Total: defined for any
/// number of roles, though a valid create request supplies one to nine.
pub fn layout(roles: &Vec<RoleOption>) -> (g: ControlGrid)
    ensures
        g@ == grid_rows(roles.deep_view()),
{
    let ghost rv = roles.deep_view();
    let mut rows: Vec<Vec<Control>> = Vec::new();
    let mut i: usize = 0;
    proof {
        assert(rv.skip(0) =~= rv);
        assert(rows.deep_view() =~= Seq::<Seq<ControlView>>::empty());
    }
    while i < roles.len()
        invariant
            0 <= i <= roles.len(),
            rv == roles.deep_view(),
            rv.len() == roles.len(),
            grid_rows(rv) =~= rows.deep_view() + grid_rows(rv.skip(i as int)),
        decreases roles.len() - i,
    {
        let end: usize = if roles.len() - i < ROW_CAPACITY {
            roles.len()
        } else {
            i + ROW_CAPACITY
        };
        let mut row: Vec<Control> = Vec::new();
        let mut j: usize = i;
        while j < end
            invariant
                i <= j <= end,
                end <= roles.len(),
                rv == roles.deep_view(),
                rv.len() == roles.len(),
                row.deep_view() =~= controls_of(rv.subrange(i as int, j as int)),
            decreases end - j,
        {
            let c = control_for(&roles[j]);
            proof {
                assert(rv.subrange(i as int, j + 1) =~= rv.subrange(i as int, j as int).push(
                    rv[j as int],
                ));
                assert(controls_of(rv.subrange(i as int, j + 1)) =~= controls_of(
                    rv.subrange(i as int, j as int),
                ).push(control_of_role(rv[j as int])));
            }
            row.push(c);
            j = j + 1;
        }
        proof {
            let rest = rv.skip(i as int);
            if rest.len() <= 5 {
                assert(rv.subrange(i as int, end as int) =~= rest);
                assert(grid_rows(rest) == seq![controls_of(rest)]);
            } else {
                assert(rv.subrange(i as int, end as int) =~= rest.take(5));
                assert(rest.skip(5) =~= rv.skip(end as int));
                assert(grid_rows(rest) == seq![controls_of(rest.take(5))] + grid_rows(
                    rv.skip(end as int),
                ));
            }
        }
        let ghost old_rows = rows.deep_view();
        let ghost row_view = row.deep_view();
        rows.push(row);
        proof {
            assert(rows.deep_view() =~= old_rows.push(row_view));
            assert(grid_rows(rv) =~= rows.deep_view() + grid_rows(rv.skip(end as int)));
        }
        i = end;
    }
    proof {
        assert(rv.skip(i as int) =~= Seq::empty());
        assert(grid_rows(rv) =~= rows.deep_view());
    }
    ControlGrid { rows }
}

} // verus!
