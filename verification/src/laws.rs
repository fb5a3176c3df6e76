//! What holds of every state, whatever the rows: the cycles of the selection
//! and of the palettes, that every action keeps the state well formed, that
//! actions take effect in the order in which they came, and that drawing
//! follows the render clock alone.

use crate::action::Action;
use crate::app::{effect_of, AppView, Effect};
use crate::control::applied;
use crate::rows::PriceRowView;
use crate::table::{scroll_extent, TableView};
use crate::theme::PALETTE_COUNT;
use vstd::prelude::*;

verus! {

/// The place that is `steps` places after `index` in a cycle of `count`
/// places, for no more steps than there are places.
pub open spec fn places_after(index: nat, steps: nat, count: nat) -> nat {
    if index + steps < count {
        index + steps
    } else {
        (index + steps - count) as nat
    }
}

/// The place that is `steps` places before `index` in a cycle of `count`
/// places, for no more steps than there are places.
pub open spec fn places_before(index: nat, steps: nat, count: nat) -> nat {
    if steps <= index {
        (index - steps) as nat
    } else {
        (index + count - steps) as nat
    }
}

/// Stepping down `steps` times selects the row that many rows below, wrapping
/// once at most, and changes nothing else.
pub proof fn lemma_next_walks_down(state: AppView, steps: nat)
    requires
        state.wf(),
        state.table.rows.len() > 0,
        steps <= state.table.rows.len(),
    ensures
        state.repeat(Action::NEXT, steps) == (AppView {
            table: state.table.select(
                places_after(state.table.selected->0, steps, state.table.rows.len()),
            ),
            ..state
        }),
    decreases steps,
{
    if steps > 0 {
        lemma_next_walks_down(state, (steps - 1) as nat);
    }
}

/// Stepping up `steps` times selects the row that many rows above, wrapping
/// once at most, and changes nothing else.
pub proof fn lemma_previous_walks_up(state: AppView, steps: nat)
    requires
        state.wf(),
        state.table.rows.len() > 0,
        steps <= state.table.rows.len(),
    ensures
        state.repeat(Action::PREVIOUS, steps) == (AppView {
            table: state.table.select(
                places_before(state.table.selected->0, steps, state.table.rows.len()),
            ),
            ..state
        }),
    decreases steps,
{
    if steps > 0 {
        lemma_previous_walks_up(state, (steps - 1) as nat);
    }
}

/// In a table of N rows, N steps down from any row lead back to it, and so do
/// N steps up.
pub proof fn lemma_navigation_wraps_around(state: AppView)
    requires
        state.wf(),
        state.table.rows.len() > 0,
    ensures
        state.repeat(Action::NEXT, state.table.rows.len()) == state,
        state.repeat(Action::PREVIOUS, state.table.rows.len()) == state,
{
    lemma_next_walks_down(state, state.table.rows.len());
    lemma_previous_walks_up(state, state.table.rows.len());
}

/// In an empty table no number of steps, down or up, selects anything.
pub proof fn lemma_empty_table_stays_unselected(state: AppView, steps: nat)
    requires
        state.wf(),
        state.table.rows.len() == 0,
    ensures
        state.repeat(Action::NEXT, steps) == state,
        state.repeat(Action::PREVIOUS, steps) == state,
        state.repeat(Action::NEXT, steps).table.selected is None,
        state.repeat(Action::PREVIOUS, steps).table.selected is None,
    decreases steps,
{
    if steps > 0 {
        lemma_empty_table_stays_unselected(state, (steps - 1) as nat);
    }
}

/// Stepping forwards through the palettes `steps` times moves the choice that
/// many places on, wrapping once at most, and changes nothing else.
pub proof fn lemma_next_color_walks(state: AppView, steps: nat)
    requires
        state.wf(),
        steps <= PALETTE_COUNT,
    ensures
        state.repeat(Action::NextColor, steps) == (AppView {
            color_index: places_after(state.color_index, steps, PALETTE_COUNT as nat),
            ..state
        }),
    decreases steps,
{
    if steps > 0 {
        lemma_next_color_walks(state, (steps - 1) as nat);
    }
}

/// Stepping backwards through the palettes `steps` times moves the choice that
/// many places back, wrapping once at most, and changes nothing else.
pub proof fn lemma_previous_color_walks(state: AppView, steps: nat)
    requires
        state.wf(),
        steps <= PALETTE_COUNT,
    ensures
        state.repeat(Action::PreviousColor, steps) == (AppView {
            color_index: places_before(state.color_index, steps, PALETTE_COUNT as nat),
            ..state
        }),
    decreases steps,
{
    if steps > 0 {
        lemma_previous_color_walks(state, (steps - 1) as nat);
    }
}

/// As many steps through the palettes as there are palettes lead back to the
/// palette they started from, forwards and backwards.
pub proof fn lemma_colors_cycle(state: AppView)
    requires
        state.wf(),
    ensures
        state.repeat(Action::NextColor, PALETTE_COUNT as nat) == state,
        state.repeat(Action::PreviousColor, PALETTE_COUNT as nat) == state,
{
    lemma_next_color_walks(state, PALETTE_COUNT as nat);
    lemma_previous_color_walks(state, PALETTE_COUNT as nat);
}

/// Every action leaves a well-formed state well formed: the selection still
/// names a row of the table, or nothing in an empty one.
pub proof fn lemma_step_keeps_wf(state: AppView, action: Action)
    requires
        state.wf(),
    ensures
        state.step(action).wf(),
{
}

/// A fresh table is well formed, with the first row selected, or none in an
/// empty table, the scrollbar at the top, and its length that of the rows.
pub proof fn lemma_fresh_table_is_wf(rows: Seq<PriceRowView>)
    ensures
        TableView::fresh(rows).wf(),
        TableView::fresh(rows).selected == if rows.len() == 0 {
            None
        } else {
            Some(0nat)
        },
        TableView::fresh(rows).scroll_length == scroll_extent(rows.len()),
        TableView::fresh(rows).scroll_position == 0,
{
}

/// A refresh leaves a well-formed state well formed, whatever the provider
/// answers, and changes nothing but the table.
pub proof fn lemma_load_keeps_wf(state: AppView, all: Seq<PriceRowView>)
    requires
        state.wf(),
    ensures
        state.loaded(all).wf(),
        state.loaded(all) == (AppView { table: state.loaded(all).table, ..state }),
{
}

/// Any run of actions leaves a well-formed state well formed.
pub proof fn lemma_applied_keeps_wf(state: AppView, actions: Seq<Action>)
    requires
        state.wf(),
    ensures
        applied(state, actions).wf(),
    decreases actions.len(),
{
    if actions.len() > 0 {
        lemma_applied_keeps_wf(state, actions.drop_last());
    }
}

/// Actions take effect in the order in which they came: applying a queue in
/// two parts, the head and then the rest, is applying the whole of it.
pub proof fn lemma_applied_in_turn(state: AppView, head: Seq<Action>, rest: Seq<Action>)
    ensures
        applied(state, head + rest) == applied(applied(state, head), rest),
    decreases rest.len(),
{
    if rest.len() > 0 {
        assert((head + rest).drop_last() =~= head + rest.drop_last());
        lemma_applied_in_turn(state, head, rest.drop_last());
    }
}

/// Drawing follows the render clock alone, and the provider is asked on a
/// refresh or a committed search alone.
pub proof fn lemma_effects_follow_their_actions(action: Action)
    ensures
        effect_of(action) == Effect::Draw <==> action is Render,
        effect_of(action) == Effect::Fetch <==> action is Refresh || action is SearchCoin,
        effect_of(action) == Effect::OpenSearch <==> action is SearchFocus,
{
}

/// The clocks change nothing: a tick and a render leave the state as it is.
pub proof fn lemma_clocks_change_nothing(state: AppView)
    ensures
        state.step(Action::Tick) == state,
        state.step(Action::Render) == state,
        state.step(Action::Refresh) == state,
        state.step(Action::Noop) == state,
{
}

} // verus!
