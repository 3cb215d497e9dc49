//! The grid binder: turns the ordered descriptor sequence into one element
//! plan per descriptor, each at its declared cell, actionable entries wired
//! to a launch request and passive entries left unwired.

use vstd::prelude::*;
use crate::config::CellDescriptor;
use crate::config::PanelConfig;

verus! {

/// The plan for one UI element. A `Trigger` owns an independent copy of its
/// descriptor's `cmd`, `args` and `is_toggle`: no two elements share captured
/// state, and no element borrows a loop variable.
pub enum GridElement {
    /// A non-interactive text region, left-aligned and bottom-aligned,
    /// sized `label_width x label_height`.
    Passive { label: String, col: i32, row: i32, width: i32, height: i32 },
    /// A clickable region sized `button_width x button_height` that launches
    /// `cmd` with `args` under the policy selected by `is_toggle`.
    Trigger {
        label: String,
        col: i32,
        row: i32,
        width: i32,
        height: i32,
        cmd: String,
        args: Vec<String>,
        is_toggle: bool,
    },
}

impl GridElement {
    /// Whether this element reacts to activation.
    pub open spec fn is_clickable(&self) -> bool {
        self is Trigger
    }
}

/// The element that the binder owes one descriptor, given the panel's sizing
/// constants: passive exactly when the command is empty, and a trigger that
/// captures the descriptor's own `(cmd, args, is_toggle)` otherwise.
pub open spec fn element_of(d: CellDescriptor, c: PanelConfig) -> GridElement {
    if d.is_trigger() {
        GridElement::Trigger {
            label: d.label,
            col: d.col,
            row: d.row,
            width: c.button_width,
            height: c.button_height,
            cmd: d.cmd,
            args: d.args,
            is_toggle: d.is_toggle,
        }
    } else {
        GridElement::Passive {
            label: d.label,
            col: d.col,
            row: d.row,
            width: c.label_width,
            height: c.label_height,
        }
    }
}

/// Binds one descriptor, consuming it: the descriptor's strings move into the
/// element, so every trigger owns its captured state.
pub fn bind_cell(d: CellDescriptor, c: &PanelConfig) -> (r: GridElement)
    ensures
        r == element_of(d, *c),
{
    if d.classify_trigger() {
        GridElement::Trigger {
            label: d.label,
            col: d.col,
            row: d.row,
            width: c.button_width,
            height: c.button_height,
            cmd: d.cmd,
            args: d.args,
            is_toggle: d.is_toggle,
        }
    } else {
        GridElement::Passive {
            label: d.label,
            col: d.col,
            row: d.row,
            width: c.label_width,
            height: c.label_height,
        }
    }
}

/// Walks the descriptor sequence in order and produces exactly one element
/// per descriptor. Coordinates are not validated: two descriptors may name
/// the same cell, and the later attachment wins visually.
pub fn bind_grid(c: PanelConfig) -> (r: Vec<GridElement>)
    ensures
        r@.len() == c.buttons@.len(),
        forall|i: int| 0 <= i < r@.len() ==> r@[i] == element_of(c.buttons@[i], c),
{
    let ghost orig = c;
    let PanelConfig {
        margin_top,
        shadow_width,
        grid_width,
        button_width,
        button_height,
        label_width,
        label_height,
        buttons,
    } = c;
    let sizes = PanelConfig {
        margin_top,
        shadow_width,
        grid_width,
        button_width,
        button_height,
        label_width,
        label_height,
        buttons: Vec::new(),
    };
    let mut out: Vec<GridElement> = Vec::new();
    let mut rest: Vec<CellDescriptor> = buttons;
    let mut i: usize = 0;
    let n: usize = rest.len();
    while i < n
        invariant
            i <= n,
            n == orig.buttons@.len(),
            rest@ == orig.buttons@.skip(i as int),
            out@.len() == i,
            forall|j: int| 0 <= j < i ==> out@[j] == element_of(orig.buttons@[j], orig),
            sizes.button_width == orig.button_width,
            sizes.button_height == orig.button_height,
            sizes.label_width == orig.label_width,
            sizes.label_height == orig.label_height,
        decreases n - i,
    {
        let d = rest.remove(0);
        let e = bind_cell(d, &sizes);
        out.push(e);
        i = i + 1;
        assert(rest@ =~= orig.buttons@.skip(i as int));
    }
    out
}

/// A descriptor with an empty command is always bound to a passive element,
/// never to a clickable one, whatever its other fields hold.
pub proof fn lemma_empty_cmd_is_passive(d: CellDescriptor, c: PanelConfig)
    requires
        d.cmd@.len() == 0,
    ensures
        !element_of(d, c).is_clickable(),
{
}

/// A descriptor with a non-empty command is always bound to a clickable
/// element that captures that descriptor's own command, arguments and policy
/// flag: under the binder's contract, element `i` of the result carries the
/// triple of descriptor `i` and of no other, so no two bindings alias.
pub proof fn lemma_trigger_captures_own_state(d: CellDescriptor, c: PanelConfig)
    requires
        d.cmd@.len() > 0,
    ensures
        element_of(d, c).is_clickable(),
        element_of(d, c) matches GridElement::Trigger { cmd, args, is_toggle, .. }
            && cmd == d.cmd && args == d.args && is_toggle == d.is_toggle,
{
}

} // verus!
