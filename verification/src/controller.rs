//! The collapse/expand controller: a two-state machine over the auxiliary
//! shadow region and its toggle trigger. Each activation flips the state and
//! yields the three derived values — shadow width, grid width and trigger
//! label — that must be applied together, never partially.

use vstd::prelude::*;
use crate::config::PanelConfig;

verus! {

/// The two controller states. The panel always starts `Collapsed`; nothing
/// is persisted across runs.
pub enum PanelState {
    Collapsed,
    Expanded,
}

/// The three values one activation applies atomically.
pub struct ShadowView {
    /// Width of the shadow region.
    pub shadow_width: i32,
    /// Width of the button grid; shrinks while expanded so the overall panel
    /// footprint stays constant.
    pub grid_width: i32,
    /// Text of the toggle trigger.
    pub label: &'static str,
}

/// The state an activation moves to.
pub open spec fn flipped(s: PanelState) -> PanelState {
    match s {
        PanelState::Collapsed => PanelState::Expanded,
        PanelState::Expanded => PanelState::Collapsed,
    }
}

/// The controller. It owns the two configuration-derived sizing constants it
/// shares with the grid binder, and the current state, which only its own
/// trigger's activation mutates.
pub struct CollapseController {
    pub shadow_width: i32,
    pub grid_width: i32,
    pub state: PanelState,
}

impl CollapseController {
    /// The sizing constants admit the expanded grid width without overflow.
    pub open spec fn wf(&self) -> bool {
        i32::MIN <= self.grid_width + self.shadow_width - crate::EXPANDED_SHADOW_WIDTH
            <= i32::MAX
    }

    /// The shadow width the current state derives: the configured width while
    /// collapsed, the fixed larger constant while expanded.
    pub open spec fn spec_shadow_width(&self) -> int {
        match self.state {
            PanelState::Collapsed => self.shadow_width as int,
            PanelState::Expanded => crate::EXPANDED_SHADOW_WIDTH as int,
        }
    }

    /// The grid width the current state derives: while expanded, the nominal
    /// width is reduced by exactly what the shadow region grew.
    pub open spec fn spec_grid_width(&self) -> int {
        match self.state {
            PanelState::Collapsed => self.grid_width as int,
            PanelState::Expanded =>
                self.grid_width + self.shadow_width - crate::EXPANDED_SHADOW_WIDTH,
        }
    }

    /// The toggle trigger's text in the current state.
    pub open spec fn spec_label(&self) -> Seq<char> {
        match self.state {
            PanelState::Collapsed => "<<"@,
            PanelState::Expanded => ">>"@,
        }
    }

    /// The controller after one activation: the state flips, the sizing
    /// constants never change.
    pub open spec fn spec_activate(&self) -> CollapseController {
        CollapseController { state: flipped(self.state), ..*self }
    }

    /// Builds the controller from the configuration, in the initial
    /// `Collapsed` state.
    pub fn new(c: &PanelConfig) -> (r: CollapseController)
        requires
            c.wf(),
        ensures
            r.wf(),
            r.state is Collapsed,
            r.shadow_width == c.shadow_width,
            r.grid_width == c.grid_width,
    {
        CollapseController {
            shadow_width: c.shadow_width,
            grid_width: c.grid_width,
            state: PanelState::Collapsed,
        }
    }

    /// The three derived values of the current state, as one atomic view.
    pub fn current_view(&self) -> (v: ShadowView)
        requires
            self.wf(),
        ensures
            v.shadow_width as int == self.spec_shadow_width(),
            v.grid_width as int == self.spec_grid_width(),
            v.label@ == self.spec_label(),
    {
        match self.state {
            PanelState::Collapsed => ShadowView {
                shadow_width: self.shadow_width,
                grid_width: self.grid_width,
                label: "<<",
            },
            PanelState::Expanded => {
                let wide: i64 = (self.grid_width as i64) + (self.shadow_width as i64)
                    - (crate::EXPANDED_SHADOW_WIDTH as i64);
                ShadowView {
                    shadow_width: crate::EXPANDED_SHADOW_WIDTH,
                    grid_width: wide as i32,
                    label: ">>",
                }
            },
        }
    }

    /// One activation of the toggle trigger: flips the state and returns the
    /// view to apply — all three values together.
    pub fn activate(&mut self) -> (v: ShadowView)
        requires
            old(self).wf(),
        ensures
            *final(self) == old(self).spec_activate(),
            final(self).wf(),
            v.shadow_width as int == final(self).spec_shadow_width(),
            v.grid_width as int == final(self).spec_grid_width(),
            v.label@ == final(self).spec_label(),
    {
        let next = match self.state {
            PanelState::Collapsed => PanelState::Expanded,
            PanelState::Expanded => PanelState::Collapsed,
        };
        self.state = next;
        self.current_view()
    }
}

/// Two activations starting from `Collapsed` return the controller, and with
/// it all three derived values — shadow width, grid width and trigger label —
/// to exactly their original `Collapsed` values.
pub proof fn lemma_toggle_round_trip(c: CollapseController)
    requires
        c.state is Collapsed,
    ensures
        c.spec_activate().spec_activate() == c,
        c.spec_activate().spec_activate().spec_shadow_width() == c.spec_shadow_width(),
        c.spec_activate().spec_activate().spec_grid_width() == c.spec_grid_width(),
        c.spec_activate().spec_activate().spec_label() == c.spec_label(),
{
}

} // verus!
