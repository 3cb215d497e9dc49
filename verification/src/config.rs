//! The data model read from configuration: one cell descriptor per grid
//! cell, and the panel-wide sizing constants.

use vstd::prelude::*;

verus! {

/// One configuration entry. An entry with a non-empty `cmd` is an actionable
/// trigger; an entry with an empty `cmd` is a passive label. No other field
/// affects that branch.
pub struct CellDescriptor {
    /// Display text; may be empty.
    pub label: String,
    /// Optional stable identifier; carried through, never consulted.
    pub id: Option<String>,
    /// Grid column. Coordinates need not be unique: a later descriptor at the
    /// same cell occludes an earlier one.
    pub col: i32,
    /// Grid row.
    pub row: i32,
    /// Command path or name; the empty string marks a passive label.
    pub cmd: String,
    /// Arguments passed verbatim, without shell interpretation.
    pub args: Vec<String>,
    /// Selects the launch policy: supervised when true, replace otherwise.
    pub is_toggle: bool,
}

impl CellDescriptor {
    /// A descriptor is an actionable trigger exactly when its command is
    /// non-empty.
    pub open spec fn is_trigger(&self) -> bool {
        self.cmd@.len() > 0
    }

    /// Executable form of the discriminator rule.
    pub fn classify_trigger(&self) -> (r: bool)
        ensures
            r == self.is_trigger(),
    {
        self.cmd.as_str().unicode_len() > 0
    }
}

/// The panel configuration, loaded once at startup and immutable afterwards.
/// It must be fully loaded and validated before any element is created.
pub struct PanelConfig {
    /// Distance reserved from the top screen edge.
    pub margin_top: i32,
    /// Width of the collapsed auxiliary shadow region.
    pub shadow_width: i32,
    /// Nominal grid width while the panel is collapsed.
    pub grid_width: i32,
    /// Uniform width of actionable cells.
    pub button_width: i32,
    /// Uniform height of actionable cells.
    pub button_height: i32,
    /// Uniform width of passive cells.
    pub label_width: i32,
    /// Uniform height of passive cells.
    pub label_height: i32,
    /// The ordered cell descriptors.
    pub buttons: Vec<CellDescriptor>,
}

impl PanelConfig {
    /// The sizing constants let the expanded grid width be computed without
    /// overflow: `grid_width + shadow_width - EXPANDED_SHADOW_WIDTH` stays
    /// within the machine's signed 32-bit range.
    pub open spec fn wf(&self) -> bool {
        i32::MIN <= self.grid_width + self.shadow_width - crate::EXPANDED_SHADOW_WIDTH
            <= i32::MAX
    }

    /// Executable validation, run once after loading and before any element
    /// is created.
    pub fn validate(&self) -> (r: bool)
        ensures
            r == self.wf(),
    {
        let spread: i64 =
            (self.grid_width as i64) + (self.shadow_width as i64)
                - (crate::EXPANDED_SHADOW_WIDTH as i64);
        (i32::MIN as i64) <= spread && spread <= (i32::MAX as i64)
    }
}

/// The per-user configuration file path, relative to the given home
/// directory: the caller resolves the home directory, so tests can point the
/// lookup elsewhere.
pub fn config_file_path(home: &str) -> (r: String)
    ensures
        r@ == home@ + "/.config/gtk-hello/config.json"@,
{
    let p = String::from_str(home);
    p.concat("/.config/gtk-hello/config.json")
}

/// The per-user theme override path, relative to the given home directory.
/// The file is optional: a read failure is silently skipped by the caller.
pub fn style_file_path(home: &str) -> (r: String)
    ensures
        r@ == home@ + "/.config/gtk-hello/style.css"@,
{
    let p = String::from_str(home);
    p.concat("/.config/gtk-hello/style.css")
}

} // verus!
