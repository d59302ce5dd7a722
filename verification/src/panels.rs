//! The overlay panels and their visibility.
//!
//! Each panel is shown or hidden on its own; the only transition is a toggle.
//! Panels are drawn in a fixed stacking order, hidden ones left out.

use vstd::prelude::*;
use crate::settings::WindowSettings;

verus! {

/// An overlay panel.
#[derive(Clone, Copy, Debug, PartialEq, Eq, Structural)]
pub enum Panel {
    /// The bar of zoom and toggle buttons.
    ActionBar,
    /// Frame statistics.
    Debug,
    /// Facts about the image.
    Metadata,
    /// The sample window.
    Example,
}

impl Panel {
    /// The panel's place in the stacking order, the first drawn being 0.
    pub open spec fn layer(self) -> int {
        match self {
            Panel::ActionBar => 0,
            Panel::Debug => 1,
            Panel::Metadata => 2,
            Panel::Example => 3,
        }
    }

    /// The place after which the panels that follow `after` begin; before
    /// the first panel where `after` is `None`.
    pub open spec fn layer_of(after: Option<Panel>) -> int {
        match after {
            Some(panel) => panel.layer(),
            None => -1,
        }
    }

    /// The panel drawn directly after this one, hidden or not.
    pub fn successor(self) -> (next: Option<Panel>)
        ensures
            next matches Some(n) ==> n.layer() == self.layer() + 1,
            next is None <==> self.layer() == 3,
    {
        match self {
            Panel::ActionBar => Some(Panel::Debug),
            Panel::Debug => Some(Panel::Metadata),
            Panel::Metadata => Some(Panel::Example),
            Panel::Example => None,
        }
    }
}

/// Which panels are shown.
#[derive(Clone, Copy, Debug, PartialEq, Eq, Structural)]
pub struct PanelFlags {
    pub debug: bool,
    pub example: bool,
    pub metadata: bool,
    pub action_bar: bool,
}

impl PanelFlags {
    /// The panel is shown.
    pub open spec fn shows(self, panel: Panel) -> bool {
        match panel {
            Panel::ActionBar => self.action_bar,
            Panel::Debug => self.debug,
            Panel::Metadata => self.metadata,
            Panel::Example => self.example,
        }
    }

    /// The flags with the one of `panel` inverted.
    pub open spec fn toggled(self, panel: Panel) -> PanelFlags {
        match panel {
            Panel::ActionBar => PanelFlags { action_bar: !self.action_bar, ..self },
            Panel::Debug => PanelFlags { debug: !self.debug, ..self },
            Panel::Metadata => PanelFlags { metadata: !self.metadata, ..self },
            Panel::Example => PanelFlags { example: !self.example, ..self },
        }
    }

    /// The first panel in the stacking order that lies after `layer` and is
    /// shown.
    pub open spec fn first_shown_after(self, layer: int) -> Option<Panel> {
        if layer < Panel::ActionBar.layer() && self.action_bar {
            Some(Panel::ActionBar)
        } else if layer < Panel::Debug.layer() && self.debug {
            Some(Panel::Debug)
        } else if layer < Panel::Metadata.layer() && self.metadata {
            Some(Panel::Metadata)
        } else if layer < Panel::Example.layer() && self.example {
            Some(Panel::Example)
        } else {
            None
        }
    }

    /// The flags at start up: the action bar is always shown, the sample
    /// window never, the other two as the settings say.
    pub open spec fn at_start() -> PanelFlags {
        PanelFlags {
            debug: WindowSettings::DEBUG_MENU_OPEN,
            example: false,
            metadata: WindowSettings::METADATA_MENU_OPEN,
            action_bar: true,
        }
    }

    /// The flags at start up.
    pub fn new() -> (flags: PanelFlags)
        ensures
            flags == PanelFlags::at_start(),
    {
        PanelFlags {
            debug: WindowSettings::DEBUG_MENU_OPEN,
            example: false,
            metadata: WindowSettings::METADATA_MENU_OPEN,
            action_bar: true,
        }
    }

    /// Decides `shows`.
    pub fn is_shown(&self, panel: Panel) -> (r: bool)
        ensures
            r == self.shows(panel),
    {
        match panel {
            Panel::ActionBar => self.action_bar,
            Panel::Debug => self.debug,
            Panel::Metadata => self.metadata,
            Panel::Example => self.example,
        }
    }

    /// Shows `panel` if it was hidden, hides it if it was shown.
    pub fn toggle(&mut self, panel: Panel)
        ensures
            *final(self) == old(self).toggled(panel),
    {
        match panel {
            Panel::ActionBar => {
                self.action_bar = !self.action_bar;
            },
            Panel::Debug => {
                self.debug = !self.debug;
            },
            Panel::Metadata => {
                self.metadata = !self.metadata;
            },
            Panel::Example => {
                self.example = !self.example;
            },
        }
    }

    /// The next panel to draw after `after`, or the first one where `after`
    /// is `None`: the first shown panel that follows in the stacking order.
    /// `None` when no shown panel follows.
    pub fn next_visible(&self, after: Option<Panel>) -> (next: Option<Panel>)
        ensures
            next == self.first_shown_after(Panel::layer_of(after)),
    {
        let mut candidate = match after {
            Some(panel) => panel.successor(),
            None => Some(Panel::ActionBar),
        };
        loop
            invariant
                self.first_shown_after(Panel::layer_of(after)) == (match candidate {
                    Some(c) => self.first_shown_after(c.layer() - 1),
                    None => None,
                }),
            decreases
                    (match candidate {
                        Some(c) => 4 - c.layer(),
                        None => 0,
                    }),
        {
            match candidate {
                Some(panel) => {
                    if self.is_shown(panel) {
                        return Some(panel);
                    }
                    candidate = panel.successor();
                },
                None => {
                    return None;
                },
            }
        }
    }
}

/// The first shown panel after a layer is shown, lies after the layer, and
/// no shown panel lies between; there is none only where no panel after the
/// layer is shown.
pub proof fn lemma_first_shown(flags: PanelFlags, layer: int)
    ensures
        flags.first_shown_after(layer) matches Some(n) ==> flags.shows(n) && layer < n.layer(),
        forall|p: Panel|
            layer < #[trigger] p.layer() && flags.shows(p) ==> flags.first_shown_after(layer)
                is Some && flags.first_shown_after(layer)->0.layer() <= p.layer(),
{
}

/// Toggling a panel twice leaves every flag as it was.
pub proof fn lemma_toggle_twice(flags: PanelFlags, panel: Panel)
    ensures
        flags.toggled(panel).toggled(panel) == flags,
{
}

/// A toggle inverts the flag of its panel and leaves the other panels alone.
pub proof fn lemma_toggle_one(flags: PanelFlags, panel: Panel, other: Panel)
    ensures
        flags.toggled(panel).shows(other) == (if other == panel {
            !flags.shows(other)
        } else {
            flags.shows(other)
        }),
{
}

/// Toggles of different panels can be made in either order.
pub proof fn lemma_toggles_commute(flags: PanelFlags, a: Panel, b: Panel)
    ensures
        flags.toggled(a).toggled(b) == flags.toggled(b).toggled(a),
{
}

} // verus!
