//! Visualization-mode selection: the cycle of visualizer styles and their
//! stored names. The drawing code itself belongs to the render layer.

use vstd::prelude::*;

verus! {

#[derive(Debug, Clone, Copy, PartialEq, Eq, Structural)]
pub enum VisualizationMode {
    Spirograph,
    Pulse,
    Wave,
    Bounce,
    Starfield,
    Heart,
    Spiral,
    Rain,
}

impl Default for VisualizationMode {
    fn default() -> (r: Self)
        ensures
            r == VisualizationMode::Spirograph,
    {
        VisualizationMode::Spirograph
    }
}

impl VisualizationMode {
    /// The successor in the visualization cycle; eight applications return
    /// to the start.
    pub fn next(self) -> (r: Self)
        ensures
            r == self.spec_next(),
    {
        match self {
            VisualizationMode::Spirograph => VisualizationMode::Pulse,
            VisualizationMode::Pulse => VisualizationMode::Wave,
            VisualizationMode::Wave => VisualizationMode::Bounce,
            VisualizationMode::Bounce => VisualizationMode::Starfield,
            VisualizationMode::Starfield => VisualizationMode::Heart,
            VisualizationMode::Heart => VisualizationMode::Spiral,
            VisualizationMode::Spiral => VisualizationMode::Rain,
            VisualizationMode::Rain => VisualizationMode::Spirograph,
        }
    }

    pub open spec fn spec_next(self) -> Self {
        match self {
            VisualizationMode::Spirograph => VisualizationMode::Pulse,
            VisualizationMode::Pulse => VisualizationMode::Wave,
            VisualizationMode::Wave => VisualizationMode::Bounce,
            VisualizationMode::Bounce => VisualizationMode::Starfield,
            VisualizationMode::Starfield => VisualizationMode::Heart,
            VisualizationMode::Heart => VisualizationMode::Spiral,
            VisualizationMode::Spiral => VisualizationMode::Rain,
            VisualizationMode::Rain => VisualizationMode::Spirograph,
        }
    }

    /// The name under which the mode is shown and stored.
    pub fn name(self) -> (r: &'static str)
        ensures
            r@ == self.spec_name(),
    {
        proof {
            reveal_strlit("Spirograph");
            reveal_strlit("Pulse");
            reveal_strlit("Wave");
            reveal_strlit("Bounce");
            reveal_strlit("Stars");
            reveal_strlit("Heart");
            reveal_strlit("Spiral");
            reveal_strlit("Rain");
        }
        match self {
            VisualizationMode::Spirograph => "Spirograph",
            VisualizationMode::Pulse => "Pulse",
            VisualizationMode::Wave => "Wave",
            VisualizationMode::Bounce => "Bounce",
            VisualizationMode::Starfield => "Stars",
            VisualizationMode::Heart => "Heart",
            VisualizationMode::Spiral => "Spiral",
            VisualizationMode::Rain => "Rain",
        }
    }

    pub open spec fn spec_name(self) -> Seq<char> {
        match self {
            VisualizationMode::Spirograph => "Spirograph"@,
            VisualizationMode::Pulse => "Pulse"@,
            VisualizationMode::Wave => "Wave"@,
            VisualizationMode::Bounce => "Bounce"@,
            VisualizationMode::Starfield => "Stars"@,
            VisualizationMode::Heart => "Heart"@,
            VisualizationMode::Spiral => "Spiral"@,
            VisualizationMode::Rain => "Rain"@,
        }
    }
}

} // verus!
