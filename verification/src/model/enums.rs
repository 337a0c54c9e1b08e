//! The small state enumerations of the model.

use vstd::prelude::*;

verus! {

/// Progress of a requested background redraw. The draw phase answers a
/// pending request while it is in progress; the next update completes it.
#[derive(Clone, Copy, Debug, PartialEq, Eq, Structural)]
pub enum RedrawBackground {
    Pending,
    InProgress,
    Complete,
}

impl RedrawBackground {
    /// The state that follows `self`.
    pub open spec fn spec_next(&self) -> RedrawBackground {
        match self {
            RedrawBackground::Pending => RedrawBackground::InProgress,
            RedrawBackground::InProgress => RedrawBackground::Complete,
            RedrawBackground::Complete => RedrawBackground::Complete,
        }
    }

    /// Advances one step; `Complete` is final.
    pub fn next(&self) -> (r: RedrawBackground)
        ensures
            r == self.spec_next(),
    {
        match self {
            RedrawBackground::Pending => RedrawBackground::InProgress,
            RedrawBackground::InProgress => RedrawBackground::Complete,
            RedrawBackground::Complete => RedrawBackground::Complete,
        }
    }
}

/// What is painted behind the particles.
#[derive(Clone, Copy, Debug, PartialEq, Eq, Structural)]
pub enum Background {
    Black,
    White,
    Vectors,
}

impl Background {
    /// The name shown to the user.
    pub open spec fn label(&self) -> Seq<char> {
        match self {
            Background::Black => "Black"@,
            Background::White => "White"@,
            Background::Vectors => "Vector Field"@,
        }
    }

    /// The name shown to the user.
    pub fn to_string(&self) -> (s: String)
        ensures
            s@ == self.label(),
    {
        match self {
            Background::Black => "Black".to_owned(),
            Background::White => "White".to_owned(),
            Background::Vectors => "Vector Field".to_owned(),
        }
    }
}

impl Default for Background {
    fn default() -> (r: Background)
        ensures
            r == Background::Vectors,
    {
        Background::Vectors
    }
}

/// The outline a particle is drawn with. It has no effect on the simulation.
#[derive(Clone, Copy, Debug, PartialEq, Eq, Structural)]
pub enum ParticleShape {
    Circle,
    Square,
    Triangle,
    Star,
    Diamond,
}

impl ParticleShape {
    /// The name shown to the user.
    pub open spec fn label(&self) -> Seq<char> {
        match self {
            ParticleShape::Circle => "Circle"@,
            ParticleShape::Square => "Square"@,
            ParticleShape::Triangle => "Triangle"@,
            ParticleShape::Star => "Star"@,
            ParticleShape::Diamond => "Diamond"@,
        }
    }

    /// The name shown to the user.
    pub fn to_string(&self) -> (s: String)
        ensures
            s@ == self.label(),
    {
        match self {
            ParticleShape::Circle => "Circle".to_owned(),
            ParticleShape::Square => "Square".to_owned(),
            ParticleShape::Triangle => "Triangle".to_owned(),
            ParticleShape::Star => "Star".to_owned(),
            ParticleShape::Diamond => "Diamond".to_owned(),
        }
    }
}

} // verus!
