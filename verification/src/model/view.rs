//! What is to be drawn in a frame.

use crate::model::enums::{Background, RedrawBackground};
use crate::model::{Model, ModelView};
use vstd::prelude::*;

verus! {

/// What the host is to draw in one frame, in this order.
#[derive(Clone, Copy, Debug, PartialEq, Eq, Structural)]
pub struct FramePlan {
    /// The background to clear to, if the frame has to clear.
    pub clear: Option<Background>,
    /// Whether the field vectors are drawn over the cleared background.
    pub draw_vectors: bool,
    /// Whether the particles are drawn.
    pub draw_particles: bool,
}

impl ModelView {
    /// The plan for a frame: while a redraw of the background is in
    /// progress the frame clears, to white under the vectors, which it then
    /// draws; the particles are drawn in every frame.
    pub open spec fn frame_plan(&self) -> FramePlan {
        if self.redraw_background == RedrawBackground::InProgress {
            match self.background {
                Background::Black => FramePlan {
                    clear: Some(Background::Black),
                    draw_vectors: false,
                    draw_particles: true,
                },
                Background::White => FramePlan {
                    clear: Some(Background::White),
                    draw_vectors: false,
                    draw_particles: true,
                },
                Background::Vectors => FramePlan {
                    clear: Some(Background::White),
                    draw_vectors: true,
                    draw_particles: true,
                },
            }
        } else {
            FramePlan { clear: None, draw_vectors: false, draw_particles: true }
        }
    }
}

/// Plans a frame. A frame follows an update, so no redraw is pending when
/// it is drawn.
pub fn view(model: &Model) -> (plan: FramePlan)
    requires
        model@.redraw_background != RedrawBackground::Pending,
    ensures
        plan == model@.frame_plan(),
{
    if model.redraw_background() == RedrawBackground::InProgress {
        match model.background() {
            Background::Black => FramePlan {
                clear: Some(Background::Black),
                draw_vectors: false,
                draw_particles: true,
            },
            Background::White => FramePlan {
                clear: Some(Background::White),
                draw_vectors: false,
                draw_particles: true,
            },
            Background::Vectors => FramePlan {
                clear: Some(Background::White),
                draw_vectors: true,
                draw_particles: true,
            },
        }
    } else {
        FramePlan { clear: None, draw_vectors: false, draw_particles: true }
    }
}

} // verus!
