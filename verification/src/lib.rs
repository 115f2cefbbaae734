//! Discrete rules of a randomly generated freestyle drone course: the colour
//! palettes, the choice of landmark, cluster and obstacle kinds, the height
//! bands of circuit gates, the course-level counts, and the retry schedule
//! used to place objects.  Geometry in floating point is built around these
//! rules by the host application.

mod random;

pub mod color;
pub mod palette;
pub mod kinds;
pub mod course;
pub mod placement;
pub mod parts;
pub mod forms;
