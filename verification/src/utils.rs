//! Small spawn-layout helpers.

use vstd::prelude::*;

use crate::geometry::Vec2i;

verus! {

/// The distance from the window center at which fresh meteors appear:
/// half the window height.
pub fn calculate_max_spawn_distance(window_size: Vec2i) -> (r: i64)
    requires
        0 <= window_size.y,
    ensures
        r == window_size.y / 2,
{
    window_size.y / 2
}

} // verus!
