//! Compass directions on the ground plane and their integer movement vectors.

use vstd::prelude::*;

verus! {

/// An integer vector on the ground plane. Movement input is built by summing
/// the per-key unit vectors, so every component stays within `-2 ..= 2`.
#[derive(Clone, Copy, Debug, PartialEq, Eq, Structural)]
pub struct Vec3i {
    pub x: i8,
    pub y: i8,
    pub z: i8,
}

impl Vec3i {
    pub open spec fn spec_zero() -> Vec3i {
        Vec3i { x: 0i8, y: 0i8, z: 0i8 }
    }

    pub fn zero() -> (v: Vec3i)
        ensures
            v == Vec3i::spec_zero(),
    {
        Vec3i { x: 0, y: 0, z: 0 }
    }
}

/// The eight directions a creature can face.
#[derive(Clone, Copy, Debug, PartialEq, Eq, Structural)]
pub enum Direction {
    Up,
    UpRight,
    Right,
    DownRight,
    Down,
    DownLeft,
    Left,
    UpLeft,
}

impl Direction {
    /// The movement vector of this direction, in the map's skewed ground basis.
    pub open spec fn spec_vec3(self) -> Vec3i {
        match self {
            Direction::Up => Vec3i { x: 1i8, y: 0i8, z: 1i8 },
            Direction::UpRight => Vec3i { x: 0i8, y: 0i8, z: 1i8 },
            Direction::Right => Vec3i { x: -1i8, y: 0i8, z: 1i8 },
            Direction::DownRight => Vec3i { x: -1i8, y: 0i8, z: 0i8 },
            Direction::Down => Vec3i { x: -1i8, y: 0i8, z: -1i8 },
            Direction::DownLeft => Vec3i { x: 0i8, y: 0i8, z: -1i8 },
            Direction::Left => Vec3i { x: 1i8, y: 0i8, z: -1i8 },
            Direction::UpLeft => Vec3i { x: 1i8, y: 0i8, z: 0i8 },
        }
    }

    pub fn get_vec3(&self) -> (v: Vec3i)
        ensures
            v == self.spec_vec3(),
    {
        match self {
            Direction::Up => Vec3i { x: 1, y: 0, z: 1 },
            Direction::UpRight => Vec3i { x: 0, y: 0, z: 1 },
            Direction::Right => Vec3i { x: -1, y: 0, z: 1 },
            Direction::DownRight => Vec3i { x: -1, y: 0, z: 0 },
            Direction::Down => Vec3i { x: -1, y: 0, z: -1 },
            Direction::DownLeft => Vec3i { x: 0, y: 0, z: -1 },
            Direction::Left => Vec3i { x: 1, y: 0, z: -1 },
            Direction::UpLeft => Vec3i { x: 1, y: 0, z: 0 },
        }
    }
}

/// The direction a movement vector maps to, or `None` when the vector points
/// nowhere the mapping covers (each nonzero component must reach magnitude 1
/// or 2).
pub open spec fn spec_direction_of(vec: Vec3i) -> Option<Direction> {
    if vec.x == 0 {
        if vec.z == 1 || vec.z == 2 {
            Some(Direction::UpRight)
        } else if vec.z == -1 || vec.z == -2 {
            Some(Direction::DownLeft)
        } else {
            None
        }
    } else if vec.x == 1 || vec.x == 2 {
        if vec.z == 1 || vec.z == 2 {
            Some(Direction::Up)
        } else if vec.z == -1 || vec.z == -2 {
            Some(Direction::Left)
        } else if vec.z == 0 {
            Some(Direction::UpLeft)
        } else {
            None
        }
    } else if vec.x == -1 || vec.x == -2 {
        if vec.z == 1 || vec.z == 2 {
            Some(Direction::Right)
        } else if vec.z == -1 || vec.z == -2 {
            Some(Direction::Down)
        } else if vec.z == 0 {
            Some(Direction::DownRight)
        } else {
            None
        }
    } else {
        None
    }
}

/// Maps a summed movement vector to the direction the creature should face.
pub fn map_vec3_to_direction(vec: Vec3i) -> (r: Result<Direction, String>)
    ensures
        match r {
            Ok(d) => spec_direction_of(vec) == Some(d),
            Err(e) => spec_direction_of(vec) is None && e@ == "vector_direction not equals to 1 or 2"@,
        },
{
    match vec.x {
        0 => match vec.z {
            1 | 2 => Ok(Direction::UpRight),
            -1 | -2 => Ok(Direction::DownLeft),
            _ => Err(String::from_str("vector_direction not equals to 1 or 2")),
        },
        1 | 2 => match vec.z {
            1 | 2 => Ok(Direction::Up),
            -1 | -2 => Ok(Direction::Left),
            0 => Ok(Direction::UpLeft),
            _ => Err(String::from_str("vector_direction not equals to 1 or 2")),
        },
        -1 | -2 => match vec.z {
            1 | 2 => Ok(Direction::Right),
            -1 | -2 => Ok(Direction::Down),
            0 => Ok(Direction::DownRight),
            _ => Err(String::from_str("vector_direction not equals to 1 or 2")),
        },
        _ => Err(String::from_str("vector_direction not equals to 1 or 2")),
    }
}

/// The direction of a vector known to map to one; movement input vectors
/// always do.
pub fn map_vec3_to_direction_total(vec: Vec3i) -> (d: Direction)
    requires
        spec_direction_of(vec) is Some,
    ensures
        Some(d) == spec_direction_of(vec),
{
    match map_vec3_to_direction(vec) {
        Ok(d) => d,
        Err(_) => {
            proof {
                assert(false);
            }
            Direction::Up
        },
    }
}

} // verus!
