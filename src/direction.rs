use vstd::prelude::*;

verus! {

/// The eight directions a character can face, each with a `move-` and a
/// `stand-` animation.
#[derive(Clone, Copy, PartialEq, Eq, Structural, Debug)]
pub enum Facing {
    UpLeft,
    DownLeft,
    Left,
    UpRight,
    DownRight,
    Right,
    Up,
    Down,
}

/// A movement vector component along a diagonal, in hundredths.
pub const DIAGONAL: i32 = 71;

/// A movement vector component along an axis, in hundredths.
pub const STRAIGHT: i32 = 100;

/// What the pressed keys ask for: a facing, if any key is pressed, and a
/// movement vector in hundredths of a unit (x to the right, y upwards).
#[derive(Clone, Copy, PartialEq, Eq, Structural, Debug)]
pub struct MoveIntent {
    pub facing: Option<Facing>,
    pub dx: i32,
    pub dy: i32,
}

pub open spec fn intent(facing: Option<Facing>, dx: int, dy: int) -> MoveIntent {
    MoveIntent { facing, dx: dx as i32, dy: dy as i32 }
}

/// Diagonals before single axes, and left before right.
pub open spec fn spec_resolve(left: bool, up: bool, right: bool, down: bool) -> MoveIntent {
    if left && up {
        intent(Some(Facing::UpLeft), -(DIAGONAL as int), (DIAGONAL as int))
    } else if left && down {
        intent(Some(Facing::DownLeft), -(DIAGONAL as int), -(DIAGONAL as int))
    } else if left {
        intent(Some(Facing::Left), -(STRAIGHT as int), 0)
    } else if right && up {
        intent(Some(Facing::UpRight), (DIAGONAL as int), (DIAGONAL as int))
    } else if right && down {
        intent(Some(Facing::DownRight), (DIAGONAL as int), -(DIAGONAL as int))
    } else if right {
        intent(Some(Facing::Right), (STRAIGHT as int), 0)
    } else if up {
        intent(Some(Facing::Up), 0, (STRAIGHT as int))
    } else if down {
        intent(Some(Facing::Down), 0, -(STRAIGHT as int))
    } else {
        intent(None, 0, 0)
    }
}

/// Maps the four movement keys to a facing and a movement vector.
pub fn resolve_direction(left: bool, up: bool, right: bool, down: bool) -> (r: MoveIntent)
    ensures
        r == spec_resolve(left, up, right, down),
{
    if left {
        if up {
            MoveIntent { facing: Some(Facing::UpLeft), dx: -DIAGONAL, dy: DIAGONAL }
        } else if down {
            MoveIntent { facing: Some(Facing::DownLeft), dx: -DIAGONAL, dy: -DIAGONAL }
        } else {
            MoveIntent { facing: Some(Facing::Left), dx: -STRAIGHT, dy: 0 }
        }
    } else if right {
        if up {
            MoveIntent { facing: Some(Facing::UpRight), dx: DIAGONAL, dy: DIAGONAL }
        } else if down {
            MoveIntent { facing: Some(Facing::DownRight), dx: DIAGONAL, dy: -DIAGONAL }
        } else {
            MoveIntent { facing: Some(Facing::Right), dx: STRAIGHT, dy: 0 }
        }
    } else if up {
        MoveIntent { facing: Some(Facing::Up), dx: 0, dy: STRAIGHT }
    } else if down {
        MoveIntent { facing: Some(Facing::Down), dx: 0, dy: -STRAIGHT }
    } else {
        MoveIntent { facing: None, dx: 0, dy: 0 }
    }
}

/// The name of the animation that shows a move in a direction.
pub open spec fn move_name(f: Facing) -> Seq<char> {
    match f {
        Facing::UpLeft => "move-up-left"@,
        Facing::DownLeft => "move-down-left"@,
        Facing::Left => "move-left"@,
        Facing::UpRight => "move-up-right"@,
        Facing::DownRight => "move-down-right"@,
        Facing::Right => "move-right"@,
        Facing::Up => "move-up"@,
        Facing::Down => "move-down"@,
    }
}

impl Facing {
    /// The name of the animation that shows a move in this direction.
    pub fn move_state(&self) -> (r: String)
        ensures
            r@ == move_name(*self),
    {
        match self {
            Facing::UpLeft => String::from_str("move-up-left"),
            Facing::DownLeft => String::from_str("move-down-left"),
            Facing::Left => String::from_str("move-left"),
            Facing::UpRight => String::from_str("move-up-right"),
            Facing::DownRight => String::from_str("move-down-right"),
            Facing::Right => String::from_str("move-right"),
            Facing::Up => String::from_str("move-up"),
            Facing::Down => String::from_str("move-down"),
        }
    }
}

/// A state name that starts with `move`.
pub open spec fn is_move_state(s: Seq<char>) -> bool {
    s.len() >= 4 && s.subrange(0, 4) == "move"@
}

/// The standing state for a moving one: `move` replaced by `stand`, so that
/// the last facing is kept.
pub open spec fn stand_name(s: Seq<char>) -> Seq<char> {
    "stand"@ + s.subrange(4, s.len() as int)
}

/// The standing state that follows a moving state once no key is pressed.
pub fn stand_state_for(current: &String) -> (r: Option<String>)
    ensures
        match r {
            Some(s) => is_move_state(current@) && s@ == stand_name(current@),
            None => !is_move_state(current@),
        },
{
    let s = current.as_str();
    let len = s.unicode_len();
    if len < 4 {
        return None;
    }
    let head = String::from_str(s.substring_char(0, 4));
    let prefix = String::from_str("move");
    if head == prefix {
        let stand = String::from_str("stand");
        Some(stand.concat(s.substring_char(4, len)))
    } else {
        None
    }
}

/// The state that the animator is asked to enter: the move in the pressed
/// direction where it differs from the current state, or, with no key pressed,
/// the standing state for a moving one.
pub open spec fn spec_requested_state(current: Seq<char>, facing: Option<Facing>) -> Option<Seq<char>> {
    match facing {
        Some(f) => if current == move_name(f) {
            None
        } else {
            Some(move_name(f))
        },
        None => if is_move_state(current) {
            Some(stand_name(current))
        } else {
            None
        },
    }
}

/// The state that the animator is asked to enter, if any, given the current
/// state and the facing that the keys ask for.
pub fn requested_state(current: &String, facing: Option<Facing>) -> (r: Option<String>)
    ensures
        match r {
            Some(s) => spec_requested_state(current@, facing) == Some(s@),
            None => spec_requested_state(current@, facing) is None,
        },
{
    match facing {
        Some(f) => {
            let name = f.move_state();
            if name == *current {
                None
            } else {
                Some(name)
            }
        },
        None => stand_state_for(current),
    }
}

} // verus!
