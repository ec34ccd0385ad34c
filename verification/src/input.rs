use vstd::prelude::*;

verus! {

/// What a key press asks of the application.
#[derive(Clone, Copy, Debug, PartialEq, Eq, Structural)]
pub enum KeyAction {
    /// `w`: move along the viewing direction.
    Forward,
    /// `s`: move against the viewing direction.
    Backward,
    /// `a`: strafe to the left.
    Left,
    /// `d`: strafe to the right.
    Right,
    /// space: move up.
    Up,
    /// `Shift`: move down.
    Down,
    /// `e`: place a new cube in front of the camera.
    SpawnCube,
    /// Any other key: nothing happens.
    Ignore,
}

/// The camera axis along which a movement key moves the camera.
#[derive(Clone, Copy, Debug, PartialEq, Eq, Structural)]
pub enum Axis {
    /// The viewing direction (`front`).
    Front,
    /// The normalised cross product of `front` and `up`: the camera's right-hand side.
    Side,
    /// The camera's `up` vector.
    Up,
}

/// Whether the camera moves along an axis or against it.
#[derive(Clone, Copy, Debug, PartialEq, Eq, Structural)]
pub enum Direction {
    Along,
    Against,
}

/// One movement of the camera by the fixed camera speed.
#[derive(Clone, Copy, Debug, PartialEq, Eq, Structural)]
pub struct CameraStep {
    pub axis: Axis,
    pub direction: Direction,
}

/// The action bound to the key whose name (as the browser reports it) is `key`.
pub open spec fn spec_key_action(key: Seq<char>) -> KeyAction {
    if key == seq!['w'] {
        KeyAction::Forward
    } else if key == seq!['s'] {
        KeyAction::Backward
    } else if key == seq!['a'] {
        KeyAction::Left
    } else if key == seq!['d'] {
        KeyAction::Right
    } else if key == seq![' '] {
        KeyAction::Up
    } else if key == seq!['S', 'h', 'i', 'f', 't'] {
        KeyAction::Down
    } else if key == seq!['e'] {
        KeyAction::SpawnCube
    } else {
        KeyAction::Ignore
    }
}

/// The opposite direction.
pub open spec fn spec_reverse(d: Direction) -> Direction {
    match d {
        Direction::Along => Direction::Against,
        Direction::Against => Direction::Along,
    }
}

impl KeyAction {
    /// The camera movement of this action, if it is a movement.
    pub open spec fn spec_camera_step(self) -> Option<CameraStep> {
        match self {
            KeyAction::Forward => Some(CameraStep { axis: Axis::Front, direction: Direction::Along }),
            KeyAction::Backward => Some(CameraStep { axis: Axis::Front, direction: Direction::Against }),
            KeyAction::Left => Some(CameraStep { axis: Axis::Side, direction: Direction::Against }),
            KeyAction::Right => Some(CameraStep { axis: Axis::Side, direction: Direction::Along }),
            KeyAction::Up => Some(CameraStep { axis: Axis::Up, direction: Direction::Along }),
            KeyAction::Down => Some(CameraStep { axis: Axis::Up, direction: Direction::Against }),
            KeyAction::SpawnCube => None,
            KeyAction::Ignore => None,
        }
    }

    /// The camera movement of this action: `None` for spawning a cube and for
    /// keys that do nothing.
    pub fn camera_step(self) -> (step: Option<CameraStep>)
        ensures
            step == self.spec_camera_step(),
    {
        match self {
            KeyAction::Forward => Some(CameraStep { axis: Axis::Front, direction: Direction::Along }),
            KeyAction::Backward => Some(CameraStep { axis: Axis::Front, direction: Direction::Against }),
            KeyAction::Left => Some(CameraStep { axis: Axis::Side, direction: Direction::Against }),
            KeyAction::Right => Some(CameraStep { axis: Axis::Side, direction: Direction::Along }),
            KeyAction::Up => Some(CameraStep { axis: Axis::Up, direction: Direction::Along }),
            KeyAction::Down => Some(CameraStep { axis: Axis::Up, direction: Direction::Against }),
            KeyAction::SpawnCube => None,
            KeyAction::Ignore => None,
        }
    }
}

/// Maps the name of a pressed key to its action: `w`/`s` move along the viewing
/// direction, `a`/`d` strafe, space and `Shift` move up and down, `e` places a
/// cube, and every other key is ignored.
pub fn key_action(key: &str) -> (action: KeyAction)
    ensures
        action == spec_key_action(key@),
        (action == KeyAction::Forward) <==> key@ == seq!['w'],
        (action == KeyAction::Backward) <==> key@ == seq!['s'],
        (action == KeyAction::Left) <==> key@ == seq!['a'],
        (action == KeyAction::Right) <==> key@ == seq!['d'],
        (action == KeyAction::Up) <==> key@ == seq![' '],
        (action == KeyAction::Down) <==> key@ == seq!['S', 'h', 'i', 'f', 't'],
        (action == KeyAction::SpawnCube) <==> key@ == seq!['e'],
        (action == KeyAction::Ignore) <==> !(key@ == seq!['w'] || key@ == seq!['s']
            || key@ == seq!['a'] || key@ == seq!['d'] || key@ == seq![' ']
            || key@ == seq!['S', 'h', 'i', 'f', 't'] || key@ == seq!['e']),
{
    proof {
        key_bindings(key@);
    }
    let n = key.unicode_len();
    if n == 1 {
        let c = key.get_char(0);
        assert(key@ =~= seq![c]);
        if c == 'w' {
            KeyAction::Forward
        } else if c == 's' {
            KeyAction::Backward
        } else if c == 'a' {
            KeyAction::Left
        } else if c == 'd' {
            KeyAction::Right
        } else if c == ' ' {
            KeyAction::Up
        } else if c == 'e' {
            KeyAction::SpawnCube
        } else {
            KeyAction::Ignore
        }
    } else if n == 5 {
        let c0 = key.get_char(0);
        let c1 = key.get_char(1);
        let c2 = key.get_char(2);
        let c3 = key.get_char(3);
        let c4 = key.get_char(4);
        assert(key@ =~= seq![c0, c1, c2, c3, c4]);
        if c0 == 'S' && c1 == 'h' && c2 == 'i' && c3 == 'f' && c4 == 't' {
            KeyAction::Down
        } else {
            proof {
                if key@ == seq!['S', 'h', 'i', 'f', 't'] {
                    assert(key@[0] == 'S' && key@[1] == 'h' && key@[2] == 'i' && key@[3] == 'f' && key@[4] == 't');
                }
            }
            KeyAction::Ignore
        }
    } else {
        proof {
            assert(seq!['w'].len() == 1);
            assert(seq!['S', 'h', 'i', 'f', 't'].len() == 5);
        }
        KeyAction::Ignore
    }
}

/// Each of the seven bound keys has its own action, and no other key name
/// does anything: `w`, `s`, `a`, `d`, space, `Shift` and `e` are the only keys
/// that give Forward, Backward, Left, Right, Up, Down and SpawnCube
/// respectively, and every other key name gives Ignore.
pub proof fn key_bindings(key: Seq<char>)
    ensures
        (spec_key_action(key) == KeyAction::Forward) <==> key == seq!['w'],
        (spec_key_action(key) == KeyAction::Backward) <==> key == seq!['s'],
        (spec_key_action(key) == KeyAction::Left) <==> key == seq!['a'],
        (spec_key_action(key) == KeyAction::Right) <==> key == seq!['d'],
        (spec_key_action(key) == KeyAction::Up) <==> key == seq![' '],
        (spec_key_action(key) == KeyAction::Down) <==> key == seq!['S', 'h', 'i', 'f', 't'],
        (spec_key_action(key) == KeyAction::SpawnCube) <==> key == seq!['e'],
        (spec_key_action(key) == KeyAction::Ignore) <==> !(key == seq!['w'] || key == seq!['s']
            || key == seq!['a'] || key == seq!['d'] || key == seq![' ']
            || key == seq!['S', 'h', 'i', 'f', 't'] || key == seq!['e']),
{
    assert(seq!['w'][0] == 'w');
    assert(seq!['s'][0] == 's');
    assert(seq!['a'][0] == 'a');
    assert(seq!['d'][0] == 'd');
    assert(seq![' '][0] == ' ');
    assert(seq!['e'][0] == 'e');
    assert(seq!['S', 'h', 'i', 'f', 't'].len() == 5);
    assert(seq!['w'].len() == 1);
}

/// Whether a mouse movement turns the camera: only while the left button, and no
/// other, is held (the event's `buttons` bit mask is exactly 1).
pub fn mouse_look_active(buttons: u16) -> (active: bool)
    ensures
        active == (buttons == 1),
{
    buttons == 1
}

/// Every movement key has a counterpart that moves the camera by the same
/// amount along the same axis in the opposite direction, so the two presses
/// cancel out.
pub proof fn movement_keys_have_opposites(action: KeyAction)
    requires
        action.spec_camera_step() is Some,
    ensures
        exists|other: KeyAction|
            #[trigger] other.spec_camera_step() == Some(
                CameraStep {
                    axis: action.spec_camera_step().unwrap().axis,
                    direction: spec_reverse(action.spec_camera_step().unwrap().direction),
                },
            ),
{
    let other = match action {
        KeyAction::Forward => KeyAction::Backward,
        KeyAction::Backward => KeyAction::Forward,
        KeyAction::Left => KeyAction::Right,
        KeyAction::Right => KeyAction::Left,
        KeyAction::Up => KeyAction::Down,
        _ => KeyAction::Up,
    };
    assert(other.spec_camera_step() == Some(
        CameraStep {
            axis: action.spec_camera_step().unwrap().axis,
            direction: spec_reverse(action.spec_camera_step().unwrap().direction),
        },
    ));
}

} // verus!
