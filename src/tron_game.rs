use vstd::prelude::*;

use crate::game_trait::{ExitGame, GameLogic, InitGame};

verus! {

/// Width of the window, in pixels.
pub const SCREEN_WIDTH: i32 = 800;

/// Height of the window, in pixels.
pub const SCREEN_HEIGHT: i32 = 450;

/// Radius of the circle that draws the player, in pixels.
pub const PLAYER_CIRCLE_RADIUS: i32 = 10;

/// Radius of the sector that draws the player's vision, in pixels.
pub const PLAYER_VISION_CIRCLE_RADIUS: i32 = 40;

/// Distance the player moves in one frame while a direction key is held.
pub const PLAYER_MOVING_VELOCITY: i32 = 5;

/// The way the player last moved, which is the way it looks.
#[derive(Clone, Copy, Debug, PartialEq, Eq, Structural)]
pub enum VisionDirection {
    /// The player has not moved yet.
    Unknown,
    East,
    South,
    West,
    North,
}

/// The start and end angles, in degrees, of the sector drawn as the vision
/// for each direction; no sector is drawn before the first move.
pub open spec fn vision_arc_of(d: VisionDirection) -> Option<(i32, i32)> {
    match d {
        VisionDirection::Unknown => None,
        VisionDirection::East => Some((120, 60)),
        VisionDirection::South => Some((30, -30 as i32)),
        VisionDirection::West => Some((-120 as i32, -60 as i32)),
        VisionDirection::North => Some((150, 210)),
    }
}

impl VisionDirection {
    /// Angles of the vision sector for this direction, if one is drawn.
    pub fn vision_arc(&self) -> (r: Option<(i32, i32)>)
        ensures
            r == vision_arc_of(*self),
    {
        match self {
            VisionDirection::Unknown => None,
            VisionDirection::East => Some((120, 60)),
            VisionDirection::South => Some((30, -30)),
            VisionDirection::West => Some((-120, -60)),
            VisionDirection::North => Some((150, 210)),
        }
    }
}

/// Which of the movement keys are held during a frame. The keys follow vim:
/// `h` left, `l` right, `k` up, `j` down.
#[derive(Clone, Copy, Debug, PartialEq, Eq, Structural)]
pub struct KeysDown {
    pub left: bool,
    pub right: bool,
    pub up: bool,
    pub down: bool,
}

impl KeysDown {
    /// The direction a frame with these keys moves the player in. When
    /// several keys are held, left wins over right, right over up and up over
    /// down; `Unknown` means that no movement key is held.
    pub open spec fn spec_direction(self) -> VisionDirection {
        if self.left {
            VisionDirection::West
        } else if self.right {
            VisionDirection::East
        } else if self.up {
            VisionDirection::North
        } else if self.down {
            VisionDirection::South
        } else {
            VisionDirection::Unknown
        }
    }

    /// No movement key held.
    pub fn none() -> (r: KeysDown)
        ensures
            r.spec_direction() == VisionDirection::Unknown,
            !r.left && !r.right && !r.up && !r.down,
    {
        KeysDown { left: false, right: false, up: false, down: false }
    }
}

/// `v` limited to the range `lo ..= hi`.
pub open spec fn clamp(v: int, lo: int, hi: int) -> int {
    if v < lo {
        lo
    } else if v > hi {
        hi
    } else {
        v
    }
}

/// The player's centre and the way it looks.
pub struct PlayerModel {
    pub x: int,
    pub y: int,
    pub vision: VisionDirection,
}

impl PlayerModel {
    /// The whole circle of the player lies inside the window.
    pub open spec fn in_window(self) -> bool {
        &&& PLAYER_CIRCLE_RADIUS <= self.x <= SCREEN_WIDTH - PLAYER_CIRCLE_RADIUS
        &&& PLAYER_CIRCLE_RADIUS <= self.y <= SCREEN_HEIGHT - PLAYER_CIRCLE_RADIUS
    }

    /// The player at the centre of the window, before any move.
    pub open spec fn start() -> PlayerModel {
        PlayerModel {
            x: SCREEN_WIDTH / 2,
            y: SCREEN_HEIGHT / 2,
            vision: VisionDirection::Unknown,
        }
    }

    /// One frame with `keys` held: the player moves one step in the held
    /// direction, stopping at the window's edge, and looks that way. With no
    /// movement key held nothing changes.
    pub open spec fn step(self, keys: KeysDown) -> PlayerModel {
        let d = keys.spec_direction();
        let v = PLAYER_MOVING_VELOCITY as int;
        let (dx, dy) = match d {
            VisionDirection::East => (v, 0int),
            VisionDirection::West => (-v, 0int),
            VisionDirection::North => (0int, -v),
            VisionDirection::South => (0int, v),
            VisionDirection::Unknown => (0int, 0int),
        };
        if d == VisionDirection::Unknown {
            self
        } else {
            PlayerModel {
                x: clamp(
                    self.x + dx,
                    PLAYER_CIRCLE_RADIUS as int,
                    SCREEN_WIDTH - PLAYER_CIRCLE_RADIUS,
                ),
                y: clamp(
                    self.y + dy,
                    PLAYER_CIRCLE_RADIUS as int,
                    SCREEN_HEIGHT - PLAYER_CIRCLE_RADIUS,
                ),
                vision: d,
            }
        }
    }

    /// The player after one frame for each entry of `frames`, in order.
    pub open spec fn after(self, frames: Seq<KeysDown>) -> PlayerModel
        decreases frames.len(),
    {
        if frames.len() == 0 {
            self
        } else {
            self.step(frames[0]).after(frames.drop_first())
        }
    }
}

/// The player of the Tron game. Its circle always lies inside the window.
pub struct Player {
    x: i32,
    y: i32,
    vision_direction: VisionDirection,
}

impl View for Player {
    type V = PlayerModel;

    closed spec fn view(&self) -> PlayerModel {
        PlayerModel { x: self.x as int, y: self.y as int, vision: self.vision_direction }
    }
}

impl Player {
    #[verifier::type_invariant]
    spec fn inside_window(self) -> bool {
        self@.in_window()
    }

    /// A player at the centre of the window that has not moved yet.
    pub fn new() -> (r: Player)
        ensures
            r@ == PlayerModel::start(),
            r@.in_window(),
    {
        Player {
            x: SCREEN_WIDTH / 2,
            y: SCREEN_HEIGHT / 2,
            vision_direction: VisionDirection::Unknown,
        }
    }

    pub fn x(&self) -> (r: i32)
        ensures
            r == self@.x,
            self@.in_window(),
    {
        proof {
            use_type_invariant(self);
        }
        self.x
    }

    pub fn y(&self) -> (r: i32)
        ensures
            r == self@.y,
            self@.in_window(),
    {
        proof {
            use_type_invariant(self);
        }
        self.y
    }

    pub fn vision_direction(&self) -> (r: VisionDirection)
        ensures
            r == self@.vision,
    {
        self.vision_direction
    }

    /// Moves the player for one frame in which `keys` are held.
    pub fn step(&mut self, keys: KeysDown)
        ensures
            old(self)@.in_window(),
            final(self)@ == old(self)@.step(keys),
            final(self)@.in_window(),
    {
        proof {
            use_type_invariant(&*self);
        }
        if keys.left {
            let mut x = self.x - PLAYER_MOVING_VELOCITY;
            if x < PLAYER_CIRCLE_RADIUS {
                x = PLAYER_CIRCLE_RADIUS;
            }
            self.x = x;
            self.vision_direction = VisionDirection::West;
        } else if keys.right {
            let mut x = self.x + PLAYER_MOVING_VELOCITY;
            if x + PLAYER_CIRCLE_RADIUS > SCREEN_WIDTH {
                x = SCREEN_WIDTH - PLAYER_CIRCLE_RADIUS;
            }
            self.x = x;
            self.vision_direction = VisionDirection::East;
        } else if keys.up {
            let mut y = self.y - PLAYER_MOVING_VELOCITY;
            if y < PLAYER_CIRCLE_RADIUS {
                y = PLAYER_CIRCLE_RADIUS;
            }
            self.y = y;
            self.vision_direction = VisionDirection::North;
        } else if keys.down {
            let mut y = self.y + PLAYER_MOVING_VELOCITY;
            if y + PLAYER_CIRCLE_RADIUS > SCREEN_HEIGHT {
                y = SCREEN_HEIGHT - PLAYER_CIRCLE_RADIUS;
            }
            self.y = y;
            self.vision_direction = VisionDirection::South;
        }
    }

    /// Angles of the vision sector to draw around the player, if any.
    pub fn vision_arc(&self) -> (r: Option<(i32, i32)>)
        ensures
            r == vision_arc_of(self@.vision),
    {
        self.vision_direction.vision_arc()
    }
}

/// The state of the Tron game: the player, and the movement keys that the
/// window reported as held for the frame about to be played.
pub struct TronWorld {
    pub player: Player,
    pub keys: KeysDown,
}

impl InitGame for TronWorld {
    /// The player at the centre of the window, no key held.
    fn init_game() -> (r: Self)
        ensures
            r.player@ == PlayerModel::start(),
            r.keys.spec_direction() == VisionDirection::Unknown,
    {
        TronWorld { player: Player::new(), keys: KeysDown::none() }
    }
}

impl GameLogic for TronWorld {
    /// Plays one frame with the held keys.
    fn update_tick(&mut self)
        ensures
            final(self).player@ == old(self).player@.step(old(self).keys),
            final(self).player@.in_window(),
            final(self).keys == old(self).keys,
    {
        let keys = self.keys;
        self.player.step(keys);
    }
}

impl ExitGame for TronWorld {}

/// Whatever keys are held, frame after frame, the player never leaves the
/// window.
pub proof fn lemma_player_stays_in_window(p: PlayerModel, frames: Seq<KeysDown>)
    requires
        p.in_window(),
    ensures
        p.after(frames).in_window(),
    decreases frames.len(),
{
    if frames.len() > 0 {
        lemma_player_stays_in_window(p.step(frames[0]), frames.drop_first());
    }
}

/// After a run of frames, the player looks the way of the last movement key
/// held; frames with no movement key held leave the player as it was.
pub proof fn lemma_vision_follows_last_move(p: PlayerModel, frames: Seq<KeysDown>, idle: KeysDown)
    requires
        idle.spec_direction() == VisionDirection::Unknown,
    ensures
        p.step(idle) == p,
        frames.len() > 0 && frames.last().spec_direction() != VisionDirection::Unknown
            ==> p.after(frames).vision == frames.last().spec_direction(),
    decreases frames.len(),
{
    if frames.len() > 1 {
        let rest = frames.drop_first();
        assert(rest.last() == frames.last());
        lemma_vision_follows_last_move(p.step(frames[0]), rest, idle);
        assert(p.after(frames) == p.step(frames[0]).after(rest));
    } else if frames.len() == 1 {
        assert(frames.last() == frames[0]);
        assert(frames.drop_first().len() == 0);
        assert(p.after(frames) == p.step(frames[0]).after(frames.drop_first()));
    }
}

} // verus!
