pub mod collision;
pub mod gamestate;
pub mod grid;
pub mod level;
pub mod player;
pub mod race;
pub mod sound;
pub mod timer;

pub use collision::{Collider, LineBorder, RectHitbox};
pub use gamestate::{GameMode, GameState};
pub use level::{
    tile_position_flatten, Level, LevelConfig, LevelError, Levels, Rotation, Tile, TileType,
    MAP_HEIGHT, MAP_WIDTH, TILE_SIZE,
};
pub use player::Player;
pub use race::{play_level, start_level, will_drive};
pub use sound::{play_music, MusicAction, MusicParams};
pub use timer::{Countdown, Timer};
