//! Rules of a Game of Life platformer: the grid simulation, the spiral and
//! grid layouts of levels, level progress and the menu, dialogue and screen
//! transition state machines.
pub mod grid;
pub mod spiral;
pub mod life;
pub mod gol;
pub mod menu_cells;
pub mod level_progress;
pub mod transition;
pub mod navigation;
pub mod level_select;
pub mod dialogue;
pub mod flags;
pub mod anim;
pub mod player;
pub mod animations;
