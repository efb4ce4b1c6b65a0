//! Simulation and rendering core of a fixed-resolution 2D arcade shooter.
//!
//! The playfield is a bit-packed monochrome framebuffer split into three
//! regions (status bar, playfield, status footer).  Entities draw and erase
//! themselves with the sprite compositor in `array_sprite`, and the whole
//! game is advanced one frame at a time by the scene machine in `game`.

pub mod math;

pub mod canvas;

pub mod array_sprite;

pub mod dot_map;

pub mod top_area;

pub mod bottom_area;

pub mod sound;

pub mod alien;

pub mod input;

pub mod pause;

pub mod player;

pub mod ufo;

pub mod sprite;

pub mod game;
