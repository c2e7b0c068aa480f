//! Core of a terminal Mandelbrot explorer: the color scale, the escape-time
//! loop, the grid sweep, the draw plan for a grid, and the interaction state.
pub mod color;
pub mod escape;
pub mod grid;
pub mod render;
pub mod session;
