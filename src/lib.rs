//! Renames episodic media files into a `Show/Season NN/Episode SxxEyy.ext`
//! layout: strategies read season and episode out of a file name, a resolution
//! falls back to an operator menu when they do not, and placement computes where
//! the file goes.

pub mod laws;
pub mod placement;
pub mod resolver;
pub mod strategy;
pub mod text;
