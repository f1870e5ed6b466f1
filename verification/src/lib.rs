//! The logic of a raymarching viewer: the command line and the pipeline
//! choices it makes, the colour cube texture and its upload layout, the scene
//! graph kept in flat arrays for the GPU, and the decisions of the event loop.

pub mod cli;
pub mod events;
pub mod scene_graph;
pub mod texture;
