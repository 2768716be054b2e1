//! A verified core for approximating a target raster image with a small
//! population of simple shapes. A stochastic hill-climbing search mutates
//! one population member per iteration, an outside collaborator renders the
//! candidate, and the controller accepts it exactly when its pixel-level
//! dissimilarity beats the current threshold, which drifts slowly upward on
//! every rejection so the search cannot stagnate for good.

pub mod fitness;
pub mod mutate;
pub mod rng;
pub mod search;
pub mod shape;
