//! A render-graph builder and compiler.
//!
//! Client code describes a frame as a graph of nodes (render, compute and
//! transfer passes) that create, read and modify virtual images and buffers.
//! The compiler resolves a concrete specification for every resource version
//! from the partial constraints imposed by its usages, orders the nodes
//! topologically (insertion order breaking ties), computes version lifetimes,
//! assigns physical allocations so that versions with disjoint lifetimes may
//! alias the same allocation, and derives the image layout transitions each
//! node needs before it runs.
//!
//! The compiler is a pure function of the built graph: the compiled plan is
//! pinned, field by field, to specification-level functions of the builder's
//! state, so two compilations of the same graph yield the same plan.

pub mod assets;
pub mod cooked_shader;
pub mod graph_buffer;
pub mod graph_builder;
pub mod graph_compile;
pub mod graph_image;
pub mod graph_node;
pub mod graph_plan;
pub mod render_target;
pub mod texture;
