//! Adapter layer between a generic GPU memory allocator and a Vulkan device.
//!
//! The allocator (`gpu-alloc-types`) consumes two things from a backend:
//! a description of the physical device's memory capabilities, and six
//! primitive memory operations. This crate provides the verified core of
//! a `vulkanalia` backend: the property-flag translation between the two
//! crates' flag sets, the translation of Vulkan error codes into the
//! allocator's error taxonomy, and the capability-probing decisions
//! (which queries to issue for a negotiated Vulkan version and set of
//! supported device extensions, and how to assemble their results into
//! one capability record).
//!
//! The live Vulkan calls themselves are `unsafe` and stay outside this
//! library; they hand their raw results to the functions here.

pub mod error;
pub mod flags;
pub mod probe;
pub mod trusted;
