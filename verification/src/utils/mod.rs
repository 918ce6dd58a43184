//! Helpers of the prompts.
pub mod colored_strings;
pub mod num;
pub mod num_like;
pub mod renderer;
pub mod theme;
