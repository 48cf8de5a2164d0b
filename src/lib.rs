//! Random password generation from four fixed character categories, with a
//! configurable length and at least one character of each enabled category.
pub mod alphabet;
pub mod options;
mod random;
pub mod generator;
