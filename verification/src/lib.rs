//! Window snapping, target-window selection and paste preparation for a
//! desktop catering calculator.
pub mod text;
pub mod snap;
pub mod target;
pub mod paste;
