//! What holds of the library as a whole.

pub mod clicking;
pub mod configuring;
pub mod editing;
pub mod focusing;
pub mod indicating;
pub mod input_method;
pub mod showing;
pub mod switching;
pub mod writing;
