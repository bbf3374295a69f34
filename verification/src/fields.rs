//! The fields: the controls that hold one value and have no children.

pub mod select;
pub mod text;

pub use select::SelectField;
pub use text::TextField;
