pub mod input;
pub mod widget;
