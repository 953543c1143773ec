pub mod analog;
pub mod digital;
