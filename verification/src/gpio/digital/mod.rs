pub mod digital_in;
pub mod digital_out;
