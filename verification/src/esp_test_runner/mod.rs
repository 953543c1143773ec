pub mod pretty_prints;
pub mod test_runner;
