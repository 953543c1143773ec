pub mod analog_in;
pub mod analog_in_pwm;
pub mod analog_out;
