pub mod auxiliary;
pub mod centralized_notifier;
pub mod esp32_framework_error;
pub mod isr_queues;
pub mod timer_driver;
