pub mod device;
pub mod razer_report;
pub mod transport;
