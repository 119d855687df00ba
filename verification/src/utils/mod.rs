pub mod performance;
