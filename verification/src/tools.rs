pub mod drift_tools;
