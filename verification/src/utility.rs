pub mod env_detector;
