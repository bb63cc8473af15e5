pub mod sharing;
