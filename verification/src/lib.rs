pub mod controller;
pub mod device;
pub mod laws;
pub mod pins;
