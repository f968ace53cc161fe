//! What each task of the controller decides, one step at a time.

pub mod network;
pub mod pump;
pub mod sensor;
