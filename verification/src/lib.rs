//! Verified core of an automatic plant-watering controller: the channels
//! between its tasks, and what each task decides.

pub mod channels;
pub mod config;
pub mod tasks;
pub mod types;
