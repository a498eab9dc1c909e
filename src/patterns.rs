pub mod observer;
pub mod strategy;
