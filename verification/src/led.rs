pub mod event;
pub mod gauge;
pub mod hardware;
pub mod laws;
pub mod pixel;
pub mod startup_animation;
pub mod status_controller;

pub use startup_animation::StartupAnimator;
pub use status_controller::StatusLedController;
