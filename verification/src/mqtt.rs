//! The controller that joins the desk's port to publish/subscribe topics.

pub mod controller;
