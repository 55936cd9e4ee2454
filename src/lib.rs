//! A bridge between a remote job queue and a robot's local REST API: it polls
//! the backend for a job, claims it, fetches the job's protocol file, hands it
//! to the robot, starts a run and reports how the job ended. The decisions
//! are made here, as a state machine; the caller performs the requests.

pub mod bridge;
pub mod config;
pub mod json;
pub mod lifecycle;
pub mod manual;
pub mod model;
