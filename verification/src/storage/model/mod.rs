pub mod event;
pub mod follow;
pub mod fragment;
pub mod like;
pub mod review;
pub mod task;
pub mod user;
