//! Text-producing helpers of the language exercises: each module holds the
//! logic of one exercise program.

pub mod anyhow_errors;
pub mod async_workers;
pub mod employee;
pub mod generic_bound;
pub mod parsing;
pub mod trait_basic;
pub mod trait_multi_impl;
pub mod trait_objects;
pub mod traffic_light;
