//! The shapes in which the catalogue is stored and served.

pub mod controllers;
pub mod db_dtos;
