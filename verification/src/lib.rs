//! A keyboard-driven tracker of practice problems: the screens and the keys
//! that lead from one to the next, the cursor of a list, the entry form, and
//! the heatmap that lays a year of entries out by week and weekday.

pub mod app;
pub mod calendar;
pub mod keys;
pub mod requests;
pub mod screens;
pub mod selection;
pub mod text;
