//! Core of a system-status panel applet: a rolling time-series store for
//! CPU and memory utilization percentages, sampled on a timer, pruned by
//! age, and rendered through a cached chart-geometry layer.

pub mod chart;
pub mod config;
pub mod render;
pub mod series;
pub mod sys;
pub mod window;
