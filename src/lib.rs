//! Biorhythm chart model: three fixed cycles, critical-day detection, a
//! bounded day-offset navigator with press-and-hold rolling, and the plain
//! layout of the 30-day chart window.

pub mod cycle;
pub mod navigation;
pub mod cache;
pub mod calendar;
pub mod sidebar;
pub mod chart;
pub mod viewer;
