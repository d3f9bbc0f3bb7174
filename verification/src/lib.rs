//! Renders a one-month calendar grid ("datesheet"): one row per day of the
//! month, one column per hour of the day.  The library computes the calendar
//! dates of a month, the page geometry, and the full list of drawing
//! primitives for the grid; a thin shell turns those primitives into a PDF.

pub mod date;
pub mod layout;
pub mod render;
pub mod text;
