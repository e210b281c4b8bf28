//! Per-model panel data and initialization sequences for the supported
//! display controllers.

pub mod co5300;
pub mod gc9a01;
pub mod st7735;
pub mod st7789;
