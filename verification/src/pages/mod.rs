pub mod autohide;
pub mod controls;
pub mod date_time;
pub mod dock;
pub mod layouts;
pub mod panel;
pub mod panel_size;
pub mod preview;
pub mod shortcuts;
pub mod snapshots;
