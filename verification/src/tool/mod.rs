pub mod applet;
pub mod manager;
pub mod pages;
pub mod window;
