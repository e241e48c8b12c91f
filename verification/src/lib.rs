//! Verified core of the Framework laptop embedded-controller tools.
#![allow(unused_imports)]

pub mod battery;
pub mod charging;
pub mod command;
pub mod curve_laws;
pub mod dto;
pub mod ec_cmd;
pub mod error;
pub mod external_curves;
pub mod fan_curve;
pub mod fans;
pub mod hermite;
pub mod introspect;
pub mod memmap;
pub mod pd;
pub mod pdctl;
pub mod plugins;
pub mod query;
pub mod report;
pub mod spline;
pub mod status;
pub mod temp;
pub mod text;
pub mod usb;
pub mod usbpd;
pub mod wire;
