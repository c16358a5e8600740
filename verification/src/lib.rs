//! Device kinds, naming and watcher decisions for the Ajazz / Mirabox N3 family
//! of stream controllers.
#![allow(non_camel_case_types)]

pub mod mappings;
pub mod watcher;
pub mod laws;
