//! Host-side core of a guest-language web application runtime: the layout
//! arithmetic for guest values, the typed tagged unions the hosts exchange
//! with guest code, the model store, the backend dispatch rules and the
//! frontend render plan.

#![allow(non_snake_case)]
#![allow(non_camel_case_types)]

pub mod cli;
pub mod dispatch;
pub mod event;
pub mod frontend;
pub mod hooks;
pub mod layout;
pub mod model;
pub mod render;
pub mod session;
pub mod tags;
pub mod text;
pub mod values;
