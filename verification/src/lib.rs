//! Classes, objects, properties and signals for entities that a host
//! program shows to a scripting layer.
//!
//! A [`class::Class`] declares the named properties of its objects and the
//! host functions that read and write them; a [`class::Registry`] keeps the
//! classes under their names. An [`object::Object`] holds typed data of its
//! own, which scripts reach through the properties of its class, and the
//! callbacks that scripts connected to its signals. The scripting layer
//! itself stays outside: where a script function is to run, the library
//! names it and the host runs it.
//!
//! [`button`] is one such entity, a pointer button with its modifier keys.


pub mod button;
pub mod class;
pub mod error;
pub mod modifiers;
pub mod object;
pub mod payload;
pub mod property;
pub mod signal;
pub mod value;
