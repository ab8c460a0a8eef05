//! The value logic of this crate's custom serde formats: what a value is
//! written as, and what a written form is read as. Driving a serde
//! serializer or deserializer with these is left to the caller.

pub mod duration_option_serde;
pub mod duration_serde;
pub mod forms;
pub mod log_filter_option_serde;
pub mod rotation_serde;
pub mod vec_option_serde;
pub mod vec_serde;
