pub mod email;
pub mod message_builder;
pub mod response;
pub mod string_map;
