//! Building and checking transactional e-mail messages for the Mailtrap
//! sending API: validated addresses and MIME types, a message builder, the
//! response type, and the parts of a client that decide what is sent.

pub mod client;
pub mod types;

pub use client::MailtrapClient;
pub use types::email::{Attachment, Body, Disposition, EmailAddress, Message, ValidEmail, ValidMime};
pub use types::response::SendEmailResponse;
pub use types::string_map::StringMap;
