//! A chat-prompt template builder: turns an ordered, role-tagged
//! conversation into one flat prompt string by rendering a template, compiled
//! once, over one record per message.

pub mod builder;
pub mod messages;

pub use crate::builder::ChatBuilder;
pub use crate::builder::ConfigError;
pub use crate::builder::RenderError;
pub use crate::messages::ChatMessage;
pub use crate::messages::ContentPart;
pub use crate::messages::MessageContent;
pub use crate::messages::RenderRecord;
pub use crate::messages::chat_to_record;
pub use crate::messages::content_to_string;
