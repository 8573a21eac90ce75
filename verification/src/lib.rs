//! The decision logic of the Magnolia Discord bot: its command schemas, the
//! parsing of command options, the highlight list rendering and the small text
//! formats they rely on. Everything that talks to Discord, the database or the
//! file system lives in the binary under `app/`.

pub mod text;
pub mod interaction;
pub mod config_command;
pub mod settings;
pub mod faq;
pub mod devforum;
pub mod highlight;
pub mod highlight_list;
pub mod dispatch;
