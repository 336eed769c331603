pub mod aggregate;
pub mod client;
pub mod codec;
pub mod const_vars;
pub mod cookie_pre;
pub mod dispatch;
pub mod draw_image;
pub mod error;
pub mod history;
pub mod record;
pub mod session;
pub mod stop_signal;
pub mod strings;
pub mod trusted;
pub mod types;

pub use client::BingClient;
pub use types::chat_msg_type::EasyMsg;
pub use types::chat_type::Chat;
pub use types::cookie_type::Cookie;
pub use types::plugin_type::Plugin;
pub use types::user_input_type::Tone;
pub use types::user_input_type::UserInput;
