//! Good looking prompts for the terminal: the prompts' state machines,
//! their key handling and what they draw.
pub mod error;
pub mod formatted;
pub mod key;
pub mod laws;
pub mod node;
pub mod prompts;
pub mod strings;
pub mod style;
pub mod text_style_adapter;
pub mod utils;

pub use error::{Error, SetValue, Valuable};
pub use key::{KeyCode, KeyEvent};
pub use prompts::confirm::Confirm;
pub use prompts::message::Message;
pub use prompts::multi_select::MultiSelect;
pub use prompts::number::Number;
pub use prompts::password::Password;
pub use prompts::select::{Select, SelectInput, SelectOption};
pub use prompts::text::{LineInput, Text};
pub use prompts::toggle::Toggle;
pub use prompts::validator::{FnValidator, NoValidator, Validator};
pub use utils::num_like::NumLike;
