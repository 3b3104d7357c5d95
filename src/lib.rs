//! Per-key RGB lighting for a keyboard driven over USB HID: colour literals,
//! key names, the colour map and its encoding into HID output reports.

pub mod color;
pub mod device;
pub mod error;
pub mod keys;
pub mod layout;
pub mod lemmas;
pub mod map;
pub mod report;
pub mod text;

pub use color::{parse_color, Color};
pub use error::{ErrorKind, UserError};
pub use keys::{parse_key_name, NUM_KEYS};
pub use layout::encode_layout;
pub use map::{assign, new_map, resolve_target, set_map, Target};
pub use report::{build_reports, encode_led_map};
