//! Mode-switching commands for Sony WH/WI headphones: the settings model,
//! the framed control packet that carries them, and the named modes.
pub mod error;
pub mod mode;
pub mod packet;
pub mod settings;
pub mod transport;

pub use error::CommandError;
pub use mode::{packet_for_mode, resolve, Mode};
pub use packet::{checksum, encode, get_packet, try_get_packet};
pub use settings::Settings;
pub use transport::Delivery;
