pub mod codec;
pub mod error;
pub mod session;

pub use error::MaazDBError;
pub use session::MaazDB;
