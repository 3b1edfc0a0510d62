pub mod body;
pub mod method;
pub mod request;
pub mod status;
pub mod version;

pub use crate::body::Body;
pub use crate::method::Method;
pub use crate::request::Request;
