//! The HTTP/1.x message model: a decoder from the bytes of a stream to a
//! [`Request`], an encoder from a [`Response`] to the bytes of a message,
//! and the vocabulary both are written in.

pub mod content_type;
pub mod headers;
pub mod http_version;
pub mod laws;
pub mod methods;
pub mod request;
pub mod response;
pub mod status_code;
pub mod text;
pub mod trusted;

pub use content_type::{BodyForm, ContentType};
pub use headers::Headers;
pub use http_version::HttpVersion;
pub use methods::Methods;
pub use request::{Error as RequestError, Request};
pub use response::{Error as ResponseError, Response, DEFAULT_BUFFER_SIZE};
pub use status_code::HttpStatus;
