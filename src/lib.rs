//! Translation between a server-side HTTP request/response and a client-side
//! one: an inbound request becomes an outbound request, optionally pointed at
//! another destination, and the transport's outcome becomes an inbound
//! response, with gzip bodies decoded and failures mapped to status 500.
pub mod header;
pub mod request;
pub mod response;
pub mod url;

pub use header::Header;
pub use request::{
    ActixWebRequestWrapper, ConversionError, DestinationError, InboundRequest, OutboundRequest,
    RequestWrapper,
};
pub use response::{
    InboundResponse, LogEntry, ResponseWrapper, TransportError, TranslatedResponse,
    UpstreamResponse,
};
pub use url::Url;
