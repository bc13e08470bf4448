//! A typed client for a geocoding web service.
//!
//! The library decodes the service's JSON responses into a typed tree,
//! with explicit per-field wire names and hard failures on unknown
//! single-letter codes, and builds the two GET requests (forward and
//! reverse geocoding) over an injectable transport.

pub mod error;
pub mod geocode;
pub mod json;

pub use error::DecodeError;
pub use error::Error;
pub use geocode::Client;
pub use geocode::GeocodeResponse;
pub use geocode::GeocodeResult;
pub use geocode::Info;
pub use geocode::LatLng;
pub use geocode::Location;
pub use geocode::LocationType;
pub use geocode::Options;
pub use geocode::ProvidedLocation;
pub use geocode::ReverseGeocodeResponse;
pub use geocode::ReverseGeocodeResult;
pub use geocode::SideOfStreet;
pub use geocode::Transport;
