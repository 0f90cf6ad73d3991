//! Local time lookups for queries such as `time in Tokyo`.
pub mod text;
pub mod query;
pub mod clock;
pub mod zone_table;
pub mod zones;
pub mod place;
pub mod signature_order;
pub mod grouping;
pub mod country;
pub mod places;
pub mod geocoding;
pub mod cache;
pub mod lookup;
pub mod response;
