pub mod clock;
pub mod codec;
pub mod decimal;
pub mod ingest;
pub mod scrape;
pub mod tensor;
pub mod store;
