pub mod data_reader;
pub mod error;
pub mod in_memory_reader;
pub mod search_params;
pub mod text;

pub use data_reader::DataReader;
pub use error::AppError;
pub use in_memory_reader::InMemoryReader;
pub use search_params::{collect_match, Search, SearchParams, SearchParamsBuilder};
