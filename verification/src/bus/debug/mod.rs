pub mod io_map;
pub mod types;
