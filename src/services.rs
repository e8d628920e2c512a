pub mod status;
pub mod froovie_service;
