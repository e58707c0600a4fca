pub mod kinds;
