pub mod activation;
pub mod body;
pub mod collision;
