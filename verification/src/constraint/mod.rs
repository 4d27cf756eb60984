pub mod bind;
