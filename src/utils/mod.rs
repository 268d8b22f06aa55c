pub mod stream;
