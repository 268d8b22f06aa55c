pub mod broadcast;
