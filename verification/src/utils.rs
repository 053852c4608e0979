pub mod disposal;
