pub mod hello;
