pub mod errors;
pub mod expression;
pub mod markov;
pub mod scanner;
pub mod tables;
pub mod text;
pub mod token;
pub mod simulator;
pub mod command;
pub mod parser;
pub mod generator;
pub mod laws;
