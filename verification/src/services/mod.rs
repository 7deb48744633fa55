pub mod judge;
