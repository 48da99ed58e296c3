pub mod gen3;
