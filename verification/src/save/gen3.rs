pub mod gen3_save;
pub mod gen3_scan;
pub mod gen3_utils;
