pub mod text;
pub mod os_detect;
pub mod fs_detect;
pub mod constants;
