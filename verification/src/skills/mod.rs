pub mod audio_test;
pub mod duration;
pub mod home;
pub mod jeedom;
pub mod smoke;
pub mod timer;
pub mod tmp_test;
pub mod weather;
