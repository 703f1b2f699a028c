pub mod a2dp;
pub mod async_call;
pub mod bluetooth;
pub mod esp32;
pub mod gap;
pub mod lifecycle;
pub mod pcm;
pub mod sample_buffer;
pub mod text;
pub mod uuids;
