pub mod dynamic_encoder;
pub mod vaapi_encoder;
pub mod video;
