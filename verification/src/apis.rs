//! The calls of the platform's API, one file for each.

pub mod check_ig_media;
pub mod create_album;
pub mod delete_object;
pub mod get_object;
pub mod post_album_photo;
pub mod post_batch;
pub mod post_feed_array;
pub mod post_ig_carousel;
pub mod post_ig_picture;
pub mod post_ig_picture_stories;
pub mod post_ig_reel;
pub mod post_ig_video;
pub mod post_ig_video_stories;
pub mod post_object;
pub mod post_picture;
pub mod post_video;
pub mod post_video_reel;
pub mod post_video_thumnail;
