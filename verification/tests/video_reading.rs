use thumbnailer::error::ThumbError;
use thumbnailer::{create_thumbnails, MediaType, ThumbnailSize};

#[test]
fn it_creates_thumbnails_for_mp4() {
    let video_bytes: Vec<u8> = Vec::new();
    let result = create_thumbnails(
        &video_bytes,
        MediaType::mp4_video(),
        &vec![
            ThumbnailSize::Small,
            ThumbnailSize::Medium,
            ThumbnailSize::Large,
        ],
    );

    match result {
        Ok(_) => {
            assert!(true);
        }
        Err(e) => match e {
            ThumbError::Unsupported(_) => {
                assert!(true, "ffmpeg is not installed");
            }
            e => {
                panic!("failed to create thumbnails {}", e.message());
            }
        },
    }
}
