use sandbox_exec::strmap::StrMap;
use sandbox_exec::text::i32_to_string;
use sandbox_exec::text::join_with;
use sandbox_exec::text::parse_usize;
use sandbox_exec::text::starts_with;
use sandbox_exec::text::u64_to_string;
use sandbox_exec::text::words_eq;
use sandbox_exec::tools::generate_image;
use sandbox_exec::tools::generate_image::GenerateImageArgs;
use sandbox_exec::tools::generate_image::ImageData;
use sandbox_exec::tools::generate_image::ImageSource;
use sandbox_exec::tools::generate_video;
use sandbox_exec::tools::generate_video::GenerateVideoArgs;
use sandbox_exec::tools::generate_video::VideoArgsError;
use sandbox_exec::tools::generate_video::VideoResponse;
use sandbox_exec::tools::query_vector_db;
use sandbox_exec::tools::query_vector_db::Condition;
use sandbox_exec::tools::query_vector_db::QueryVectorDbArgs;
use sandbox_exec::tools::query_vector_db::QueryVectorDbHandler;
use sandbox_exec::tools::query_vector_db::VectorDbConfig;

fn video(model: &str, duration: u32, resolution: &str) -> GenerateVideoArgs {
    GenerateVideoArgs { prompt: "p".to_string(), duration, resolution: resolution.to_string(), model: model.to_string() }
}

#[test]
fn numbers_are_written_in_base_ten() {
    assert_eq!(u64_to_string(0), "0");
    assert_eq!(u64_to_string(7), "7");
    assert_eq!(u64_to_string(10), "10");
    assert_eq!(u64_to_string(104857600), "104857600");
    assert_eq!(u64_to_string(u64::MAX), "18446744073709551615");
    assert_eq!(i32_to_string(0), "0");
    assert_eq!(i32_to_string(-1), "-1");
    assert_eq!(i32_to_string(42), "42");
    assert_eq!(i32_to_string(i32::MIN), "-2147483648");
    assert_eq!(i32_to_string(i32::MAX), "2147483647");
}

#[test]
fn numbers_parse_as_the_standard_library_parses_them() {
    for text in ["0", "7", "007", "+7", "18446744073709551615", "18446744073709551616", "", "+", "-", "-0", "++1", "1+", " 1", "1 ", "1_000", "0x10", "\u{664}", "99999999999999999999"] {
        assert_eq!(parse_usize(text), text.parse::<usize>().ok(), "for {text:?}");
    }
    for n in [0usize, 9, 10, 99, 100, 12345, usize::MAX] {
        assert_eq!(parse_usize(&u64_to_string(n as u64)), Some(n));
    }
}

#[test]
fn texts_are_joined_and_compared() {
    assert!(starts_with("Bearer abc", "Bearer "));
    assert!(starts_with("abc", ""));
    assert!(starts_with("", ""));
    assert!(!starts_with("Bear", "Bearer "));
    assert!(!starts_with("bearer x", "Bearer "));
    let list = vec!["a".to_string(), "".to_string(), "c".to_string()];
    assert_eq!(join_with(&list, ", "), "a, , c");
    assert_eq!(join_with(&list, ""), "ac");
    assert_eq!(join_with(&Vec::new(), ", "), "");
    assert!(words_eq(&list, &list.clone()));
    assert!(!words_eq(&list, &vec!["a".to_string(), "".to_string()]));
    assert!(!words_eq(&list, &vec!["a".to_string(), "".to_string(), "d".to_string()]));
}

#[test]
fn the_map_keeps_insertion_order_and_unique_keys() {
    let mut map: StrMap<u32> = StrMap::new();
    assert_eq!(map.len(), 0);
    assert_eq!(map.insert("b".to_string(), 1), None);
    assert_eq!(map.insert("a".to_string(), 2), None);
    assert_eq!(map.insert("b".to_string(), 3), Some(1));
    assert_eq!(map.len(), 2);
    assert_eq!(map.key_at(0), "b");
    assert_eq!(*map.value_at(0), 3);
    assert_eq!(map.key_at(1), "a");
    assert_eq!(map.find("a"), Some(1));
    assert_eq!(map.find("c"), None);
    assert!(map.has_key("a"));
    assert_eq!(map.get("b"), Some(&3));
    assert_eq!(map.swap_value_at(1, 9), 2);
    assert_eq!(map.get("a"), Some(&9));
    assert_eq!(map.remove("c"), None);
    assert_eq!(map.remove("b"), Some(3));
    assert_eq!(map.len(), 1);
    assert_eq!(map.remove_at(0), ("a".to_string(), 9));
    assert_eq!(map.len(), 0);
}

#[test]
fn image_defaults_and_request() {
    assert_eq!(generate_image::default_size(), "1024x1024");
    assert_eq!(generate_image::default_quality(), "standard");
    assert_eq!(generate_image::default_n(), 1);
    let request = generate_image::dalle_request(&GenerateImageArgs { prompt: "a cat".to_string(), size: "512x512".to_string(), quality: "hd".to_string(), n: 2 });
    assert_eq!(request.model, "dall-e-3");
    assert_eq!(request.prompt, "a cat");
    assert_eq!(request.n, 2);
    assert_eq!(request.size, "512x512");
    assert_eq!(request.quality, "hd");
    assert_eq!(request.response_format, "b64_json");
    assert_eq!(generate_image::success_message(3), "Generated 3 image(s) successfully");
    assert_eq!(generate_image::failure_message("offline"), "Failed to generate image: offline");
}

#[test]
fn images_become_data_urls() {
    assert_eq!(generate_image::data_url("aGk="), "data:image/png;base64,aGk=");
    assert_eq!(generate_image::image_data_url(&b"hi".to_vec()), Some("data:image/png;base64,aGk=".to_string()));
    assert_eq!(generate_image::image_data_url(&Vec::new()), Some("data:image/png;base64,".to_string()));
    assert_eq!(generate_image::image_data_url(&vec![0xfb, 0xff, 0xfe]), Some("data:image/png;base64,+//+".to_string()));
    let inline = generate_image::image_source(ImageData { url: Some("https://x/y.png".to_string()), b64_json: Some("QQ==".to_string()) });
    assert!(matches!(inline, ImageSource::Inline { image_url } if image_url == "data:image/png;base64,QQ=="));
    let fetch = generate_image::image_source(ImageData { url: Some("https://x/y.png".to_string()), b64_json: None });
    assert!(matches!(fetch, ImageSource::Fetch { url } if url == "https://x/y.png"));
    assert!(matches!(generate_image::image_source(ImageData { url: None, b64_json: None }), ImageSource::Missing));
}

#[test]
fn video_arguments_are_checked_in_order() {
    assert_eq!(generate_video::default_duration(), 4);
    assert_eq!(generate_video::default_resolution(), "720x1280");
    assert_eq!(generate_video::default_model(), "sora-2");
    assert_eq!(generate_video::validate(&video("sora-2", 4, "720x1280")), Ok(()));
    assert_eq!(generate_video::validate(&video("sora-2", 12, "1280x720")), Ok(()));
    assert_eq!(generate_video::validate(&video("sora-2-pro", 8, "1024x1792")), Ok(()));
    assert_eq!(generate_video::validate(&video("sora-2-pro", 8, "1792x1024")), Ok(()));
    assert_eq!(generate_video::validate(&video("sora-2-pro", 8, "720x1280")), Ok(()));
    assert_eq!(generate_video::validate(&video("sora-2", 8, "1024x1792")), Err(VideoArgsError::Resolution));
    assert_eq!(generate_video::validate(&video("sora-2", 4, "640x480")), Err(VideoArgsError::Resolution));
    assert_eq!(generate_video::validate(&video("sora-2", 5, "640x480")), Err(VideoArgsError::Duration));
    assert_eq!(generate_video::validate(&video("sora-3", 5, "640x480")), Err(VideoArgsError::Model));
    assert_eq!(VideoArgsError::Model.message(), "generate_video model must be one of: sora-2, sora-2-pro");
    assert_eq!(VideoArgsError::Duration.message(), "generate_video duration must be one of: 4, 8, 12");
    assert_eq!(VideoArgsError::Resolution.message(), "generate_video resolution must be one of: 720x1280, 1280x720 (sora-2) or 1024x1792, 1792x1024 (sora-2-pro)");
}

#[test]
fn video_messages_are_formatted() {
    let info = generate_video::video_info(VideoResponse { id: "vid_1".to_string(), status: "queued".to_string(), progress: Some(40) });
    assert_eq!(info.message, "Progress: 40%");
    let text = generate_video::success_message(&video("sora-2", 8, "1280x720"), &info);
    assert_eq!(text, "Video generation initiated successfully.\n\nID: vid_1\nStatus: queued\nModel: sora-2\nDuration: 8s\nResolution: 1280x720\nProgress: 40%");
    let waiting = generate_video::video_info(VideoResponse { id: "v".to_string(), status: "s".to_string(), progress: None });
    assert_eq!(waiting.message, "Video is being processed.");
    assert_eq!(generate_video::failure_message("offline"), "Failed to generate video: offline");
}

#[test]
fn vector_search_filters_follow_the_arguments() {
    assert_eq!(query_vector_db::default_limit(), 10);
    let handler = QueryVectorDbHandler::new(VectorDbConfig { url: "http://q".to_string(), collection: "posts".to_string(), embedding_model: "m".to_string() });
    assert_eq!(handler.config.collection, "posts");
    let all = QueryVectorDbArgs {
        query: "q".to_string(),
        platform: Some("x".to_string()),
        doc_type: Some("post".to_string()),
        limit: 5,
        min_likes: Some(-3),
        sentiment: Some("positive".to_string()),
    };
    let conditions = query_vector_db::filter_conditions(&all);
    assert_eq!(conditions.len(), 4);
    assert!(matches!(&conditions[0], Condition::Keyword { key, value } if key == "platform" && value == "x"));
    assert!(matches!(&conditions[1], Condition::Keyword { key, value } if key == "doc_type" && value == "post"));
    assert!(matches!(&conditions[2], Condition::Keyword { key, value } if key == "sentiment" && value == "positive"));
    assert!(matches!(&conditions[3], Condition::AtLeast { key, min } if key == "likes" && *min == -3));
    let none = QueryVectorDbArgs { query: "q".to_string(), platform: None, doc_type: None, limit: 10, min_likes: None, sentiment: None };
    assert!(query_vector_db::filter_conditions(&none).is_empty());
    let one = QueryVectorDbArgs { query: "q".to_string(), platform: None, doc_type: Some("post".to_string()), limit: 10, min_likes: None, sentiment: None };
    assert_eq!(query_vector_db::filter_conditions(&one).len(), 1);
    assert_eq!(query_vector_db::success_message(2, "[]"), "Found 2 results from vector database:\n\n[]");
    assert_eq!(query_vector_db::failure_message("offline"), "Failed to query vector database: offline");
}
