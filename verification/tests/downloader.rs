use cat_show_downloader::api_structs::{
    SingleEpisodeMedia, SingleEpisodeRoot, SingleEpisodeSubtitles, UrlMetadata,
};
use cat_show_downloader::downloader::{
    apply_sources, builtin_media_is_complete, check_lacks_subtitles, find_existing_video_files,
    full_media_path, handle_missing_subtitles, missing_subtitles_warning, single_media_api_url,
    DirectoryEntry, ExistingVideoFiles, FileStatus,
};
use cat_show_downloader::error::Error;
use cat_show_downloader::models::{MediaItem, MissingSubtitlePolicy, SubtitleMode};

fn entry(name: &str, size: u64) -> DirectoryEntry {
    DirectoryEntry { name: name.to_string(), status: FileStatus::Size(size) }
}

fn item() -> MediaItem {
    MediaItem {
        id: 42,
        title: "Episode title".to_string(),
        video_url: Some("https://example.invalid/old.mp4".to_string()),
        subtitle_url: None,
        episode_number: Some(1),
        tv_show_name: Some("Show".to_string()),
    }
}

fn response(urls: &[(&str, bool)], subtitles: Option<&[&str]>) -> SingleEpisodeRoot {
    SingleEpisodeRoot {
        media: SingleEpisodeMedia {
            url: urls
                .iter()
                .map(|(file, active)| UrlMetadata { file: file.to_string(), active: *active })
                .collect(),
        },
        subtitles: subtitles.map(|tracks| {
            tracks.iter().map(|url| SingleEpisodeSubtitles { url: url.to_string() }).collect()
        }),
    }
}

#[test]
fn test_should_error_when_missing_subtitles_are_strict() {
    let result = handle_missing_subtitles("Episode title", MissingSubtitlePolicy::Strict);

    assert!(matches!(result, Err(Error::NoSubtitlesAvailable(title)) if title == "Episode title"));
}

#[test]
fn test_should_allow_missing_subtitles_when_policy_is_permissive() {
    let result = handle_missing_subtitles("Episode title", MissingSubtitlePolicy::AllowMissing);

    assert!(result.is_ok());
}

#[test]
fn test_should_treat_existing_video_without_subtitle_as_incomplete_for_download_mode() {
    let size = b"existing-video-bytes".len() as u64;
    let entries = vec![entry("1-episode-title.mp4", size)];
    let scan = find_existing_video_files("1-episode-title.mp4", "output", &entries).unwrap();

    assert!(!builtin_media_is_complete(&scan.files, false, SubtitleMode::Download));
    assert!(builtin_media_is_complete(&scan.files, true, SubtitleMode::Download));
}

#[test]
fn test_should_treat_existing_mkv_as_complete_for_embed_mode() {
    let size = b"embedded-video-bytes".len() as u64;
    let entries = vec![entry("1-episode-title.mkv", size)];
    let scan = find_existing_video_files("1-episode-title.mp4", "output", &entries).unwrap();

    assert!(builtin_media_is_complete(&scan.files, false, SubtitleMode::Embed));
}

#[test]
fn completeness_of_every_mode() {
    let none = ExistingVideoFiles { reusable_video_path: None, embedded_video_path: None };
    let video = ExistingVideoFiles {
        reusable_video_path: Some("a.mp4".to_string()),
        embedded_video_path: None,
    };
    let embedded = ExistingVideoFiles {
        reusable_video_path: None,
        embedded_video_path: Some("a.mkv".to_string()),
    };
    for subtitle in [false, true] {
        assert!(!builtin_media_is_complete(&none, subtitle, SubtitleMode::Skip));
        assert!(!builtin_media_is_complete(&none, subtitle, SubtitleMode::Download));
        assert!(!builtin_media_is_complete(&none, subtitle, SubtitleMode::Embed));
        assert!(builtin_media_is_complete(&video, subtitle, SubtitleMode::Skip));
        assert_eq!(builtin_media_is_complete(&video, subtitle, SubtitleMode::Download), subtitle);
        assert!(!builtin_media_is_complete(&video, subtitle, SubtitleMode::Embed));
        assert!(!builtin_media_is_complete(&embedded, subtitle, SubtitleMode::Skip));
        assert!(builtin_media_is_complete(&embedded, subtitle, SubtitleMode::Embed));
    }
}

#[test]
fn details_are_at_a_url_of_their_own() {
    assert_eq!(
        single_media_api_url(42),
        "https://dinamics.ccma.cat/pvideo/media.jsp?media=video&version=0s&idint=42"
    );
    assert_ne!(single_media_api_url(1), single_media_api_url(11));
}

#[test]
fn warning_names_the_title() {
    assert_eq!(
        missing_subtitles_warning("Episode title"),
        "Subtitles requested for \"Episode title\" but none were available; continuing without subtitles"
    );
}

#[test]
fn first_active_file_and_first_track_are_taken() {
    let r = response(&[("a", false), ("b", true), ("c", true)], Some(&["s", "t"]));
    let got = apply_sources(item(), &r);
    assert_eq!(got.video_url.as_deref(), Some("b"));
    assert_eq!(got.subtitle_url.as_deref(), Some("s"));
    assert_eq!(got.title, "Episode title");
    assert!(!check_lacks_subtitles(&r, SubtitleMode::Embed));
}

#[test]
fn known_urls_stay_where_there_are_no_others() {
    let r = response(&[("a", false)], Some(&[]));
    let got = apply_sources(item(), &r);
    assert_eq!(got.video_url.as_deref(), Some("https://example.invalid/old.mp4"));
    assert_eq!(got.subtitle_url, None);
    assert!(check_lacks_subtitles(&r, SubtitleMode::Download));
    assert!(!check_lacks_subtitles(&r, SubtitleMode::Skip));
    assert!(check_lacks_subtitles(&response(&[], None), SubtitleMode::Embed));
}

#[test]
fn files_that_count_as_stored() {
    assert!(!FileStatus::Absent.non_empty_file_exists());
    assert!(FileStatus::Unreadable.non_empty_file_exists());
    assert!(FileStatus::Size(1).non_empty_file_exists());
    assert!(!FileStatus::Size(0).non_empty_file_exists());
    assert!(FileStatus::Size(0).check_leftover());
    assert!(!FileStatus::Size(1).check_leftover());
    assert!(!FileStatus::Absent.check_leftover());
}

#[test]
fn videos_are_found_by_stem_and_extension() {
    let entries = vec![
        entry("1-episode-title.vtt", 5),
        entry("11-episode-title.mp4", 5),
        entry("1-episode-title.MP4", 5),
        entry("1-episode-title", 5),
        entry("1-episode-title.mp4.tmp", 5),
        entry("1-episode-title.ts", 0),
        entry("1-episode-title.webm", 5),
        entry("1-episode-title.mp4", 5),
        entry("1-episode-title.mkv", 5),
        entry("1-episode-title.m4v", 0),
    ];
    let scan = find_existing_video_files("1-episode-title.mp4", "out", &entries).unwrap();
    assert_eq!(scan.files.reusable_video_path.as_deref(), Some("out/1-episode-title.webm"));
    assert_eq!(scan.files.embedded_video_path.as_deref(), Some("out/1-episode-title.mkv"));
    assert_eq!(scan.leftovers, vec!["out/1-episode-title.ts", "out/1-episode-title.m4v"]);
}

#[test]
fn nothing_is_found_in_an_empty_directory() {
    let scan = find_existing_video_files("1-a.mp4", "out", &Vec::new()).unwrap();
    assert_eq!(scan.files.reusable_video_path, None);
    assert_eq!(scan.files.embedded_video_path, None);
    assert!(scan.leftovers.is_empty());
}

#[test]
fn an_unusable_name_is_an_error() {
    let result = find_existing_video_files("..", "out", &Vec::new());
    assert!(matches!(result, Err(Error::InvalidPathEncoding(name)) if name == ".."));
}

#[test]
fn a_downloaded_video_is_found_again() {
    for ext in ["mp4", "mkv", "webm", "ts", "m4v"] {
        let entries = vec![entry(&format!("7-a.b.{}", ext), 1)];
        let scan = find_existing_video_files("7-a.b.mp4", "out", &entries).unwrap();
        let path = full_media_path(&format!("7-a.b.{}", ext), "out");
        if ext == "mkv" {
            assert_eq!(scan.files.embedded_video_path, Some(path));
        } else {
            assert_eq!(scan.files.reusable_video_path, Some(path));
        }
    }
}
