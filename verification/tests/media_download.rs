use cat_show_downloader::api_structs::{
    SingleEpisodeMedia, SingleEpisodeRoot, SingleEpisodeSubtitles, UrlMetadata,
};
use cat_show_downloader::downloader::{DirectoryEntry, FileStatus};
use cat_show_downloader::error::Error;
use cat_show_downloader::media_download::{Action, Event, MediaDownload, Step};
use cat_show_downloader::models::{
    DownloadSettings, MediaItem, MissingSubtitlePolicy, SubtitleMode,
};

fn item(id: i32) -> MediaItem {
    MediaItem {
        id,
        title: "Episode title".to_string(),
        video_url: None,
        subtitle_url: None,
        episode_number: Some(1),
        tv_show_name: Some("Show".to_string()),
    }
}

fn settings(mode: SubtitleMode, policy: MissingSubtitlePolicy) -> DownloadSettings {
    DownloadSettings {
        subtitle_mode: mode,
        missing_subtitle_policy: policy,
        concurrent_downloads: 1,
        directory: "output".to_string(),
        yt_dlp_available: false,
    }
}

fn response(video: Option<&str>, subtitle: Option<&str>) -> SingleEpisodeRoot {
    SingleEpisodeRoot {
        media: SingleEpisodeMedia {
            url: video
                .map(|url| UrlMetadata { file: url.to_string(), active: true })
                .into_iter()
                .collect(),
        },
        subtitles: subtitle.map(|url| vec![SingleEpisodeSubtitles { url: url.to_string() }]),
    }
}

/// The files, the network and the tools around a download.
struct World {
    files: Vec<(String, u64)>,
    response: Option<SingleEpisodeRoot>,
    downloads_work: bool,
    embedding_works: bool,
    log: Vec<String>,
    warnings: Vec<String>,
}

impl World {
    fn new(response: SingleEpisodeRoot) -> World {
        World {
            files: Vec::new(),
            response: Some(response),
            downloads_work: true,
            embedding_works: true,
            log: Vec::new(),
            warnings: Vec::new(),
        }
    }

    fn status(&self, path: &str) -> FileStatus {
        match self.files.iter().find(|(name, _)| name == path) {
            Some((_, size)) => FileStatus::Size(*size),
            None => FileStatus::Absent,
        }
    }

    fn store(&mut self, path: &str) -> Event {
        if self.downloads_work {
            self.files.push((path.to_string(), 11));
            Event::Downloaded(Ok(()))
        } else {
            Event::Downloaded(Err(Error::Downloading("connection lost".to_string())))
        }
    }

    fn perform(&mut self, step: Step) -> Result<Event, Result<(), Error>> {
        self.warnings.extend(step.warning);
        self.files.retain(|(name, _)| !step.cleanup.contains(name));
        Ok(match step.action {
            Action::DelegateToYtDlp => Event::Delegated(Ok(())),
            Action::FetchDetails { url } => {
                self.log.push(format!("fetch {}", url));
                Event::DetailsFetched(self.response.take().ok_or("no route".to_string()))
            }
            Action::NameFile { extension } => {
                Event::Named(Ok(format!("1-episode-title.{}", extension)))
            }
            Action::ListDirectory { directory } => {
                let prefix = format!("{}/", directory);
                let mut entries = Vec::new();
                for (name, size) in &self.files {
                    entries.push(DirectoryEntry {
                        name: name.strip_prefix(&prefix).unwrap().to_string(),
                        status: FileStatus::Size(*size),
                    });
                }
                Event::Listed { entries, failure: None }
            }
            Action::ProbeFile { path } => Event::Probed(self.status(&path)),
            Action::DownloadVideo { url, path, label } => {
                self.log.push(format!("video {} {} {}", url, path, label));
                self.store(&path)
            }
            Action::DownloadSubtitle { url, path, label } => {
                self.log.push(format!("subtitle {} {} {}", url, path, label));
                self.store(&path)
            }
            Action::CleanSubtitle { path } => {
                self.log.push(format!("clean {}", path));
                Event::Cleaned(Ok(()))
            }
            Action::EmbedSubtitle { video_path, subtitle_path, language } => {
                self.log.push(format!("embed {} {} {}", video_path, subtitle_path, language));
                if self.embedding_works {
                    Event::Embedded(Ok(()))
                } else {
                    Event::Embedded(Err("exit status 1".to_string()))
                }
            }
            Action::Finish { result } => return Err(result),
        })
    }

    fn run(&mut self, item: MediaItem, settings: &DownloadSettings) -> Result<(), Error> {
        let (mut machine, mut step) = MediaDownload::start(item, settings);
        loop {
            match self.perform(step) {
                Ok(event) => {
                    let (after, next) = machine.step(event);
                    machine = after;
                    step = next;
                }
                Err(result) => return result,
            }
        }
    }
}

#[test]
fn test_should_emit_single_warning_when_missing_subtitles_are_allowed_for_builtin_downloader() {
    let mut world = World::new(response(Some("http://127.0.0.1/video.mp4"), None));
    let result = world.run(
        item(42),
        &settings(SubtitleMode::Download, MissingSubtitlePolicy::AllowMissing),
    );

    let warning = "Subtitles requested for \"Episode title\" but none were available; continuing without subtitles";
    let warning_count = world.warnings.iter().filter(|w| *w == warning).count();

    assert!(result.is_ok());
    assert_eq!(warning_count, 1, "expected exactly one missing-subtitles warning");
    assert_eq!(world.warnings.len(), 1);
    assert_eq!(
        world.log,
        vec![
            "fetch https://dinamics.ccma.cat/pvideo/media.jsp?media=video&version=0s&idint=42",
            "video http://127.0.0.1/video.mp4 output/1-episode-title.mp4 1-episode-title.mp4",
        ]
    );
}

#[test]
fn test_should_download_missing_subtitle_without_redownloading_existing_video() {
    let mut world =
        World::new(response(Some("http://127.0.0.1:9/video.mp4"), Some("http://127.0.0.1/s.vtt")));
    world.files.push(("output/1-episode-title.mp4".to_string(), 20));
    let result =
        world.run(item(77), &settings(SubtitleMode::Download, MissingSubtitlePolicy::Strict));

    assert!(result.is_ok());
    assert_eq!(world.status("output/1-episode-title.mp4"), FileStatus::Size(20));
    assert_eq!(world.status("output/1-episode-title.vtt"), FileStatus::Size(11));
    assert!(!world.log.iter().any(|line| line.starts_with("video")));
    assert_eq!(
        world.log[1..],
        [
            "subtitle http://127.0.0.1/s.vtt output/1-episode-title.vtt 1-episode-title.vtt",
            "clean output/1-episode-title.vtt",
        ]
    );
}

#[test]
fn missing_subtitles_end_a_strict_download() {
    let mut world = World::new(response(Some("v"), None));
    let result = world.run(item(1), &settings(SubtitleMode::Embed, MissingSubtitlePolicy::Strict));
    assert_eq!(result, Err(Error::NoSubtitlesAvailable("Episode title".to_string())));
    assert_eq!(world.log.len(), 1);
    assert!(world.files.is_empty());
}

#[test]
fn skipped_subtitles_are_not_missed() {
    let mut world = World::new(response(Some("v"), None));
    let result = world.run(item(1), &settings(SubtitleMode::Skip, MissingSubtitlePolicy::Strict));
    assert_eq!(result, Ok(()));
    assert!(world.warnings.is_empty());
    assert_eq!(world.log[1], "video v output/1-episode-title.mp4 1-episode-title.mp4");
    assert_eq!(world.log.len(), 2);
}

#[test]
fn subtitles_are_embedded() {
    let mut world = World::new(response(Some("v"), Some("s")));
    let result = world.run(item(1), &settings(SubtitleMode::Embed, MissingSubtitlePolicy::Strict));
    assert_eq!(result, Ok(()));
    assert_eq!(
        world.log[1..],
        [
            "video v output/1-episode-title.mp4 1-episode-title.mp4",
            "subtitle s output/1-episode-title.vtt 1-episode-title.vtt",
            "clean output/1-episode-title.vtt",
            "embed output/1-episode-title.mp4 output/1-episode-title.vtt ca",
        ]
    );
}

#[test]
fn embedding_may_fail() {
    let mut world = World::new(response(Some("v"), Some("s")));
    world.embedding_works = false;
    let result = world.run(item(1), &settings(SubtitleMode::Embed, MissingSubtitlePolicy::Strict));
    assert_eq!(result, Ok(()));
    assert_eq!(
        world.warnings,
        vec!["Failed to embed subtitles into output/1-episode-title.mp4: exit status 1"]
    );
}

#[test]
fn an_item_without_video_url_is_an_error() {
    let mut world = World::new(response(None, Some("s")));
    let result =
        world.run(item(1), &settings(SubtitleMode::Download, MissingSubtitlePolicy::Strict));
    assert_eq!(result, Err(Error::MediaDoesNotHaveVideoUrl("1-episode-title.mp4".to_string())));
}

#[test]
fn a_failed_download_is_an_error() {
    let mut world = World::new(response(Some("v"), Some("s")));
    world.downloads_work = false;
    let result =
        world.run(item(1), &settings(SubtitleMode::Download, MissingSubtitlePolicy::Strict));
    assert_eq!(result, Err(Error::Downloading("connection lost".to_string())));
    assert_eq!(world.log.len(), 2);
}

#[test]
fn details_that_cannot_be_had_are_an_error() {
    let mut world = World::new(response(None, None));
    world.response = None;
    let result =
        world.run(item(1), &settings(SubtitleMode::Download, MissingSubtitlePolicy::Strict));
    assert_eq!(result, Err(Error::Decoding("no route".to_string())));
}

#[test]
fn a_complete_item_is_left_alone() {
    let mut world = World::new(response(Some("v"), Some("s")));
    let wanted = settings(SubtitleMode::Download, MissingSubtitlePolicy::Strict);
    assert_eq!(world.run(item(1), &wanted), Ok(()));
    assert_eq!(world.log.len(), 4);
    world.response = Some(response(Some("v"), Some("s")));
    assert_eq!(world.run(item(1), &wanted), Ok(()));
    assert_eq!(world.log.len(), 5);
}

#[test]
fn leftovers_are_removed() {
    let mut world = World::new(response(Some("v"), Some("s")));
    world.files.push(("output/1-episode-title.mp4.tmp".to_string(), 3));
    world.files.push(("output/1-episode-title.webm".to_string(), 0));
    world.files.push(("output/1-episode-title.vtt".to_string(), 0));
    world.files.push(("output/other.webm".to_string(), 0));
    let wanted = settings(SubtitleMode::Download, MissingSubtitlePolicy::Strict);
    assert_eq!(world.run(item(1), &wanted), Ok(()));
    let mut names: Vec<&str> = world.files.iter().map(|(name, _)| name.as_str()).collect();
    names.sort();
    assert_eq!(
        names,
        vec!["output/1-episode-title.mp4", "output/1-episode-title.vtt", "output/other.webm"]
    );
}

#[test]
fn yt_dlp_does_everything() {
    let mut wanted = settings(SubtitleMode::Download, MissingSubtitlePolicy::Strict);
    wanted.yt_dlp_available = true;
    let (machine, step) = MediaDownload::start(item(1), &wanted);
    assert_eq!(step.action, Action::DelegateToYtDlp);
    let error = Error::NoSubtitlesAvailable("x".to_string());
    let (_, step) = machine.step(Event::Delegated(Err(error)));
    assert_eq!(
        step.action,
        Action::Finish { result: Err(Error::NoSubtitlesAvailable("x".to_string())) }
    );
}

#[test]
fn a_name_that_cannot_be_had_is_an_error() {
    let wanted = settings(SubtitleMode::Download, MissingSubtitlePolicy::Strict);
    let (machine, _) = MediaDownload::start(item(1), &wanted);
    let (machine, step) = machine.step(Event::DetailsFetched(Ok(response(Some("v"), Some("s")))));
    assert_eq!(step.action, Action::NameFile { extension: "mp4".to_string() });
    let (_, step) = machine.step(Event::Named(Err(Error::InvalidPathEncoding("n".to_string()))));
    assert_eq!(
        step.action,
        Action::Finish { result: Err(Error::InvalidPathEncoding("n".to_string())) }
    );
}

#[test]
fn a_directory_that_cannot_be_read_is_an_error() {
    let wanted = settings(SubtitleMode::Download, MissingSubtitlePolicy::Strict);
    let (machine, _) = MediaDownload::start(item(1), &wanted);
    let (machine, _) = machine.step(Event::DetailsFetched(Ok(response(Some("v"), Some("s")))));
    let (machine, step) = machine.step(Event::Named(Ok("a.mp4".to_string())));
    assert_eq!(step.cleanup, vec!["output/a.mp4.tmp"]);
    let failure = Some("denied".to_string());
    let (_, step) = machine.step(Event::Listed { entries: Vec::new(), failure });
    assert!(step.cleanup.is_empty());
    assert_eq!(
        step.action,
        Action::Finish { result: Err(Error::Downloading("denied".to_string())) }
    );
}

#[test]
fn leftovers_seen_before_a_directory_fails_are_removed() {
    let wanted = settings(SubtitleMode::Download, MissingSubtitlePolicy::Strict);
    let (machine, _) = MediaDownload::start(item(1), &wanted);
    let (machine, _) = machine.step(Event::DetailsFetched(Ok(response(Some("v"), Some("s")))));
    let (machine, _) = machine.step(Event::Named(Ok("a.mp4".to_string())));
    let entry = |name: &str, size: u64| DirectoryEntry {
        name: name.to_string(),
        status: FileStatus::Size(size),
    };
    let entries = vec![entry("a.mp4", 0), entry("b.mp4", 0), entry("a.webm", 3), entry("a.mkv", 0)];
    let failure = Some("device lost".to_string());
    let (_, step) = machine.step(Event::Listed { entries, failure });
    assert_eq!(step.cleanup, vec!["output/a.mp4", "output/a.mkv"]);
    assert_eq!(
        step.action,
        Action::Finish { result: Err(Error::Downloading("device lost".to_string())) }
    );
}

#[test]
fn a_name_without_stem_is_an_error() {
    let wanted = settings(SubtitleMode::Download, MissingSubtitlePolicy::Strict);
    let (machine, _) = MediaDownload::start(item(1), &wanted);
    let (machine, _) = machine.step(Event::DetailsFetched(Ok(response(Some("v"), Some("s")))));
    let (_, step) = machine.step(Event::Named(Ok("..".to_string())));
    assert_eq!(step.cleanup, vec!["output/...tmp"]);
    assert_eq!(
        step.action,
        Action::Finish { result: Err(Error::InvalidPathEncoding("..".to_string())) }
    );
}
