use cat_show_downloader::cli::{
    CatShowDownloaderArgs, Command, DownloadArgs, DownloadTargetArgs, MetadataArgs,
    MetadataTargetArgs,
};
use cat_show_downloader::error::Failure;
use cat_show_downloader::models::{
    DownloadSettings, MediaType, MissingSubtitlePolicy, SubtitleMode,
};
use cat_show_downloader::run::{resolve_subtitle_settings, Run, RunAction, RunEvent};

#[test]
fn test_should_prioritize_skip_subtitles_over_allow_missing_subtitles() {
    let (subtitle_mode, missing_subtitle_policy) = resolve_subtitle_settings(true, true, true);

    assert_eq!(subtitle_mode, SubtitleMode::Skip);
    assert_eq!(missing_subtitle_policy, MissingSubtitlePolicy::AllowMissing);
}

#[test]
fn subtitle_settings() {
    for skip in [false, true] {
        for allow in [false, true] {
            for ffmpeg in [false, true] {
                let (mode, policy) = resolve_subtitle_settings(skip, allow, ffmpeg);
                let expected = match (skip, ffmpeg) {
                    (true, _) => SubtitleMode::Skip,
                    (false, true) => SubtitleMode::Embed,
                    (false, false) => SubtitleMode::Download,
                };
                assert_eq!(mode, expected);
                assert_eq!(policy == MissingSubtitlePolicy::AllowMissing, allow);
            }
        }
    }
    assert!(MissingSubtitlePolicy::AllowMissing.allows_missing());
    assert!(!MissingSubtitlePolicy::Strict.allows_missing());
}

fn download() -> DownloadArgs {
    DownloadArgs {
        target: DownloadTargetArgs {
            slug: "bola-de-drac".to_string(),
            directory: "output".to_string(),
        },
        start_from_episode: 1,
        concurrent_downloads: 2,
        skip_subtitles: false,
        allow_missing_subtitles: false,
        fix_existing_subtitles: false,
        embed_existing_subtitles: false,
    }
}

fn start(args: DownloadArgs) -> (Run, RunAction) {
    Run::start(CatShowDownloaderArgs { command: Command::Download(args) })
}

fn start_metadata() -> (Run, RunAction) {
    Run::start(CatShowDownloaderArgs {
        command: Command::Metadata(MetadataArgs {
            target: MetadataTargetArgs {
                slug: "bola-de-drac".to_string(),
                directory: "output".to_string(),
            },
        }),
    })
}

fn refusal(text: &str) -> RunAction {
    RunAction::Finish { result: Err(Failure::Message(text.to_string())) }
}

fn tools(ffmpeg_available: bool, yt_dlp_available: bool) -> RunEvent {
    RunEvent::ToolsProbed { ffmpeg_available, yt_dlp_available }
}

fn resolve() -> RunAction {
    RunAction::Resolve { slug: "bola-de-drac".to_string() }
}

#[test]
fn the_first_episode_is_number_one() {
    for n in [0, -3] {
        let (run, action) = start(DownloadArgs {
            start_from_episode: n,
            fix_existing_subtitles: true,
            ..download()
        });
        assert_eq!(action, resolve());
        let (_, action) = run.step(RunEvent::Resolved(MediaType::TvShow(9)));
        assert_eq!(action, refusal(&format!("start_from_episode must be at least 1, got {}", n)));

        let (run, _) = start(DownloadArgs { start_from_episode: n, ..download() });
        let (_, action) = run.step(RunEvent::Failed);
        assert_eq!(action, refusal(&format!("start_from_episode must be at least 1, got {}", n)));
    }
    let (_, action) = start(download());
    assert_eq!(action, RunAction::ProbeTools);
}

/// All that a run asks for, to its end, where the slug stands for a movie.
fn course_for_a_movie(args: DownloadArgs) -> Vec<RunAction> {
    let (mut run, mut action) = start(args);
    let mut course = Vec::new();
    loop {
        let event = match &action {
            RunAction::ProbeTools => tools(true, false),
            RunAction::Resolve { .. } => {
                RunEvent::Resolved(MediaType::Movie { id: 5, slug: "m".to_string() })
            }
            RunAction::Finish { .. } => {
                course.push(action);
                return course;
            }
            _ => RunEvent::Succeeded,
        };
        course.push(action);
        let (after, next) = run.step(event);
        run = after;
        action = next;
    }
}

#[test]
fn the_start_is_ignored_for_a_movie() {
    for existing in [false, true] {
        let course = |start_from_episode: i32| {
            course_for_a_movie(DownloadArgs {
                start_from_episode,
                fix_existing_subtitles: existing,
                embed_existing_subtitles: existing,
                ..download()
            })
        };
        let work = |course: &Vec<RunAction>| {
            format!("{:?}", course.iter().filter(|a| **a != resolve()).collect::<Vec<_>>())
        };
        let expected = course(1);
        assert_eq!(expected.len(), if existing { 6 } else { 4 });
        for start_from_episode in [0, -3, 7] {
            let other = course(start_from_episode);
            assert_eq!(other.len(), expected.len());
            assert_eq!(work(&other), work(&expected));
        }
    }
}

#[test]
fn a_movie_with_a_start_below_one_is_downloaded() {
    let (run, action) = start(DownloadArgs {
        start_from_episode: 0,
        fix_existing_subtitles: true,
        embed_existing_subtitles: true,
        ..download()
    });
    assert_eq!(action, resolve());
    let movie = MediaType::Movie { id: 5, slug: "m".to_string() };
    let (run, action) = run.step(RunEvent::Resolved(movie));
    assert_eq!(action, RunAction::FixSubtitles { directory: "output".to_string() });
    let (run, action) = run.step(RunEvent::Succeeded);
    assert_eq!(action, RunAction::ProbeTools);
    let (run, action) = run.step(tools(true, true));
    assert_eq!(action, RunAction::EmbedSubtitles { directory: "output".to_string() });
    let (run, action) = run.step(RunEvent::Succeeded);
    assert_eq!(
        action,
        RunAction::DownloadMovie {
            id: 5,
            slug: "m".to_string(),
            settings: DownloadSettings {
                subtitle_mode: SubtitleMode::Embed,
                missing_subtitle_policy: MissingSubtitlePolicy::Strict,
                concurrent_downloads: 2,
                directory: "output".to_string(),
                yt_dlp_available: true,
            },
        }
    );
    let (_, action) = run.step(RunEvent::Succeeded);
    assert_eq!(action, RunAction::Finish { result: Ok(()) });
}

#[test]
fn a_tv_show_is_downloaded() {
    let (run, _) = start(DownloadArgs { start_from_episode: 4, ..download() });
    let (run, action) = run.step(tools(false, true));
    assert_eq!(action, resolve());
    let (run, action) = run.step(RunEvent::Resolved(MediaType::TvShow(9)));
    assert_eq!(
        action,
        RunAction::DownloadTvShow {
            id: 9,
            start_from_episode: 4,
            settings: DownloadSettings {
                subtitle_mode: SubtitleMode::Download,
                missing_subtitle_policy: MissingSubtitlePolicy::Strict,
                concurrent_downloads: 2,
                directory: "output".to_string(),
                yt_dlp_available: true,
            },
        }
    );
    let (_, action) = run.step(RunEvent::Succeeded);
    assert_eq!(action, RunAction::Finish { result: Ok(()) });
}

#[test]
fn existing_subtitles_come_first() {
    let (run, action) = start(DownloadArgs {
        fix_existing_subtitles: true,
        embed_existing_subtitles: true,
        allow_missing_subtitles: true,
        ..download()
    });
    assert_eq!(action, RunAction::FixSubtitles { directory: "output".to_string() });
    let (run, action) = run.step(RunEvent::Succeeded);
    assert_eq!(action, RunAction::ProbeTools);
    let (run, action) = run.step(tools(true, false));
    assert_eq!(action, RunAction::EmbedSubtitles { directory: "output".to_string() });
    let (run, action) = run.step(RunEvent::Succeeded);
    assert_eq!(action, resolve());
    let movie = MediaType::Movie { id: 5, slug: "m".to_string() };
    let (_, action) = run.step(RunEvent::Resolved(movie));
    assert_eq!(
        action,
        RunAction::DownloadMovie {
            id: 5,
            slug: "m".to_string(),
            settings: DownloadSettings {
                subtitle_mode: SubtitleMode::Embed,
                missing_subtitle_policy: MissingSubtitlePolicy::AllowMissing,
                concurrent_downloads: 2,
                directory: "output".to_string(),
                yt_dlp_available: false,
            },
        }
    );
}

#[test]
fn embedding_needs_ffmpeg() {
    let (run, _) = start(DownloadArgs { embed_existing_subtitles: true, ..download() });
    let (_, action) = run.step(tools(false, false));
    assert_eq!(
        action,
        refusal("--embed-existing-subtitles requires ffmpeg, but ffmpeg was not found on PATH")
    );
}

#[test]
fn a_failure_ends_the_run() {
    let reported = RunAction::Finish { result: Err(Failure::Reported) };

    let (run, _) = start(DownloadArgs { fix_existing_subtitles: true, ..download() });
    assert_eq!(run.step(RunEvent::Failed).1, reported);

    let (run, _) = start(download());
    let (run, _) = run.step(tools(true, true));
    assert_eq!(run.step(RunEvent::Failed).1, reported);

    let (run, _) = start_metadata();
    assert_eq!(run.step(RunEvent::Failed).1, reported);

    let (run, _) = start_metadata();
    let (run, _) = run.step(RunEvent::Resolved(MediaType::TvShow(3)));
    assert_eq!(run.step(RunEvent::Failed).1, reported);
}

#[test]
fn metadata_are_those_of_a_tv_show() {
    let (run, action) = start_metadata();
    assert_eq!(action, resolve());
    let (_, action) = run.step(RunEvent::Resolved(MediaType::TvShow(3)));
    assert_eq!(
        action,
        RunAction::WriteMetadata {
            tv_show_id: 3,
            slug: "bola-de-drac".to_string(),
            directory: "output".to_string(),
        }
    );

    let (run, _) = start_metadata();
    let movie = MediaType::Movie { id: 5, slug: "a-movie".to_string() };
    let (_, action) = run.step(RunEvent::Resolved(movie));
    assert_eq!(
        action,
        refusal("metadata subcommand only supports TV show slugs, but 'a-movie' resolved to a movie")
    );
}
