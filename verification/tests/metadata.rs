use cat_show_downloader::api_structs::{
    MetadataDateFields, MetadataDateValue, MetadataEpisode, MetadataEpisodesRoot, MetadataImage,
    MetadataItems, MetadataMainResponse, Tv3Error,
};
use cat_show_downloader::error::{Error, Failure};
use cat_show_downloader::metadata::{
    cover_file_name, episode_list_url, extension_from_url, map_episode_metadata,
    media_item_from_episode, metadata_file_path, normalize_optional_string, normalize_string,
    select_cover_url, ExtractedEpisodeMetadata,
};
use cat_show_downloader::metadata_run::{
    ManifestError, MetadataAction, MetadataEvent, MetadataOutputEntry, MetadataRun, MetadataStep,
};
use cat_show_downloader::transfer::{ResponseHead, Transfer, TransferAction, TransferEvent};

fn image(size: &str, relation: &str, url: &str) -> MetadataImage {
    MetadataImage {
        size: Some(size.to_string()),
        relation_name: Some(relation.to_string()),
        url: url.to_string(),
    }
}

#[test]
fn test_should_extract_requested_metadata_and_cover_variant() {
    let episode = MetadataEpisode {
        id: 42,
        number_of_episode: 7,
        permatitle: "fallback-title".to_string(),
        title: Some("Episode title".to_string()),
        tv_show_name: "Sample show".to_string(),
        publication_date: Some(MetadataDateValue::Text("2024-01-01".to_string())),
        emission_date: Some(MetadataDateValue::Structured(MetadataDateFields {
            text: Some("01/02/2024".to_string()),
            utc: Some("2024-02-01T00:00:00Z".to_string()),
        })),
        images: vec![
            MetadataImage {
                size: Some("small".to_string()),
                relation_name: Some("KEYVIDEO".to_string()),
                url: "https://example.invalid/small.jpg".to_string(),
            },
            MetadataImage {
                size: Some("master".to_string()),
                relation_name: Some("KEYVIDEO".to_string()),
                url: "https://example.invalid/master.jpg".to_string(),
            },
        ],
    };

    assert_eq!(
        map_episode_metadata(&episode),
        ExtractedEpisodeMetadata {
            title: Some("Episode title".to_string()),
            publication_date: Some("2024-01-01".to_string()),
            emission_date: Some("2024-02-01T00:00:00Z".to_string()),
        }
    );
    assert_eq!(select_cover_url(&episode.images), Some("https://example.invalid/master.jpg"));
}

#[test]
fn test_should_match_cover_variant_when_live_payload_uses_uppercase_master() {
    let images = vec![MetadataImage {
        size: Some("MASTER".to_string()),
        relation_name: Some("KEYVIDEO".to_string()),
        url: "https://example.invalid/uppercase-size.jpg".to_string(),
    }];

    assert_eq!(select_cover_url(&images), Some("https://example.invalid/uppercase-size.jpg"));
}

#[test]
fn test_should_not_match_cover_variant_when_relation_name_casing_differs() {
    let images = vec![MetadataImage {
        size: Some("master".to_string()),
        relation_name: Some("keyvideo".to_string()),
        url: "https://example.invalid/lowercase-relation.jpg".to_string(),
    }];

    assert_eq!(select_cover_url(&images), None);
}

#[test]
fn the_first_cover_is_taken() {
    let mut images = vec![
        image("master", "OTHER", "a"),
        image("Master", "KEYVIDEO", "b"),
        image("master", "KEYVIDEO", "c"),
    ];
    assert_eq!(select_cover_url(&images), Some("b"));
    images[1].size = None;
    assert_eq!(select_cover_url(&images), Some("c"));
    images[2].relation_name = None;
    assert_eq!(select_cover_url(&images), None);
    assert_eq!(select_cover_url(&[]), None);
}

#[test]
fn dates_for_output() {
    let structured = |text: Option<&str>, utc: Option<&str>| {
        MetadataDateValue::Structured(MetadataDateFields {
            text: text.map(|s| s.to_string()),
            utc: utc.map(|s| s.to_string()),
        })
    };
    assert_eq!(structured(Some("t"), Some("u")).into_output_string().as_deref(), Some("u"));
    assert_eq!(structured(Some("t"), None).into_output_string().as_deref(), Some("t"));
    assert_eq!(structured(None, None).into_output_string(), None);
    assert_eq!(structured(Some("t"), Some("")).into_output_string().as_deref(), Some(""));
    assert_eq!(MetadataDateValue::Text(" \t".to_string()).into_output_string(), None);
    assert_eq!(
        MetadataDateValue::Text(" 2024 ".to_string()).into_output_string().as_deref(),
        Some(" 2024 ")
    );
}

#[test]
fn blank_texts_are_missing() {
    assert_eq!(normalize_string(" \u{a0}\n".to_string()), None);
    assert_eq!(normalize_string("".to_string()), None);
    assert_eq!(normalize_string(" a b ".to_string()).as_deref(), Some("a b"));
    assert_eq!(normalize_optional_string(None), None);
    assert_eq!(normalize_optional_string(Some("\tx".to_string())).as_deref(), Some("x"));
    let once = normalize_string(" a b ".to_string()).unwrap();
    assert_eq!(normalize_string(once.clone()), Some(once));
}

#[test]
fn the_permanent_title_fills_in() {
    let mut episode = episode(102, 2, Some("  "), Vec::new());
    let item = media_item_from_episode(&episode);
    assert_eq!(item.id, 102);
    assert_eq!(item.title, "permatitle-102");
    assert_eq!(item.video_url, None);
    assert_eq!(item.subtitle_url, None);
    assert_eq!(item.episode_number, Some(2));
    assert_eq!(item.tv_show_name.as_deref(), Some("Sample Show"));
    episode.title = Some(" Two ".to_string());
    assert_eq!(media_item_from_episode(&episode).title, "Two");
}

#[test]
fn extensions_of_urls() {
    assert_eq!(extension_from_url("https://example.invalid/a/master.JPG"), "jpg");
    assert_eq!(extension_from_url("https://example.invalid/a/b.png?x=y.gif"), "png");
    assert_eq!(extension_from_url("https://example.invalid/a/b?x=y.gif"), "jpg");
    assert_eq!(extension_from_url("https://example.invalid/a/b.png?x?y.gif"), "png");
    assert_eq!(extension_from_url("x.png"), "png");
    assert_eq!(extension_from_url("https://example.invalid/a/b."), "jpg");
    assert_eq!(extension_from_url("https://example.invalid/a/.webp"), "jpg");
    assert_eq!(extension_from_url("https://example.invalid/a/b.webp/"), "webp");
    assert_eq!(extension_from_url(""), "jpg");
    assert_eq!(extension_from_url("?a.png"), "jpg");
    assert_eq!(extension_from_url("https://example.invalid"), "invalid");
}

#[test]
fn file_names() {
    assert_eq!(metadata_file_path("output", "sample-show"), "output/sample-show-metadata.json");
    assert_eq!(
        cover_file_name("1-episode-one", 101, "http://127.0.0.1/cover.jpg"),
        "1-episode-one-cover-101.jpg"
    );
    assert_ne!(
        cover_file_name("a", 5, "http://127.0.0.1/cover.jpg"),
        cover_file_name("a", -5, "http://127.0.0.1/cover.jpg")
    );
}

#[test]
fn episode_lists_have_urls_of_their_own() {
    assert_eq!(
        episode_list_url(777),
        "https://www.3cat.cat/api/3cat/dades/?queryKey=%5B%22tira%22%2C%7B%22url%22%3A%22%2F%2Fapi.3cat.cat%2Fvideos%3F_format%3Djson%26no_agrupacio%3DPUAGR_LLSIGN%26tipus_contingut%3DPPD%26items_pagina%3D1500%26pagina%3D1%26sdom%3Dimg%26version%3D2.0%26cache%3D180%26https%3Dtrue%26master%3Dyes%26programatv_id%3D777%26origen%3Dauto%26perfil%3Dpc%22%7D%5D"
    );
    assert_ne!(episode_list_url(7), episode_list_url(77));
}

#[test]
fn the_api_error_has_a_text() {
    assert_eq!(Tv3Error {}.message(), "Error");
}

fn episode(id: i32, number: i32, title: Option<&str>, images: Vec<MetadataImage>) -> MetadataEpisode {
    MetadataEpisode {
        id,
        number_of_episode: number,
        permatitle: format!("permatitle-{}", id),
        title: title.map(|s| s.to_string()),
        tv_show_name: "Sample Show".to_string(),
        publication_date: None,
        emission_date: None,
        images,
    }
}

fn root(episodes: Vec<MetadataEpisode>) -> MetadataEpisodesRoot {
    MetadataEpisodesRoot {
        response: MetadataMainResponse { items: MetadataItems { item: episodes } },
    }
}

fn begin(episodes: Vec<MetadataEpisode>) -> (MetadataRun, MetadataStep) {
    let (run, step) = MetadataRun::start(777, "sample-show", "output");
    assert_eq!(
        step.action,
        MetadataAction::CreateDirectory { directory: "output".to_string() }
    );
    let (run, step) = run.step(MetadataEvent::DirectoryCreated(Ok(())));
    assert_eq!(step.action, MetadataAction::FetchEpisodes { url: episode_list_url(777) });
    run.step(MetadataEvent::EpisodesFetched(Ok(root(episodes))))
}

fn episode_one(images: Vec<MetadataImage>) -> MetadataEpisode {
    MetadataEpisode {
        id: 101,
        number_of_episode: 1,
        permatitle: "episode-one".to_string(),
        title: Some("Episode One".to_string()),
        tv_show_name: "Sample Show".to_string(),
        publication_date: Some(MetadataDateValue::Structured(MetadataDateFields {
            text: None,
            utc: Some("2024-01-01T00:00:00Z".to_string()),
        })),
        emission_date: Some(MetadataDateValue::Text("2024-01-02".to_string())),
        images,
    }
}

fn episode_two(images: Vec<MetadataImage>) -> MetadataEpisode {
    MetadataEpisode {
        id: 102,
        number_of_episode: 2,
        permatitle: "episode-two".to_string(),
        title: Some("".to_string()),
        tv_show_name: "Sample Show".to_string(),
        publication_date: None,
        emission_date: Some(MetadataDateValue::Structured(MetadataDateFields {
            text: Some("03/01/2024".to_string()),
            utc: None,
        })),
        images,
    }
}

#[test]
fn test_should_persist_metadata_json_and_download_available_covers() {
    let cover_url = "http://127.0.0.1/cover.jpg";
    let (run, step) = begin(vec![
        episode_one(vec![
            image("small", "KEYVIDEO", cover_url),
            image("master", "KEYVIDEO", cover_url),
        ]),
        episode_two(vec![image("master", "OTHER", cover_url)]),
    ]);
    match step.action {
        MetadataAction::NameItem { item } => {
            assert_eq!(item.id, 101);
            assert_eq!(item.title, "Episode One");
        }
        other => panic!("unexpected {:?}", other),
    }
    let (run, step) = run.step(MetadataEvent::Named(Ok("1-episode-one".to_string())));
    assert_eq!(
        step.action,
        MetadataAction::DownloadCover {
            url: cover_url.to_string(),
            path: "output/1-episode-one-cover-101.jpg".to_string(),
            label: "1-episode-one-cover-101.jpg".to_string(),
        }
    );
    let (run, step) = run.step(MetadataEvent::CoverDownloaded(Ok(())));
    assert_eq!(step.warning, None);
    let (path, entries) = match step.action {
        MetadataAction::WriteManifest { path, entries } => (path, entries),
        other => panic!("unexpected {:?}", other),
    };

    assert_eq!(path, "output/sample-show-metadata.json");
    assert_eq!(entries.len(), 2);
    assert_eq!(entries[0].title.as_deref(), Some("Episode One"));
    assert_eq!(entries[0].publication_date.as_deref(), Some("2024-01-01T00:00:00Z"));
    assert_eq!(entries[0].emission_date.as_deref(), Some("2024-01-02"));
    assert_eq!(entries[0].cover_path.as_deref(), Some("1-episode-one-cover-101.jpg"));
    assert_eq!(entries[1].title, None);
    assert_eq!(entries[1].publication_date, None);
    assert_eq!(entries[1].emission_date.as_deref(), Some("03/01/2024"));
    assert_eq!(entries[1].cover_path, None);

    let (_, step) = run.step(MetadataEvent::ManifestWritten(Ok(())));
    assert_eq!(step.action, MetadataAction::Finish { result: Ok(()) });
}

#[test]
fn test_should_write_metadata_when_cover_download_returns_http_error() {
    let cover_url = "http://127.0.0.1/cover.jpg";
    let (run, _) = begin(vec![episode_one(vec![image("master", "KEYVIDEO", cover_url)])]);
    let (run, step) = run.step(MetadataEvent::Named(Ok("1-episode-one".to_string())));
    let (url, path, label) = match step.action {
        MetadataAction::DownloadCover { url, path, label } => (url, path, label),
        other => panic!("unexpected {:?}", other),
    };
    let (transfer, _) = Transfer::start(&url, &path, &label);
    let head = ResponseHead { status: 404, content_length: Some(9) };
    let (_, step) = transfer.step(TransferEvent::Responded(Ok(head)));
    let reason = match step.action {
        TransferAction::Finish { result: Err(Error::Downloading(reason)) } => reason,
        other => panic!("unexpected {:?}", other),
    };
    let (run, step) = run.step(MetadataEvent::CoverDownloaded(Err(reason)));
    assert_eq!(
        step.warning.as_deref(),
        Some(
            "Failed to download cover for episode Episode One (id=101): request failed with HTTP status 404 Not Found"
        )
    );
    let entries = match step.action {
        MetadataAction::WriteManifest { entries, .. } => entries,
        other => panic!("unexpected {:?}", other),
    };
    assert_eq!(entries.len(), 1);
    assert_eq!(entries[0].title.as_deref(), Some("Episode One"));
    assert_eq!(entries[0].cover_path, None);

    let (_, step) = run.step(MetadataEvent::ManifestWritten(Ok(())));
    assert_eq!(step.action, MetadataAction::Finish { result: Ok(()) });
}

#[test]
fn a_manifest_names_the_covers_that_were_stored() {
    let cover = || vec![image("master", "KEYVIDEO", "u.png")];
    let (run, _) = begin(vec![
        episode(1, 1, Some("a"), cover()),
        episode(2, 2, Some("b"), Vec::new()),
        episode(3, 3, Some("c"), cover()),
        episode(4, 4, Some("d"), cover()),
    ]);
    let (run, _) = run.step(MetadataEvent::Named(Ok("s".to_string())));
    let (run, _) = run.step(MetadataEvent::CoverDownloaded(Ok(())));
    let (run, _) = run.step(MetadataEvent::Named(Ok("s".to_string())));
    let (run, _) = run.step(MetadataEvent::CoverDownloaded(Err("gone".to_string())));
    let (_, step) = run.step(MetadataEvent::Named(Err("no name".to_string())));
    let entries = match step.action {
        MetadataAction::WriteManifest { entries, .. } => entries,
        other => panic!("unexpected {:?}", other),
    };
    let covers: Vec<Option<&str>> = entries.iter().map(|e| e.cover_path.as_deref()).collect();
    assert_eq!(covers, vec![Some("s-cover-1.png"), None, None, None]);
}

#[test]
fn an_item_without_a_name_gets_no_cover() {
    let cover = || vec![image("master", "KEYVIDEO", "u.png")];
    let (run, _) = begin(vec![episode(1, 1, None, cover()), episode(2, 2, None, cover())]);
    let (run, step) = run.step(MetadataEvent::Named(Err("no name".to_string())));
    assert_eq!(
        step.warning.as_deref(),
        Some("Failed to download cover for episode permatitle-1 (id=1): no name")
    );
    assert!(matches!(step.action, MetadataAction::NameItem { item } if item.id == 2));
    let (run, _) = run.step(MetadataEvent::Named(Ok("s".to_string())));
    let (_, step) = run.step(MetadataEvent::CoverDownloaded(Ok(())));
    let entry = |cover_path: Option<&str>| MetadataOutputEntry {
        title: None,
        publication_date: None,
        emission_date: None,
        cover_path: cover_path.map(|s| s.to_string()),
    };
    assert_eq!(
        step.action,
        MetadataAction::WriteManifest {
            path: "output/sample-show-metadata.json".to_string(),
            entries: vec![entry(None), entry(Some("s-cover-2.png"))],
        }
    );
}

#[test]
fn a_show_without_episodes_has_an_empty_manifest() {
    let (_, step) = begin(Vec::new());
    assert!(
        matches!(step.action, MetadataAction::WriteManifest { entries, .. } if entries.is_empty())
    );
}

fn context(context: &str, cause: &str) -> MetadataAction {
    MetadataAction::Finish {
        result: Err(Failure::Context { context: context.to_string(), cause: cause.to_string() }),
    }
}

#[test]
fn failures_end_the_retrieval() {
    let (run, _) = MetadataRun::start(777, "sample-show", "output");
    let (_, step) = run.step(MetadataEvent::DirectoryCreated(Err("denied".to_string())));
    assert_eq!(step.action, context("failed to create metadata output directory 'output'", "denied"));

    let (run, _) = MetadataRun::start(777, "sample-show", "output");
    let (run, _) = run.step(MetadataEvent::DirectoryCreated(Ok(())));
    let (_, step) = run.step(MetadataEvent::EpisodesFetched(Err("no route".to_string())));
    assert_eq!(
        step.action,
        MetadataAction::Finish {
            result: Err(Failure::Known(Error::Decoding("no route".to_string())))
        }
    );

    let (run, _) = begin(Vec::new());
    let error = ManifestError::Serialize("bad".to_string());
    let (_, step) = run.step(MetadataEvent::ManifestWritten(Err(error)));
    assert_eq!(step.action, context("failed to serialize metadata manifest to JSON", "bad"));

    let (run, _) = begin(Vec::new());
    let error = ManifestError::Write("disk full".to_string());
    let (_, step) = run.step(MetadataEvent::ManifestWritten(Err(error)));
    assert_eq!(
        step.action,
        context(
            "failed to write metadata manifest 'output/sample-show-metadata.json'",
            "disk full"
        )
    );
}
