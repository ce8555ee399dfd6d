use cat_show_downloader::error::Error;
use cat_show_downloader::transfer::{
    check_status, request_failed, ResponseHead, Transfer, TransferAction, TransferEvent,
};

#[test]
fn status_codes() {
    assert_eq!(check_status(200), Ok(()));
    assert_eq!(check_status(299), Ok(()));
    assert_eq!(
        check_status(404),
        Err(Error::Downloading("request failed with HTTP status 404 Not Found".to_string()))
    );
    assert_eq!(
        check_status(999),
        Err(Error::Downloading(
            "request failed with HTTP status 999 <unknown status code>".to_string()
        ))
    );
    assert!(check_status(199).is_err());
    assert!(check_status(300).is_err());
    assert_eq!(
        request_failed("500 Internal Server Error"),
        Error::Downloading("request failed with HTTP status 500 Internal Server Error".to_string())
    );
}

fn begin() -> Transfer {
    let (transfer, step) = Transfer::start("http://127.0.0.1/cover.jpg", "out/cover.jpg", "cover.jpg");
    assert_eq!(step.cleanup, None);
    assert_eq!(
        step.action,
        TransferAction::SendRequest { url: "http://127.0.0.1/cover.jpg".to_string() }
    );
    transfer
}

fn head(status: u16, content_length: Option<u64>) -> TransferEvent {
    TransferEvent::Responded(Ok(ResponseHead { status, content_length }))
}

#[test]
fn test_should_not_leave_final_file_when_download_returns_http_error() {
    let (_, step) = begin().step(head(404, Some(9)));

    assert!(matches!(
        step.action,
        TransferAction::Finish { result: Err(Error::Downloading(message)) } if message.contains("HTTP status 404")
    ));
    assert_eq!(step.cleanup, Some("out/cover.jpg.tmp".to_string()));
}

#[test]
fn a_whole_transfer() {
    let (transfer, step) = begin().step(head(200, Some(7)));
    assert_eq!(step.action, TransferAction::CreateFile { path: "out/cover.jpg.tmp".to_string() });
    let (transfer, step) = transfer.step(TransferEvent::FileCreated(Ok(())));
    assert_eq!(
        step.action,
        TransferAction::ShowProgress { total: Some(7), label: "cover.jpg".to_string() }
    );
    let (transfer, step) = transfer.step(TransferEvent::ProgressShown(Ok(())));
    assert_eq!(step.action, TransferAction::ReadChunk { position: 0 });
    let (transfer, step) = transfer.step(TransferEvent::ChunkRead(Ok(Some(4))));
    assert_eq!(step.action, TransferAction::WriteChunk);
    let (transfer, step) = transfer.step(TransferEvent::ChunkWritten(Ok(())));
    assert_eq!(step.action, TransferAction::ReadChunk { position: 4 });
    let (transfer, _) = transfer.step(TransferEvent::ChunkRead(Ok(Some(3))));
    let (transfer, step) = transfer.step(TransferEvent::ChunkWritten(Ok(())));
    assert_eq!(step.action, TransferAction::ReadChunk { position: 7 });
    let (transfer, step) = transfer.step(TransferEvent::ChunkRead(Ok(None)));
    assert_eq!(
        step.action,
        TransferAction::Rename {
            from: "out/cover.jpg.tmp".to_string(),
            to: "out/cover.jpg".to_string(),
        }
    );
    let (_, step) = transfer.step(TransferEvent::Renamed(Ok(())));
    assert_eq!(step.action, TransferAction::Finish { result: Ok(()) });
    assert_eq!(step.cleanup, None);
}

fn failure(text: &str) -> TransferAction {
    TransferAction::Finish { result: Err(Error::Downloading(text.to_string())) }
}

#[test]
fn every_failure_ends_the_transfer() {
    let tmp = Some("out/cover.jpg.tmp".to_string());

    let (_, step) = begin().step(TransferEvent::Responded(Err("no route".to_string())));
    assert_eq!((step.cleanup, step.action), (tmp.clone(), failure("no route")));

    let (transfer, _) = begin().step(head(200, None));
    let (_, step) = transfer.step(TransferEvent::FileCreated(Err("denied".to_string())));
    assert_eq!((step.cleanup, step.action), (tmp.clone(), failure("denied")));

    let (transfer, _) = begin().step(head(200, None));
    let (transfer, step) = transfer.step(TransferEvent::FileCreated(Ok(())));
    assert_eq!(
        step.action,
        TransferAction::ShowProgress { total: None, label: "cover.jpg".to_string() }
    );
    let (_, step) = transfer.step(TransferEvent::ProgressShown(Err("template".to_string())));
    assert_eq!((step.cleanup, step.action), (tmp.clone(), failure("template")));

    let (transfer, _) = begin().step(head(200, None));
    let (transfer, _) = transfer.step(TransferEvent::FileCreated(Ok(())));
    let (transfer, _) = transfer.step(TransferEvent::ProgressShown(Ok(())));
    let (_, step) = transfer.step(TransferEvent::ChunkRead(Err("reset".to_string())));
    assert_eq!((step.cleanup, step.action), (tmp.clone(), failure("reset")));

    let (transfer, _) = begin().step(head(200, None));
    let (transfer, _) = transfer.step(TransferEvent::FileCreated(Ok(())));
    let (transfer, _) = transfer.step(TransferEvent::ProgressShown(Ok(())));
    let (transfer, _) = transfer.step(TransferEvent::ChunkRead(Ok(Some(4))));
    let (_, step) = transfer.step(TransferEvent::ChunkWritten(Err("disk full".to_string())));
    assert_eq!((step.cleanup, step.action), (tmp.clone(), failure("disk full")));

    let (transfer, _) = begin().step(head(200, None));
    let (transfer, _) = transfer.step(TransferEvent::FileCreated(Ok(())));
    let (transfer, _) = transfer.step(TransferEvent::ProgressShown(Ok(())));
    let (transfer, _) = transfer.step(TransferEvent::ChunkRead(Ok(None)));
    let (_, step) = transfer.step(TransferEvent::Renamed(Err("busy".to_string())));
    assert_eq!((step.cleanup, step.action), (None, failure("busy")));
}
