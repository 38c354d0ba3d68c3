use coverart::state::Event;
use coverart::state::Processor;

#[test]
fn initial_state_invites_a_drop() {
    let p = Processor::new();
    assert_eq!(p.message, "Drag an image here");
    assert!(p.processed_image.is_none());
    assert!(!p.is_processing);
}

#[test]
fn second_path_during_job_is_dropped_without_state_change() {
    let mut p = Processor::new();
    let job = p.handle_file_drop("a.png".to_string());
    assert_eq!(job, Some("a.png".to_string()));
    let started = p.update(Event::FileDropped(job.unwrap()));
    assert_eq!(started, Some("a.png".to_string()));
    assert!(p.is_processing);
    assert_eq!(p.message, "Processing...");
    assert!(p.processed_image.is_none());

    let message_before = p.message.clone();
    let second = p.handle_file_drop("b.png".to_string());
    assert!(second.is_none());
    assert_eq!(p.message, message_before);
    assert!(p.is_processing);
    assert!(p.processed_image.is_none());

    let resolved = p.update(Event::ImageProcessed(Ok("a_processed.png".to_string())));
    assert!(resolved.is_none());
    assert!(!p.is_processing);
    assert_eq!(p.message, "Image processed and saved");
    assert_eq!(p.processed_image, Some("a_processed.png".to_string()));
}

#[test]
fn rejected_extension_sets_error_message_and_starts_no_job() {
    let mut p = Processor::new();
    let job = p.handle_file_drop("photo.PNG".to_string());
    assert!(job.is_none());
    assert_eq!(p.message, "Error: only images are supported");
    assert!(!p.is_processing);
    assert!(p.processed_image.is_none());
}

#[test]
fn failed_job_reports_error_message() {
    let mut p = Processor::new();
    p.begin_job();
    let outcome = Err("Image cannot be opened: bad header".to_string());
    let job = p.update(Event::ImageProcessed(outcome));
    assert!(job.is_none());
    assert_eq!(p.message, "Error: Image cannot be opened: bad header");
    assert!(!p.is_processing);
    assert!(p.processed_image.is_none());
}

#[test]
fn new_job_may_start_after_resolution() {
    let mut p = Processor::new();
    p.begin_job();
    p.update(Event::ImageProcessed(Err("boom".to_string())));
    let job = p.handle_file_drop("next.bmp".to_string());
    assert_eq!(job, Some("next.bmp".to_string()));
}
