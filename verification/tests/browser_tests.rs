use qservo_browser::browser::{
    BrowserId, EmbedderEvent, EmbedderMsg, MultipleContextsError, PipelineId, QServoBrowser,
};

#[test]
fn fresh_manager_has_no_identity_and_empty_queue() {
    let mut browser = QServoBrowser::default();
    assert!(browser.browser_id().is_none());
    assert!(browser.get_events().is_empty());
}

#[test]
fn no_creation_leaves_identity_absent() {
    let mut browser = QServoBrowser::default();
    let r = browser.handle_servo_events(vec![
        (None, EmbedderMsg::AllowNavigationRequest(PipelineId(3), "https://a.example/".to_string())),
        (None, EmbedderMsg::LoadStart),
        (None, EmbedderMsg::Other("Status".to_string())),
    ]);
    assert!(r.is_ok());
    assert!(browser.browser_id().is_none());
}

#[test]
fn single_creation_assigns_identity_and_queues_select() {
    let mut browser = QServoBrowser::default();
    let r = browser.handle_servo_events(vec![(
        None,
        EmbedderMsg::BrowserCreated(BrowserId(7)),
    )]);
    assert!(r.is_ok());
    assert_eq!(browser.browser_id(), Some(BrowserId(7)));
    assert_eq!(browser.get_events(), vec![EmbedderEvent::SelectBrowser(BrowserId(7))]);
}

#[test]
fn second_creation_in_one_batch_is_fatal() {
    let mut browser = QServoBrowser::default();
    let r = browser.handle_servo_events(vec![
        (None, EmbedderMsg::BrowserCreated(BrowserId(1))),
        (None, EmbedderMsg::BrowserCreated(BrowserId(2))),
    ]);
    assert_eq!(r.err(), Some(MultipleContextsError));
    // The batch died at the second creation; what came before is kept.
    assert_eq!(browser.browser_id(), Some(BrowserId(1)));
    assert_eq!(browser.get_events(), vec![EmbedderEvent::SelectBrowser(BrowserId(1))]);
}

#[test]
fn creation_across_batches_is_fatal_too() {
    let mut browser = QServoBrowser::default();
    let first = browser.handle_servo_events(vec![(
        None,
        EmbedderMsg::BrowserCreated(BrowserId(1)),
    )]);
    assert!(first.is_ok());
    let second = browser.handle_servo_events(vec![(
        None,
        EmbedderMsg::BrowserCreated(BrowserId(2)),
    )]);
    assert_eq!(second.err(), Some(MultipleContextsError));
    assert_eq!(browser.browser_id(), Some(BrowserId(1)));
}

#[test]
fn navigation_request_before_creation_is_dropped() {
    let mut browser = QServoBrowser::default();
    let r = browser.handle_servo_events(vec![(
        None,
        EmbedderMsg::AllowNavigationRequest(PipelineId(11), "https://p.example/".to_string()),
    )]);
    assert!(r.is_ok());
    assert!(browser.get_events().is_empty());
}

#[test]
fn navigation_request_after_creation_is_granted() {
    let mut browser = QServoBrowser::default();
    let r = browser.handle_servo_events(vec![
        (None, EmbedderMsg::BrowserCreated(BrowserId(4))),
        (None, EmbedderMsg::AllowNavigationRequest(PipelineId(9), "https://p.example/".to_string())),
    ]);
    assert!(r.is_ok());
    assert_eq!(
        browser.get_events(),
        vec![
            EmbedderEvent::SelectBrowser(BrowserId(4)),
            EmbedderEvent::AllowNavigationResponse(PipelineId(9), true),
        ]
    );
}

#[test]
fn repeated_title_changes_keep_only_the_last() {
    let mut browser = QServoBrowser::default();
    let delta = browser
        .handle_servo_events(vec![
            (None, EmbedderMsg::ChangePageTitle(Some("A".to_string()))),
            (None, EmbedderMsg::ChangePageTitle(Some("B".to_string()))),
        ])
        .unwrap_or_else(|_| panic!("batch must complete"));
    assert_eq!(delta.title, Some("B".to_string()));
}

#[test]
fn title_change_may_report_no_title() {
    let mut browser = QServoBrowser::default();
    let delta = browser
        .handle_servo_events(vec![
            (None, EmbedderMsg::ChangePageTitle(Some("A".to_string()))),
            (None, EmbedderMsg::ChangePageTitle(None)),
        ])
        .unwrap_or_else(|_| panic!("batch must complete"));
    assert_eq!(delta.title, None);
}

#[test]
fn quiet_batch_yields_all_unset_delta() {
    let mut browser = QServoBrowser::default();
    let delta = browser
        .handle_servo_events(vec![
            (None, EmbedderMsg::BrowserCreated(BrowserId(2))),
            (None, EmbedderMsg::AllowNavigationRequest(PipelineId(5), "https://q.example/".to_string())),
            (None, EmbedderMsg::Other("Shutdown".to_string())),
        ])
        .unwrap_or_else(|_| panic!("batch must complete"));
    assert_eq!(delta.favicon_url, None);
    assert_eq!(delta.present, None);
    assert_eq!(delta.title, None);
    assert_eq!(delta.loading, None);
}

#[test]
fn empty_batch_yields_all_unset_delta() {
    let mut browser = QServoBrowser::default();
    let delta = browser
        .handle_servo_events(Vec::new())
        .unwrap_or_else(|_| panic!("batch must complete"));
    assert_eq!(delta.favicon_url, None);
    assert_eq!(delta.present, None);
    assert_eq!(delta.title, None);
    assert_eq!(delta.loading, None);
}

#[test]
fn delta_does_not_remember_earlier_batches() {
    let mut browser = QServoBrowser::default();
    let first = browser
        .handle_servo_events(vec![(None, EmbedderMsg::LoadStart)])
        .unwrap_or_else(|_| panic!("batch must complete"));
    assert_eq!(first.loading, Some(true));
    let second = browser
        .handle_servo_events(vec![(None, EmbedderMsg::ReadyToPresent)])
        .unwrap_or_else(|_| panic!("batch must complete"));
    assert_eq!(second.loading, None);
    assert_eq!(second.present, Some(true));
}

#[test]
fn load_start_and_complete_set_loading() {
    let mut browser = QServoBrowser::default();
    let started = browser
        .handle_servo_events(vec![(None, EmbedderMsg::LoadStart)])
        .unwrap_or_else(|_| panic!("batch must complete"));
    assert_eq!(started.loading, Some(true));
    let finished = browser
        .handle_servo_events(vec![(None, EmbedderMsg::LoadStart), (None, EmbedderMsg::LoadComplete)])
        .unwrap_or_else(|_| panic!("batch must complete"));
    assert_eq!(finished.loading, Some(false));
}

#[test]
fn favicon_update_sets_favicon_url() {
    let mut browser = QServoBrowser::default();
    let delta = browser
        .handle_servo_events(vec![(
            None,
            EmbedderMsg::NewFavicon("https://f.example/favicon.ico".to_string()),
        )])
        .unwrap_or_else(|_| panic!("batch must complete"));
    assert_eq!(delta.favicon_url, Some("https://f.example/favicon.ico".to_string()));
}

#[test]
fn unrecognized_notification_has_no_state_effect() {
    let mut browser = QServoBrowser::default();
    let delta = browser
        .handle_servo_events(vec![(None, EmbedderMsg::Other("WebResourceRequested".to_string()))])
        .unwrap_or_else(|_| panic!("batch must complete"));
    assert_eq!(delta.favicon_url, None);
    assert_eq!(delta.present, None);
    assert_eq!(delta.title, None);
    assert_eq!(delta.loading, None);
    assert!(browser.browser_id().is_none());
    assert!(browser.get_events().is_empty());
}

#[test]
fn drain_is_consuming() {
    let mut browser = QServoBrowser::default();
    browser.push_event(EmbedderEvent::SelectBrowser(BrowserId(1)));
    let first = browser.get_events();
    assert!(!first.is_empty());
    let second = browser.get_events();
    assert!(second.is_empty());
}

#[test]
fn drain_returns_commands_in_fifo_order() {
    let mut browser = QServoBrowser::default();
    browser.push_event(EmbedderEvent::SelectBrowser(BrowserId(1)));
    browser.push_event(EmbedderEvent::AllowNavigationResponse(PipelineId(2), true));
    browser.push_event(EmbedderEvent::AllowNavigationResponse(PipelineId(3), false));
    assert_eq!(
        browser.get_events(),
        vec![
            EmbedderEvent::SelectBrowser(BrowserId(1)),
            EmbedderEvent::AllowNavigationResponse(PipelineId(2), true),
            EmbedderEvent::AllowNavigationResponse(PipelineId(3), false),
        ]
    );
    browser.push_event(EmbedderEvent::SelectBrowser(BrowserId(4)));
    assert_eq!(browser.get_events(), vec![EmbedderEvent::SelectBrowser(BrowserId(4))]);
}
