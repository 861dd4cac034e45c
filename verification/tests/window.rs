use voxl::app::{quit_on_escape, ResumeApp};
use voxl::input::{ElementState, KeyCode, KeyboardEvent};
use voxl::window::{screen_size, window, ScreenSize, WinEvent};

#[test]
fn window_routes_events_to_their_channels() {
    let key = KeyboardEvent { key: KeyCode::W, state: ElementState::Pressed };
    let events = vec![
        WinEvent::CloseRequested,
        WinEvent::Keyboard(key),
        WinEvent::Resized(ScreenSize { width: 800, height: 600 }),
        WinEvent::Other,
        WinEvent::ScaleFactorChanged(ScreenSize { width: 1600, height: 1200 }),
    ];
    let mut keyboard = Vec::new();
    let mut sizes = Vec::new();
    window(&events, &mut keyboard, &mut sizes);
    assert_eq!(keyboard, vec![key]);
    assert_eq!(
        sizes,
        vec![
            ScreenSize { width: 800, height: 600 },
            ScreenSize { width: 1600, height: 1200 },
        ]
    );
}

#[test]
fn window_appends_to_channels_in_order() {
    let key = KeyboardEvent { key: KeyCode::A, state: ElementState::Released };
    let mut keyboard = vec![KeyboardEvent { key: KeyCode::D, state: ElementState::Pressed }];
    let mut sizes = Vec::new();
    window(&vec![WinEvent::Keyboard(key)], &mut keyboard, &mut sizes);
    assert_eq!(keyboard.len(), 2);
    assert_eq!(keyboard[1], key);
    assert!(sizes.is_empty());
}

#[test]
fn screen_size_takes_the_last_reported_size() {
    let mut sc = ScreenSize { width: 100, height: 100 };
    screen_size(
        &vec![
            ScreenSize { width: 640, height: 480 },
            ScreenSize { width: 1920, height: 1080 },
        ],
        &mut sc,
    );
    assert_eq!(sc, ScreenSize { width: 1920, height: 1080 });

    screen_size(&vec![], &mut sc);
    assert_eq!(sc, ScreenSize { width: 1920, height: 1080 });
}

#[test]
fn resume_app_defaults_to_running_and_ends() {
    let mut resume = ResumeApp::default();
    assert!(resume.0);
    resume.end();
    assert!(!resume.0);
}

#[test]
fn escape_press_ends_the_run() {
    let mut resume = ResumeApp::default();
    quit_on_escape(
        &vec![KeyboardEvent { key: KeyCode::Escape, state: ElementState::Released }],
        &mut resume,
    );
    assert!(resume.0, "a release of escape must not end the run");

    quit_on_escape(
        &vec![
            KeyboardEvent { key: KeyCode::W, state: ElementState::Pressed },
            KeyboardEvent { key: KeyCode::Escape, state: ElementState::Pressed },
        ],
        &mut resume,
    );
    assert!(!resume.0);

    // Once ended, the run stays ended.
    quit_on_escape(&vec![], &mut resume);
    assert!(!resume.0);
}
