use toast_notifier::error::NotifierError;
use toast_notifier::platform::{Action, Platform, Reply, Stream};
use toast_notifier::sound::{
    check_format, file_uri, play_sound_file, play_system_sound, playback_script,
    resolve_system_sound, sound_event_for, sound_format, Playback, PLAY_MILLIS, START_MILLIS,
};

fn actions_until_end(mut playback: Playback, replies: &mut dyn FnMut(Action, &str) -> Reply)
    -> (Vec<(Action, String)>, Result<(), NotifierError>) {
    let mut seen = Vec::new();
    loop {
        match playback.effect() {
            Some(effect) => {
                assert!(playback.outcome().is_none());
                let reply = replies(effect.action, &effect.text);
                seen.push((effect.action, effect.text));
                playback = playback.resume(reply);
            }
            None => return (seen, playback.outcome().expect("a finished playback has an outcome")),
        }
    }
}

#[test]
fn system_sound_aliases() {
    assert_eq!(resolve_system_sound("default"), "Notification.Default");
    assert_eq!(resolve_system_sound("notification.default"), "Notification.Default");
    assert_eq!(resolve_system_sound("mail"), "Notification.Mail");
    assert_eq!(resolve_system_sound("notification.mail"), "Notification.Mail");
    assert_eq!(resolve_system_sound("reminder"), "Notification.Reminder");
    assert_eq!(resolve_system_sound("notification.reminder"), "Notification.Reminder");
    assert_eq!(resolve_system_sound("im"), "Notification.IM");
    assert_eq!(resolve_system_sound("notification.im"), "Notification.IM");
    assert_eq!(resolve_system_sound("alarm"), "Alarm.Default");
    assert_eq!(resolve_system_sound("alarm.default"), "Alarm.Default");
}

#[test]
fn system_sound_ignores_case() {
    assert_eq!(resolve_system_sound("IM"), "Notification.IM");
    assert_eq!(resolve_system_sound("im"), "Notification.IM");
    assert_eq!(resolve_system_sound("Im"), "Notification.IM");
    assert_eq!(resolve_system_sound("iM"), "Notification.IM");
    assert_eq!(resolve_system_sound("Notification.Default"), "Notification.Default");
    assert_eq!(resolve_system_sound("NOTIFICATION.REMINDER"), "Notification.Reminder");
    assert_eq!(resolve_system_sound("MaIl"), "Notification.Mail");
    assert_eq!(resolve_system_sound("ALARM"), "Alarm.Default");
}

#[test]
fn unknown_system_sound_is_kept() {
    assert_eq!(resolve_system_sound("Notification.Looping.Call"), "Notification.Looping.Call");
    assert_eq!(resolve_system_sound("Chime"), "Chime");
    assert_eq!(resolve_system_sound(""), "");
    assert_eq!(resolve_system_sound(" im"), " im");
    assert_eq!(resolve_system_sound("alarms"), "alarms");
}

#[test]
fn sound_event_goes_by_the_lowercase_form() {
    assert_eq!(sound_event_for("Whatever", "mail"), "Notification.Mail");
    assert_eq!(sound_event_for("Whatever", "MAIL"), "Whatever");
    assert_eq!(sound_event_for("Whatever", "whatever"), "Whatever");
}

#[test]
fn system_sound_is_reported_not_played() {
    let script = play_system_sound(Platform::Windows, "Mail");
    let effect = script.effect().expect("one line to print");
    assert_eq!(effect.action, Action::Print(Stream::Error));
    assert_eq!(effect.text, "[INFO] System sound: Notification.Mail");
    let script = script.resume(Reply::Done);
    assert!(script.effect().is_none());
    assert!(matches!(script.outcome(), Some(Ok(()))));
}

#[test]
fn system_sound_is_refused_off_windows() {
    let script = play_system_sound(Platform::Other, "mail");
    assert!(script.effect().is_none());
    match script.outcome() {
        Some(Err(error)) => {
            assert!(matches!(error, NotifierError::UnsupportedPlatform { .. }));
            assert_eq!(error.message(), "Sound playback is only supported on Windows");
        }
        other => panic!("unexpected outcome {:?}", other),
    }
}

#[test]
fn format_of_a_path() {
    assert_eq!(sound_format("chime.wav"), "wav");
    assert_eq!(sound_format("chime.WAV"), "wav");
    assert_eq!(sound_format("dir.d/chime.Mp3"), "mp3");
    assert_eq!(sound_format("chime"), "");
    assert_eq!(sound_format(".hidden"), "");
    assert_eq!(sound_format("archive.tar.GZ"), "gz");
}

#[test]
fn only_wav_is_playable() {
    assert!(check_format("wav").is_ok());
    match check_format("mp3") {
        Err(NotifierError::UnsupportedFormat { extension }) => assert_eq!(extension, "mp3"),
        other => panic!("unexpected result {:?}", other),
    }
    assert!(matches!(check_format(""), Err(NotifierError::UnsupportedFormat { .. })));
    assert!(matches!(check_format("WAV"), Err(NotifierError::UnsupportedFormat { .. })));
    assert!(matches!(check_format("wave"), Err(NotifierError::UnsupportedFormat { .. })));
}

#[test]
fn uri_of_an_absolute_path() {
    assert_eq!(file_uri("C:\\Sounds\\chime.wav"), "file:///C:/Sounds/chime.wav");
    assert_eq!(file_uri("\\\\?\\C:\\a b\\c.wav"), "file://///?/C:/a b/c.wav");
    assert_eq!(file_uri("/tmp/chime.wav"), "file:////tmp/chime.wav");
    assert_eq!(file_uri(""), "file:///");
}

#[test]
fn missing_file_is_not_found() {
    let playback = play_sound_file(Platform::Windows, "nowhere.wav");
    let (seen, result) = actions_until_end(playback, &mut |_, _| Reply::Flag(false));
    assert_eq!(seen, vec![(Action::PathExists, "nowhere.wav".to_string())]);
    match result {
        Err(NotifierError::NotFound { path }) => assert_eq!(path, "nowhere.wav"),
        other => panic!("unexpected result {:?}", other),
    }
}

#[test]
fn missing_file_message() {
    let playback = play_sound_file(Platform::Windows, "nowhere.mp3");
    let (_, result) = actions_until_end(playback, &mut |_, _| Reply::Flag(false));
    let error = result.unwrap_err();
    assert!(matches!(error, NotifierError::NotFound { .. }));
    assert_eq!(error.message(), "Sound file not found: nowhere.mp3");
}

#[test]
fn mp3_is_refused_before_any_platform_step() {
    let playback = play_sound_file(Platform::Windows, "music/song.mp3");
    let (seen, result) = actions_until_end(playback, &mut |_, _| Reply::Flag(true));
    assert_eq!(seen, vec![(Action::PathExists, "music/song.mp3".to_string())]);
    let error = result.unwrap_err();
    match &error {
        NotifierError::UnsupportedFormat { extension } => assert_eq!(extension, "mp3"),
        other => panic!("unexpected error {:?}", other),
    }
    assert_eq!(error.message(), "Only .wav files are supported on Windows (got .mp3)");
}

#[test]
fn file_without_extension_is_refused() {
    let playback = play_sound_file(Platform::Windows, "song");
    let (_, result) = actions_until_end(playback, &mut |_, _| Reply::Flag(true));
    let error = result.unwrap_err();
    assert_eq!(error.message(), "Only .wav files are supported on Windows (got .)");
}

#[test]
fn wav_file_is_played() {
    let playback = play_sound_file(Platform::Windows, "chime.WAV");
    let (seen, result) = actions_until_end(playback, &mut |action, _| match action {
        Action::PathExists => Reply::Flag(true),
        Action::Canonicalize => Reply::Text("C:\\Sounds\\chime.WAV".to_string()),
        _ => Reply::Done,
    });
    assert!(result.is_ok());
    assert_eq!(
        seen,
        vec![
            (Action::PathExists, "chime.WAV".to_string()),
            (Action::Canonicalize, "chime.WAV".to_string()),
            (Action::CreateUri, "file:///C:/Sounds/chime.WAV".to_string()),
            (Action::CreateMediaSource, String::new()),
            (Action::CreateMediaPlayer, String::new()),
            (Action::SetMediaSource, String::new()),
            (Action::Play, String::new()),
            (Action::Sleep(100), String::new()),
            (Action::Sleep(3000), String::new()),
        ]
    );
    assert_eq!((START_MILLIS, PLAY_MILLIS), (100, 3000));
}

#[test]
fn unresolved_path_fails_with_its_context() {
    let playback = play_sound_file(Platform::Windows, "chime.wav");
    let (seen, result) = actions_until_end(playback, &mut |action, _| match action {
        Action::PathExists => Reply::Flag(true),
        _ => Reply::Failed("no such device".to_string()),
    });
    assert_eq!(seen.len(), 2);
    let error = result.unwrap_err();
    assert!(matches!(error, NotifierError::PlatformError { .. }));
    assert_eq!(error.message(), "Failed to get absolute path: no such device");
}

#[test]
fn a_reply_without_a_path_fails_without_a_cause() {
    let playback = play_sound_file(Platform::Windows, "chime.wav");
    let (_, result) = actions_until_end(playback, &mut |action, _| match action {
        Action::PathExists => Reply::Flag(true),
        _ => Reply::Done,
    });
    assert_eq!(result.unwrap_err().message(), "Failed to get absolute path");
}

#[test]
fn playback_fails_at_each_step_with_its_context() {
    let contexts = [
        "Failed to create URI",
        "Failed to create media source",
        "Failed to create media player",
        "Failed to set media source",
        "Failed to play sound",
    ];
    for (step, context) in contexts.iter().enumerate() {
        let mut script = playback_script("/abs/chime.wav");
        for _ in 0..step {
            script = script.resume(Reply::Done);
        }
        script = script.resume(Reply::Failed("0x80070002".to_string()));
        assert!(script.effect().is_none());
        match script.outcome() {
            Some(Err(error)) => assert_eq!(error.message(), format!("{}: 0x80070002", context)),
            other => panic!("unexpected outcome {:?}", other),
        }
    }
}

#[test]
fn sound_file_is_refused_off_windows() {
    let playback = play_sound_file(Platform::Other, "chime.wav");
    assert!(playback.effect().is_none());
    let (seen, result) = actions_until_end(playback, &mut |_, _| Reply::Done);
    assert!(seen.is_empty());
    let error = result.unwrap_err();
    assert!(matches!(error, NotifierError::UnsupportedPlatform { .. }));
    assert_eq!(error.message(), "Sound playback is only supported on Windows");
}
