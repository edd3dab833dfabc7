use mpris_notifier::configuration::Configuration;
use mpris_notifier::dbus::DBusError;
use mpris_notifier::mpris::{BusSignal, BusValue};
use mpris_notifier::notifier::{NotificationHint, NotificationImage};
use mpris_notifier::signal_handler::{SignalHandler, SignalHandlerError};

const PLAYER: &str = "org.mpris.MediaPlayer2.Player";

fn s(x: &str) -> String {
    x.to_string()
}

fn metadata(title: &str, art_url: Option<&str>) -> BusValue {
    let mut entries = vec![
        (s("xesam:title"), BusValue::Str(s(title))),
        (s("xesam:artist"), BusValue::StrList(vec![s("Artist")])),
        (s("xesam:album"), BusValue::Str(s("Album"))),
    ];
    if let Some(url) = art_url {
        entries.push((s("mpris:artUrl"), BusValue::Str(s(url))));
    }
    BusValue::Dict(entries)
}

fn signal(sender: &str, status: Option<&str>, md: Option<BusValue>) -> BusSignal {
    let mut outer = Vec::new();
    if let Some(st) = status {
        outer.push((s("PlaybackStatus"), BusValue::Str(s(st))));
    }
    if let Some(md) = md {
        outer.push((s("Metadata"), md));
    }
    BusSignal {
        sender: Some(s(sender)),
        body: vec![BusValue::Str(s(PLAYER)), BusValue::Dict(outer), BusValue::StrList(vec![])],
    }
}

fn config() -> Configuration {
    Configuration {
        subject_format: s("{title}"),
        body_format: s("{album} - {artist}"),
        join_string: s(", "),
        enable_album_art: true,
        album_art_deadline: 1000,
        commands: vec![vec![s("pkill"), s("-RTMIN+2"), s("waybar")], vec![], vec![s("~/script.sh")]],
    }
}

/// Ticks the engine every 10 ms over `[from, to]` and collects the summaries sent.
fn run_ticks(h: &mut SignalHandler, from: u64, to: u64, sent: &mut Vec<String>) {
    let mut t = from;
    while t <= to {
        if let Some(flush) = h.handle_pending(t) {
            let call = flush.notification.expect("text is not blank");
            sent.push(call.summary);
        }
        t += 10;
    }
}

#[test]
fn resume_with_same_metadata_flushes_again() {
    let mut h = SignalHandler::new(&config());
    let mut sent = Vec::new();
    h.handle_signal(&signal(":1.1", None, Some(metadata("M", None))), 0).unwrap();
    h.handle_signal(&signal(":1.1", Some("Playing"), None), 10).unwrap();
    run_ticks(&mut h, 20, 1000, &mut sent);
    h.handle_signal(&signal(":1.1", Some("Paused"), None), 1100).unwrap();
    run_ticks(&mut h, 1110, 2000, &mut sent);
    h.handle_signal(&signal(":1.1", Some("Playing"), None), 2100).unwrap();
    run_ticks(&mut h, 2110, 3000, &mut sent);
    assert_eq!(sent, vec![s("M"), s("M")]);
}

#[test]
fn metadata_burst_flushes_once_with_latest() {
    let mut h = SignalHandler::new(&config());
    let mut sent = Vec::new();
    h.handle_signal(&signal(":1.1", None, Some(metadata("first", None))), 1000).unwrap();
    run_ticks(&mut h, 1000, 1040, &mut sent);
    h.handle_signal(&signal(":1.1", None, Some(metadata("second", None))), 1050).unwrap();
    run_ticks(&mut h, 1050, 3000, &mut sent);
    assert_eq!(sent, vec![s("second")]);
}

#[test]
fn flush_waits_for_the_full_delay() {
    let mut h = SignalHandler::new(&config());
    h.handle_signal(&signal(":1.1", None, Some(metadata("t", None))), 1000).unwrap();
    assert!(h.handle_pending(1250).is_none());
    let flush = h.handle_pending(1251).expect("due after the delay");
    assert_eq!(flush.notification.unwrap().summary, "t");
    assert!(h.handle_pending(5000).is_none());
}

#[test]
fn other_sender_playing_supersedes_pending() {
    let mut h = SignalHandler::new(&config());
    let mut sent = Vec::new();
    h.handle_signal(&signal(":1.2", None, Some(metadata("B", None))), 0).unwrap();
    run_ticks(&mut h, 0, 1000, &mut sent);
    sent.clear();
    h.handle_signal(&signal(":1.1", None, Some(metadata("A", None))), 2000).unwrap();
    h.handle_signal(&signal(":1.2", Some("Playing"), None), 2100).unwrap();
    run_ticks(&mut h, 2100, 4000, &mut sent);
    assert_eq!(sent, vec![s("B")]);
}

#[test]
fn art_failure_still_flushes_without_image() {
    let mut h = SignalHandler::new(&config());
    let url = h
        .handle_signal(&signal(":1.1", Some("Playing"), Some(metadata("T", Some("https://x/a.png")))), 0)
        .unwrap();
    assert_eq!(url, Some(s("https://x/a.png")));
    // The fetch failed: nothing is attached.
    let flush = h.handle_pending(300).expect("flushed");
    let call = flush.notification.unwrap();
    assert_eq!(call.hints.len(), 1);
    assert_eq!(call.hints[0], (s("x-canonical-private-synchronous"), NotificationHint::Text(s("mpris-notifier"))));
}

#[test]
fn attached_art_is_sent_as_image_hint() {
    let mut h = SignalHandler::new(&config());
    h.handle_signal(&signal(":1.1", Some("Playing"), Some(metadata("T", Some("file:///a.png")))), 0)
        .unwrap();
    let img = NotificationImage::from_pixels(1, 1, false, vec![1, 2, 3]).unwrap();
    h.attach_album_art(img.clone(), 200);
    assert!(h.handle_pending(300).is_none());
    let flush = h.handle_pending(451).expect("flushed");
    let call = flush.notification.unwrap();
    assert_eq!(call.hints.len(), 2);
    assert_eq!(call.hints[1], (s("image-data"), NotificationHint::Image(img)));
    assert_eq!(flush.commands, vec![vec![s("pkill"), s("-RTMIN+2"), s("waybar")], vec![s("~/script.sh")]]);
}

#[test]
fn late_art_is_dropped() {
    let mut h = SignalHandler::new(&config());
    h.handle_signal(&signal(":1.1", Some("Playing"), Some(metadata("T", None))), 0).unwrap();
    assert!(h.handle_pending(300).is_some());
    let img = NotificationImage::from_pixels(1, 1, true, vec![1, 2, 3, 4]).unwrap();
    h.attach_album_art(img, 400);
    assert!(h.handle_pending(1000).is_none());
}

#[test]
fn art_not_requested_when_disabled() {
    let mut cfg = config();
    cfg.enable_album_art = false;
    let mut h = SignalHandler::new(&cfg);
    let url = h
        .handle_signal(&signal(":1.1", Some("Playing"), Some(metadata("T", Some("https://x/a.png")))), 0)
        .unwrap();
    assert_eq!(url, None);
}

#[test]
fn foreign_signal_changes_nothing() {
    let mut h = SignalHandler::new(&config());
    let sig = BusSignal {
        sender: Some(s(":1.1")),
        body: vec![
            BusValue::Str(s("org.mpris.MediaPlayer2")),
            BusValue::Dict(vec![(s("Metadata"), metadata("X", Some("https://x/a.png")))]),
        ],
    };
    assert_eq!(h.handle_signal(&sig, 0).unwrap(), None);
    assert!(h.handle_pending(10_000).is_none());
    // The sender's metadata was not cached: a later `Playing` has nothing to show.
    h.handle_signal(&signal(":1.1", Some("Playing"), None), 20_000).unwrap();
    assert!(h.handle_pending(30_000).is_none());
}

#[test]
fn missing_sender_is_an_error() {
    let mut h = SignalHandler::new(&config());
    let mut sig = signal(":1.1", Some("Playing"), Some(metadata("T", None)));
    sig.sender = None;
    let err = h.handle_signal(&sig, 0).unwrap_err();
    assert_eq!(err, SignalHandlerError::DBus(DBusError::Invalid(s("Missing sender header"))));
    assert!(h.handle_pending(10_000).is_none());
}

#[test]
fn pause_drops_pending_notification() {
    let mut h = SignalHandler::new(&config());
    h.handle_signal(&signal(":1.1", Some("Playing"), Some(metadata("T", None))), 0).unwrap();
    h.handle_signal(&signal(":1.1", Some("Stopped"), None), 100).unwrap();
    assert!(h.handle_pending(10_000).is_none());
}

#[test]
fn status_without_known_metadata_does_nothing() {
    let mut h = SignalHandler::new(&config());
    assert_eq!(h.handle_signal(&signal(":1.1", Some("Playing"), None), 0).unwrap(), None);
    assert!(h.handle_pending(10_000).is_none());
}

#[test]
fn blank_templates_send_nothing_but_run_commands() {
    let mut cfg = config();
    cfg.subject_format = s("");
    cfg.body_format = s("  ");
    let mut h = SignalHandler::new(&cfg);
    h.handle_signal(&signal(":1.1", Some("Playing"), Some(metadata("T", None))), 0).unwrap();
    let flush = h.handle_pending(1000).expect("due");
    assert!(flush.notification.is_none());
    assert_eq!(flush.commands.len(), 2);
}

#[test]
fn art_fetcher_uses_configured_deadline() {
    let h = SignalHandler::new(&config());
    assert_eq!(h.art_fetcher().timeout_millis(), 1000);
}

#[test]
fn other_sender_metadata_supersedes_pending() {
    let mut h = SignalHandler::new(&config());
    let mut sent = Vec::new();
    h.handle_signal(&signal(":1.1", None, Some(metadata("A", None))), 0).unwrap();
    h.handle_signal(&signal(":1.2", None, Some(metadata("B", None))), 100).unwrap();
    run_ticks(&mut h, 100, 3000, &mut sent);
    assert_eq!(sent, vec![s("B")]);
}

#[test]
fn art_failure_flush_has_only_the_synchronous_hint() {
    let mut h = SignalHandler::new(&config());
    let url = h
        .handle_signal(&signal(":1.1", None, Some(metadata("T", Some("https://x/a.png")))), 0)
        .unwrap();
    assert_eq!(url, Some(s("https://x/a.png")));
    assert!(h.handle_pending(250).is_none());
    let flush = h.handle_pending(251).expect("flushed");
    let call = flush.notification.unwrap();
    assert_eq!(call.summary, "T");
    assert_eq!(call.hints, vec![(s("x-canonical-private-synchronous"), NotificationHint::Text(s("mpris-notifier")))]);
    assert!(h.handle_pending(10_000).is_none());
}
