use mpris_notifier::art::{parse_usize, ArtFetcher, ArtFetcherError, ArtLocation};
use mpris_notifier::configuration::Configuration;
use mpris_notifier::mpris::PlayerMetadata;
use mpris_notifier::notifier::{is_blank_str, Notification, NotificationHint, NotificationImage, Notifier};

fn s(x: &str) -> String {
    x.to_string()
}

fn metadata() -> PlayerMetadata {
    PlayerMetadata {
        track_id: None,
        album: Some(s("Album")),
        album_artists: None,
        art_url: None,
        artists: Some(vec![s("A"), s("B")]),
        title: Some(s("Song")),
        track_number: None,
        track_url: None,
    }
}

#[test]
fn default_configuration_values() {
    let c = Configuration::default();
    assert_eq!(c.subject_format, "{track}");
    assert_eq!(c.body_format, "{album} - {artist}");
    assert_eq!(c.join_string, ", ");
    assert!(c.enable_album_art);
    assert_eq!(c.album_art_deadline, 1000);
    assert!(c.commands.is_empty());
}

#[test]
fn notify_call_has_fixed_shape() {
    let notifier = Notifier::new(&Configuration::default());
    let call = notifier.build_notification(Notification::new(":1.1", &metadata(), None, 5)).unwrap();
    assert_eq!(call.app_name, "mpris-notifier");
    assert_eq!(call.replaces_id, 0);
    assert_eq!(call.icon, "");
    assert_eq!(call.summary, "Song");
    assert_eq!(call.body, "Album - A, B");
    assert!(call.actions.is_empty());
    assert_eq!(call.hints, vec![(s("x-canonical-private-synchronous"), NotificationHint::Text(s("mpris-notifier")))]);
    assert_eq!(call.expire_timeout, -1);
}

#[test]
fn blank_text_suppresses_call() {
    let mut c = Configuration::default();
    c.subject_format = s("");
    c.body_format = s("  ");
    let notifier = Notifier::new(&c);
    assert!(notifier.build_notification(Notification::new(":1.1", &metadata(), None, 0)).is_none());
}

#[test]
fn blank_after_rendering_suppresses_call() {
    let mut c = Configuration::default();
    c.subject_format = s("{title}");
    c.body_format = s("\t{album}\n");
    let notifier = Notifier::new(&c);
    let mut md = metadata();
    md.title = None;
    md.album = None;
    assert!(notifier.build_notification(Notification::new(":1.1", &md, None, 0)).is_none());
    md.album = Some(s("x"));
    assert!(notifier.build_notification(Notification::new(":1.1", &md, None, 0)).is_some());
}

#[test]
fn blank_detection() {
    assert!(is_blank_str(""));
    assert!(is_blank_str(" \t\n\u{3000}\u{a0}"));
    assert!(!is_blank_str(" a "));
    assert!(!is_blank_str("\u{200b}"));
}

#[test]
fn notification_accessors_and_update() {
    let mut n = Notification::new(":1.7", &metadata(), None, 40);
    assert_eq!(n.sender(), ":1.7");
    assert_eq!(n.last_touched(), 40);
    let mut md = metadata();
    md.title = Some(s("Other"));
    let img = NotificationImage::from_pixels(1, 2, false, vec![0; 6]).unwrap();
    n.update(&md, Some(img.clone()), 90);
    assert_eq!(n.sender(), ":1.7");
    assert_eq!(n.last_touched(), 90);
    assert_eq!(n.metadata().title, Some(s("Other")));
    assert_eq!(n.album_art(), &Some(img));
}

#[test]
fn image_from_pixels_checks_size() {
    let img = NotificationImage::from_pixels(2, 3, true, vec![7; 24]).unwrap();
    assert_eq!((img.width, img.height, img.rowstride, img.alpha, img.bits_per_sample, img.channels), (2, 3, 8, true, 8, 4));
    let rgb = NotificationImage::from_pixels(2, 3, false, vec![7; 18]).unwrap();
    assert_eq!((rgb.rowstride, rgb.channels), (6, 3));
    assert!(NotificationImage::from_pixels(2, 3, false, vec![7; 17]).is_none());
    assert!(NotificationImage::from_pixels(u32::MAX, 0, true, vec![]).is_none());
    assert!(NotificationImage::from_pixels(0, 0, true, vec![]).is_some());
    let trimmed = NotificationImage::from_pixels(1, 1, false, vec![1, 2, 3, 4, 5]).unwrap();
    assert_eq!(trimmed.data, vec![1, 2, 3]);
}

fn png_bytes(img: image::DynamicImage) -> Vec<u8> {
    let mut out = std::io::Cursor::new(Vec::new());
    img.write_to(&mut out, image::ImageOutputFormat::Png).unwrap();
    out.into_inner()
}

#[test]
fn album_art_is_decoded_and_scaled() {
    let fetcher = ArtFetcher::new(&Configuration::default());
    let rgba = image::DynamicImage::ImageRgba8(image::RgbaImage::new(512, 128));
    let img = fetcher.album_art_from_bytes(&png_bytes(rgba)).unwrap();
    assert_eq!((img.width, img.height, img.channels, img.rowstride), (256, 64, 4, 1024));
    assert!(img.alpha);
    assert_eq!(img.data.len(), 64 * 1024);

    let rgb = image::DynamicImage::ImageRgb8(image::RgbImage::new(3, 2));
    let img = fetcher.album_art_from_bytes(&png_bytes(rgb)).unwrap();
    assert_eq!((img.width, img.height, img.channels, img.rowstride, img.alpha), (256, 171, 3, 768, false));
    assert_eq!(img.data.len(), 171 * 768);

    let tall = image::DynamicImage::ImageRgb8(image::RgbImage::new(1, 3000));
    let img = fetcher.album_art_from_bytes(&png_bytes(tall)).unwrap();
    assert_eq!((img.width, img.height, img.channels), (1, 256, 3));

    let gray = image::DynamicImage::ImageLuma8(image::GrayImage::new(4, 4));
    let img = fetcher.album_art_from_bytes(&png_bytes(gray)).unwrap();
    assert_eq!((img.channels, img.data.len()), (3, 256 * 256 * 3));
}

#[test]
fn undecodable_art_is_an_error() {
    let fetcher = ArtFetcher::new(&Configuration::default());
    assert!(matches!(fetcher.album_art_from_bytes(b"not an image"), Err(ArtFetcherError::Decode(_))));
}

#[test]
fn art_locations() {
    let fetcher = ArtFetcher::new(&Configuration::default());
    match fetcher.locate("https://i.scdn.co/image/ab67") {
        Ok(ArtLocation::Remote(u)) => assert_eq!(u, "https://i.scdn.co/image/ab67"),
        other => panic!("unexpected {:?}", other),
    }
    match fetcher.locate("file:///tmp/cover%20art.png") {
        Ok(ArtLocation::File(p)) => assert_eq!(p, std::path::PathBuf::from("/tmp/cover art.png")),
        other => panic!("unexpected {:?}", other),
    }
    assert!(matches!(fetcher.locate("not a url"), Err(ArtFetcherError::Location(_))));
    assert!(matches!(fetcher.locate("file://remote.host/x.png"), Err(ArtFetcherError::Invalid())));
}

#[test]
fn art_fetcher_timeout() {
    let mut c = Configuration::default();
    c.album_art_deadline = 1500;
    assert_eq!(ArtFetcher::new(&c).timeout_millis(), 1500);
}

#[test]
fn decimal_parsing_follows_usize_from_str() {
    for text in ["0", "42", "+7", "0012", "", "+", "-1", "1a", " 1", "18446744073709551615", "18446744073709551616", "99999999999999999999999"] {
        assert_eq!(parse_usize(text), text.parse::<usize>().ok(), "{text:?}");
    }
}

#[test]
fn download_capacity_is_capped() {
    let fetcher = ArtFetcher::new(&Configuration::default());
    assert_eq!(fetcher.download_capacity(Some("1234")).unwrap(), 1234);
    assert_eq!(fetcher.download_capacity(Some("9000000")).unwrap(), 5_000_000);
    assert!(matches!(fetcher.download_capacity(Some("big")), Err(ArtFetcherError::Invalid())));
    assert!(matches!(fetcher.download_capacity(None), Err(ArtFetcherError::Invalid())));
}
