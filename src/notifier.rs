use vstd::prelude::*;

use crate::configuration::{ConfigView, Configuration};
use crate::formatter::{rendered, FormattedNotification};
use crate::mpris::{MetadataView, PlayerMetadata};

verus! {

/// The application name that notifications are sent under.
pub open spec fn notification_source() -> Seq<char> {
    "mpris-notifier"@
}

/// The hint that makes a notification server replace, rather than stack, the
/// notifications of one application.
pub open spec fn synchronous_hint() -> Seq<char> {
    "x-canonical-private-synchronous"@
}

/// The hint that carries raw image data.
pub open spec fn image_hint() -> Seq<char> {
    "image-data"@
}

/// Raw image data for a notification: rows of 8-bit RGB or RGBA pixels.
#[derive(Debug, Eq, PartialEq, Clone)]
pub struct NotificationImage {
    pub width: i32,
    pub height: i32,
    pub rowstride: i32,
    pub alpha: bool,
    pub bits_per_sample: i32,
    pub channels: i32,
    pub data: Vec<u8>,
}

impl NotificationImage {
    /// The image is consistent: 8 bits per sample, 4 channels with alpha and
    /// 3 without, a row stride of width times channels, and one row stride of
    /// bytes for each row.
    pub open spec fn wf(&self) -> bool {
        &&& self.width >= 0
        &&& self.height >= 0
        &&& self.bits_per_sample == 8
        &&& self.channels == (if self.alpha { 4int } else { 3int })
        &&& self.rowstride == self.width * self.channels
        &&& self.data@.len() == self.height * self.rowstride
    }

    /// An image of the given size from a buffer of its pixels, row after
    /// row with no padding; bytes past the image's size are left out. `None`
    /// when the size does not fit the wire format (a row stride or height
    /// above `i32::MAX`) or the buffer is short of it.
    pub fn from_pixels(width: u32, height: u32, alpha: bool, pixels: Vec<u8>) -> (r: Option<
        NotificationImage,
    >)
        ensures
            r is Some <==> ({
                let channels: int = if alpha { 4 } else { 3 };
                &&& width * channels <= i32::MAX
                &&& height <= i32::MAX
                &&& pixels@.len() >= height * width * channels
            }),
            r matches Some(img) ==> {
                &&& img.wf()
                &&& img.width == width
                &&& img.height == height
                &&& img.alpha == alpha
                &&& img.data@ == pixels@.subrange(0, img.data@.len() as int)
            },
    {
        let mut pixels = pixels;
        let channels: u64 = if alpha { 4 } else { 3 };
        let rowstride: u64 = width as u64 * channels;
        if rowstride > i32::MAX as u64 || height > i32::MAX as u32 {
            return None;
        }
        assert(rowstride * height <= 0x7fff_ffff * 0x7fff_ffff) by (nonlinear_arith)
            requires
                rowstride <= 0x7fff_ffff,
                height <= 0x7fff_ffff,
        ;
        let size: u64 = rowstride * height as u64;
        assert(size == height * width * channels && size == height * rowstride) by (nonlinear_arith)
            requires
                size == rowstride * height,
                rowstride == width * channels,
        ;
        if (pixels.len() as u64) < size {
            return None;
        }
        pixels.truncate(size as usize);
        Some(
            NotificationImage {
                width: width as i32,
                height: height as i32,
                rowstride: rowstride as i32,
                alpha,
                bits_per_sample: 8,
                channels: channels as i32,
                data: pixels,
            },
        )
    }
}

/// A notification waiting to be sent: the sender it is for, the metadata it
/// shows, the album art attached to it, and when it was last touched (in
/// milliseconds of a monotonic clock).
#[derive(Debug)]
pub struct Notification {
    sender: String,
    metadata: PlayerMetadata,
    album_art: Option<NotificationImage>,
    last_touched: u64,
}

/// A pending notification as mathematical values.
pub struct NotificationView {
    pub sender: Seq<char>,
    pub metadata: MetadataView,
    pub album_art: Option<NotificationImage>,
    pub last_touched: u64,
}

impl View for Notification {
    type V = NotificationView;

    closed spec fn view(&self) -> NotificationView {
        NotificationView {
            sender: self.sender@,
            metadata: self.metadata@,
            album_art: self.album_art,
            last_touched: self.last_touched,
        }
    }
}

impl Notification {
    /// A notification for `sender` showing `metadata`, touched at `now`.
    pub fn new(
        sender: &str,
        metadata: &PlayerMetadata,
        album_art: Option<NotificationImage>,
        now: u64,
    ) -> (r: Self)
        ensures
            r@ == (NotificationView {
                sender: sender@,
                metadata: metadata@,
                album_art,
                last_touched: now,
            }),
    {
        Notification {
            sender: String::from_str(sender),
            metadata: metadata.duplicate(),
            album_art,
            last_touched: now,
        }
    }

    /// Replaces the metadata and the album art, and touches the notification
    /// at `now`. The sender stays.
    pub fn update(
        &mut self,
        metadata: &PlayerMetadata,
        album_art: Option<NotificationImage>,
        now: u64,
    )
        ensures
            final(self)@ == (NotificationView {
                sender: old(self)@.sender,
                metadata: metadata@,
                album_art,
                last_touched: now,
            }),
    {
        self.metadata = metadata.duplicate();
        self.album_art = album_art;
        self.last_touched = now;
    }

    /// Attaches album art and touches the notification at `now`; the metadata
    /// stays.
    pub fn attach_album_art(&mut self, album_art: NotificationImage, now: u64)
        ensures
            final(self)@ == (NotificationView {
                album_art: Some(album_art),
                last_touched: now,
                ..old(self)@
            }),
    {
        self.album_art = Some(album_art);
        self.last_touched = now;
    }

    pub fn sender(&self) -> (r: &str)
        ensures
            r@ == self@.sender,
    {
        self.sender.as_str()
    }

    pub fn metadata(&self) -> (r: &PlayerMetadata)
        ensures
            r@ == self@.metadata,
    {
        &self.metadata
    }

    pub fn last_touched(&self) -> (r: u64)
        ensures
            r == self@.last_touched,
    {
        self.last_touched
    }

    pub fn album_art(&self) -> (r: &Option<NotificationImage>)
        ensures
            *r == self@.album_art,
    {
        &self.album_art
    }
}

/// A value of the hints dictionary of a notification.
#[derive(Debug, Clone, PartialEq, Eq)]
pub enum NotificationHint {
    Text(String),
    Image(NotificationImage),
}

/// A hint as a mathematical value.
pub enum HintView {
    Text(Seq<char>),
    Image(NotificationImage),
}

impl View for NotificationHint {
    type V = HintView;

    open spec fn view(&self) -> HintView {
        match self {
            NotificationHint::Text(s) => HintView::Text(s@),
            NotificationHint::Image(img) => HintView::Image(*img),
        }
    }
}

/// The arguments of an outbound `Notify` call, in the order they are sent.
#[derive(Debug, Clone, PartialEq, Eq)]
pub struct NotifyCall {
    pub app_name: String,
    pub replaces_id: u32,
    pub icon: String,
    pub summary: String,
    pub body: String,
    pub actions: Vec<String>,
    pub hints: Vec<(String, NotificationHint)>,
    pub expire_timeout: i32,
}

/// A `Notify` call as mathematical values.
pub struct NotifyCallView {
    pub app_name: Seq<char>,
    pub replaces_id: u32,
    pub icon: Seq<char>,
    pub summary: Seq<char>,
    pub body: Seq<char>,
    pub actions: Seq<Seq<char>>,
    pub hints: Seq<(Seq<char>, HintView)>,
    pub expire_timeout: i32,
}

impl View for NotifyCall {
    type V = NotifyCallView;

    open spec fn view(&self) -> NotifyCallView {
        NotifyCallView {
            app_name: self.app_name@,
            replaces_id: self.replaces_id,
            icon: self.icon@,
            summary: self.summary@,
            body: self.body@,
            actions: crate::text::strs_view(self.actions@),
            hints: self.hints@.map_values(|h: (String, NotificationHint)| (h.0@, h.1@)),
            expire_timeout: self.expire_timeout,
        }
    }
}

/// Whether a character is white space, in the sense of Unicode's
/// `White_Space` property.
pub open spec fn is_white_space(c: char) -> bool {
    ('\u{9}' <= c && c <= '\u{d}') || c == ' ' || c == '\u{85}' || c == '\u{a0}' || c == '\u{1680}'
        || ('\u{2000}' <= c && c <= '\u{200a}') || c == '\u{2028}' || c == '\u{2029}' || c
        == '\u{202f}' || c == '\u{205f}' || c == '\u{3000}'
}

/// Whether a text is empty once white space is trimmed from both ends, that
/// is, whether it holds white space only.
pub open spec fn is_blank(s: Seq<char>) -> bool {
    forall|i: int| 0 <= i < s.len() ==> is_white_space(#[trigger] s[i])
}

/// The hints of a notification: the synchronous hint under the application
/// name, then the image, if there is one.
pub open spec fn hints_for(album_art: Option<NotificationImage>) -> Seq<(Seq<char>, HintView)> {
    let sync = seq![(synchronous_hint(), HintView::Text(notification_source()))];
    match album_art {
        Some(img) => sync.push((image_hint(), HintView::Image(img))),
        None => sync,
    }
}

/// The `Notify` call for a notification under the given settings; none when
/// both the rendered subject and the rendered body are blank.
pub open spec fn notify_call(cfg: ConfigView, n: NotificationView) -> Option<NotifyCallView> {
    let summary = rendered(cfg.subject_format, n.metadata, cfg.join_string);
    let body = rendered(cfg.body_format, n.metadata, cfg.join_string);
    if is_blank(summary) && is_blank(body) {
        None
    } else {
        Some(
            NotifyCallView {
                app_name: notification_source(),
                replaces_id: 0,
                icon: Seq::empty(),
                summary,
                body,
                actions: Seq::empty(),
                hints: hints_for(n.album_art),
                expire_timeout: -1i32,
            },
        )
    }
}

fn is_white_space_char(c: char) -> (r: bool)
    ensures
        r == is_white_space(c),
{
    ('\u{9}' <= c && c <= '\u{d}') || c == ' ' || c == '\u{85}' || c == '\u{a0}' || c == '\u{1680}'
        || ('\u{2000}' <= c && c <= '\u{200a}') || c == '\u{2028}' || c == '\u{2029}' || c
        == '\u{202f}' || c == '\u{205f}' || c == '\u{3000}'
}

/// Whether a text holds white space only.
pub fn is_blank_str(s: &str) -> (r: bool)
    ensures
        r == is_blank(s@),
{
    let n = s.unicode_len();
    let mut i: usize = 0;
    while i < n
        invariant
            n == s@.len(),
            i <= n,
            forall|k: int| 0 <= k < i ==> is_white_space(#[trigger] s@[k]),
        decreases n - i,
    {
        if !is_white_space_char(s.get_char(i)) {
            return false;
        }
        i = i + 1;
    }
    true
}

/// Composes notifications under the user's settings.
pub struct Notifier {
    configuration: Configuration,
}

impl Notifier {
    /// The settings that notifications are composed under.
    pub closed spec fn config(&self) -> ConfigView {
        self.configuration@
    }

    pub fn new(configuration: &Configuration) -> (r: Self)
        ensures
            r.config() == configuration@,
    {
        Notifier { configuration: configuration.duplicate() }
    }

    /// A template rendered against metadata with the configured separator.
    pub fn format_metadata(&self, fmt: &str, metadata: &PlayerMetadata) -> (r: String)
        ensures
            r@ == rendered(fmt@, metadata@, self.config().join_string),
    {
        FormattedNotification::new(fmt, metadata, self.configuration.join_string.as_str()).to_string()
    }

    /// The `Notify` call that sends a notification, or `None` when both its
    /// subject and its body would be blank, in which case nothing is to be
    /// sent.
    pub fn build_notification(&self, notification: Notification) -> (r: Option<NotifyCall>)
        ensures
            match r {
                Some(call) => notify_call(self.config(), notification@) == Some(call@),
                None => notify_call(self.config(), notification@) is None,
            },
    {
        let ghost n = notification@;
        let subject = self.format_metadata(self.configuration.subject_format.as_str(), &notification.metadata);
        let body = self.format_metadata(self.configuration.body_format.as_str(), &notification.metadata);
        if is_blank_str(subject.as_str()) && is_blank_str(body.as_str()) {
            return None;
        }
        let mut hints: Vec<(String, NotificationHint)> = Vec::new();
        hints.push(
            (
                String::from_str("x-canonical-private-synchronous"),
                NotificationHint::Text(String::from_str("mpris-notifier")),
            ),
        );
        match notification.album_art {
            Some(img) => {
                hints.push((String::from_str("image-data"), NotificationHint::Image(img)));
            },
            None => {},
        }
        let call = NotifyCall {
            app_name: String::from_str("mpris-notifier"),
            replaces_id: 0,
            icon: String::new(),
            summary: subject,
            body,
            actions: Vec::new(),
            hints,
            expire_timeout: -1,
        };
        assert(call@.actions =~= Seq::<Seq<char>>::empty());
        assert(call@.hints =~= hints_for(n.album_art));
        Some(call)
    }
}

/// With an empty subject template and a body template of white space only,
/// no notification is ever sent, whatever the metadata.
pub proof fn lemma_blank_templates_suppress(cfg: ConfigView, n: NotificationView)
    requires
        cfg.subject_format == ""@,
        cfg.body_format == "  "@,
    ensures
        notify_call(cfg, n) is None,
{
    reveal_strlit("");
    reveal_strlit("  ");
    let t = cfg.body_format;
    let md = n.metadata;
    let sep = cfg.join_string;
    assert(!crate::formatter::token_at(t, 0));
    assert(!crate::formatter::token_at(t, 1));
    assert(crate::formatter::render_from(t, 2, md, sep) == Seq::<char>::empty());
    assert(crate::formatter::render_from(t, 1, md, sep) =~= seq![t[1]]);
    assert(crate::formatter::render_from(t, 0, md, sep) =~= seq![t[0], t[1]]);
    assert(seq![t[0], t[1]] =~= t);
}

} // verus!
