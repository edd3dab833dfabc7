use vstd::hash_map::StringHashMap;
use vstd::prelude::*;

use crate::art::ArtFetcher;
use crate::configuration::{argvs_view, ConfigView, Configuration};
use crate::dbus::DBusError;
use crate::mpris::{
    decoded_change, is_mpris_change, names_mpris_interface, BusSignal, BusValue, ChangeView, MetadataView, MprisPropertiesChange,
    PlayerMetadata, PlayerStatus,
};
use crate::formatter::rendered;
use crate::notifier::{is_blank, notification_source, synchronous_hint, HintView, notify_call, Notification, NotificationImage, NotificationView, Notifier, NotifyCall, NotifyCallView};
use crate::text::{clone_opt_string, clone_strings, opt_str_view, strs_view};

verus! {

/// How long, in milliseconds, a pending notification must stay untouched
/// before it is sent. Some players announce a track in several signals, one
/// field at a time; the wait gathers them into one notification.
pub const NOTIFICATION_DELAY_MS: u64 = 250;

/// Errors in handling a signal.
#[derive(Debug, Clone, PartialEq, Eq)]
pub enum SignalHandlerError {
    DBus(DBusError),
}

/// The state of the engine as mathematical values: the last metadata seen of
/// each sender, the pending notification, and the commands to run when it is
/// sent.
pub struct HandlerView {
    pub cache: Map<Seq<char>, MetadataView>,
    pub pending: Option<NotificationView>,
    pub commands: Seq<Seq<Seq<char>>>,
}

/// The commands that can be run: those with a program name.
pub open spec fn runnable(cmds: Seq<Seq<Seq<char>>>) -> Seq<Seq<Seq<char>>>
    decreases cmds.len(),
{
    if cmds.len() == 0 {
        cmds
    } else if cmds.last().len() > 0 {
        runnable(cmds.drop_last()).push(cmds.last())
    } else {
        runnable(cmds.drop_last())
    }
}

/// A fresh notification, without album art.
pub open spec fn fresh(sender: Seq<char>, md: MetadataView, now: u64) -> NotificationView {
    NotificationView { sender, metadata: md, album_art: None, last_touched: now }
}

/// The first rule for a change from `sender`: new metadata is cached for the
/// sender and becomes the pending notification, touched at `now`. It
/// refreshes the sender's own pending notification, and replaces one of
/// another sender wholesale.
pub open spec fn absorb_metadata(s: HandlerView, sender: Seq<char>, change: ChangeView, now: u64) -> HandlerView {
    match change.metadata {
        Some(md) => HandlerView {
            cache: s.cache.insert(sender, md),
            pending: Some(fresh(sender, md, now)),
            commands: s.commands,
        },
        None => s,
    }
}

/// Whether a change from `sender` gets past the rules on metadata and
/// status: the sender's metadata is known and a notification is pending
/// afterwards.
pub open spec fn reaches_enrichment(s: HandlerView, sender: Seq<char>, change: ChangeView, now: u64) -> bool {
    let s1 = absorb_metadata(s, sender, change, now);
    s1.cache.contains_key(sender) && status_rule(s1, sender, change, now) is Some
}

/// The pending notification after the status rule: `Playing` starts a fresh
/// notification for the sender from its cached metadata, `Paused` and
/// `Stopped` drop the pending one, and no status keeps it.
pub open spec fn status_rule(s1: HandlerView, sender: Seq<char>, change: ChangeView, now: u64) -> Option<NotificationView> {
    match change.status {
        Some(PlayerStatus::Playing) => Some(fresh(sender, s1.cache[sender], now)),
        Some(_) => None,
        None => s1.pending,
    }
}

/// The state after a decoded change from `sender` at `now`.
pub open spec fn after_change(s: HandlerView, cfg: ConfigView, sender: Seq<char>, change: ChangeView, now: u64) -> HandlerView {
    let s1 = absorb_metadata(s, sender, change, now);
    if !s1.cache.contains_key(sender) {
        s1
    } else {
        match status_rule(s1, sender, change, now) {
            Some(p) => HandlerView { cache: s1.cache, pending: Some(p), commands: runnable(cfg.commands) },
            None => HandlerView { cache: s1.cache, pending: None, commands: s1.commands },
        }
    }
}

/// The album art to fetch after a change: the artwork URL of the pending
/// notification, when the change got that far, album art is enabled and the
/// notification's metadata has a URL.
pub open spec fn art_request(s: HandlerView, cfg: ConfigView, sender: Seq<char>, change: ChangeView, now: u64) -> Option<Seq<char>> {
    if reaches_enrichment(s, sender, change, now) && cfg.enable_album_art {
        after_change(s, cfg, sender, change, now).pending->0.metadata.art_url
    } else {
        None
    }
}

/// The state after a signal from `sender`: a property change of the player
/// interface is applied; any other signal leaves the state as it was.
pub open spec fn after_signal(s: HandlerView, cfg: ConfigView, sender: Seq<char>, body: Seq<BusValue>, now: u64) -> HandlerView {
    if is_mpris_change(body) {
        after_change(s, cfg, sender, decoded_change(body), now)
    } else {
        s
    }
}

/// The album art to fetch after a signal from `sender`.
pub open spec fn art_after_signal(s: HandlerView, cfg: ConfigView, sender: Seq<char>, body: Seq<BusValue>, now: u64) -> Option<Seq<char>> {
    if is_mpris_change(body) {
        art_request(s, cfg, sender, decoded_change(body), now)
    } else {
        None
    }
}

/// Whether a notification last touched at `touched` is due at `now`.
pub open spec fn is_due(touched: u64, now: u64) -> bool {
    now - touched > NOTIFICATION_DELAY_MS
}

/// The state after a clock tick at `now`: a due notification is taken, with
/// the commands, and both are cleared.
pub open spec fn after_tick(s: HandlerView, now: u64) -> HandlerView {
    match s.pending {
        Some(p) => if is_due(p.last_touched, now) {
            HandlerView { cache: s.cache, pending: None, commands: Seq::empty() }
        } else {
            s
        },
        None => s,
    }
}

/// What a clock tick at `now` sends: the due notification and the commands
/// to run after it.
pub open spec fn flushed(s: HandlerView, now: u64) -> Option<(NotificationView, Seq<Seq<Seq<char>>>)> {
    match s.pending {
        Some(p) => if is_due(p.last_touched, now) {
            Some((p, s.commands))
        } else {
            None
        },
        None => None,
    }
}

/// The state after album art arrives at `now`: it is attached to the
/// pending notification, which is touched; with none pending it is dropped.
pub open spec fn after_art(s: HandlerView, art: NotificationImage, now: u64) -> HandlerView {
    match s.pending {
        Some(p) => HandlerView {
            pending: Some(NotificationView { album_art: Some(art), last_touched: now, ..p }),
            ..s
        },
        None => s,
    }
}

/// The view of an optional call.
pub open spec fn opt_call_view(c: Option<NotifyCall>) -> Option<NotifyCallView> {
    match c {
        Some(c) => Some(c@),
        None => None,
    }
}

/// What is to be done when a pending notification is due: the call that
/// sends it (none when its text would be blank), then the commands, in order.
#[derive(Debug)]
pub struct PendingFlush {
    pub notification: Option<NotifyCall>,
    pub commands: Vec<Vec<String>>,
}

/// The commands that can be run: those with a program name, in order.
pub fn runnable_commands(cmds: &Vec<Vec<String>>) -> (r: Vec<Vec<String>>)
    ensures
        argvs_view(r@) == runnable(argvs_view(cmds@)),
{
    let mut r: Vec<Vec<String>> = Vec::new();
    let mut i: usize = 0;
    assert(argvs_view(cmds@.subrange(0, 0)) =~= Seq::empty());
    while i < cmds.len()
        invariant
            i <= cmds@.len(),
            argvs_view(r@) == runnable(argvs_view(cmds@.subrange(0, i as int))),
        decreases cmds.len() - i,
    {
        let ghost prev = r@;
        let ghost next = argvs_view(cmds@.subrange(0, i + 1));
        assert(next.drop_last() =~= argvs_view(cmds@.subrange(0, i as int)));
        assert(next.last() == strs_view(cmds@[i as int]@));
        if cmds[i].len() > 0 {
            r.push(clone_strings(&cmds[i]));
            assert(argvs_view(r@) =~= argvs_view(prev).push(strs_view(cmds@[i as int]@)));
        }
        i = i + 1;
    }
    assert(cmds@.subrange(0, i as int) =~= cmds@);
    r
}

/// The engine that turns player signals into notifications.
///
/// It keeps the last metadata of each sender and a single pending
/// notification. Signals arm, refresh, replace or drop the pending
/// notification; it is sent once it has stayed untouched for
/// `NOTIFICATION_DELAY_MS`.
pub struct SignalHandler {
    configuration: Configuration,
    notifier: Notifier,
    art_fetcher: ArtFetcher,
    metadata: StringHashMap<PlayerMetadata>,
    pending_notification: Option<Notification>,
    pending_commands: Vec<Vec<String>>,
}

impl View for SignalHandler {
    type V = HandlerView;

    closed spec fn view(&self) -> HandlerView {
        HandlerView {
            cache: self.metadata@.map_values(|m: PlayerMetadata| m@),
            pending: match self.pending_notification {
                Some(n) => Some(n@),
                None => None,
            },
            commands: argvs_view(self.pending_commands@),
        }
    }
}

impl SignalHandler {
    /// The settings the engine works under.
    pub closed spec fn config(&self) -> ConfigView {
        self.configuration@
    }

    /// The notifier composes under the engine's settings, and the art
    /// fetcher has the configured deadline.
    pub closed spec fn wf(&self) -> bool {
        &&& self.notifier.config() == self.configuration@
        &&& self.art_fetcher.timeout_millis() == self.configuration.album_art_deadline
    }

    /// An engine with nothing cached and nothing pending.
    pub fn new(configuration: &Configuration) -> (r: Self)
        ensures
            r.wf(),
            r.config() == configuration@,
            r@.cache == Map::<Seq<char>, MetadataView>::empty(),
            r@.pending is None,
            r@.commands == Seq::<Seq<Seq<char>>>::empty(),
    {
        let r = SignalHandler {
            configuration: configuration.duplicate(),
            notifier: Notifier::new(configuration),
            art_fetcher: ArtFetcher::new(configuration),
            metadata: StringHashMap::new(),
            pending_notification: None,
            pending_commands: Vec::new(),
        };
        assert(r@.cache =~= Map::<Seq<char>, MetadataView>::empty());
        assert(r@.commands =~= Seq::<Seq<Seq<char>>>::empty());
        r
    }

    /// The fetcher for album art, set up with the configured deadline.
    pub fn art_fetcher(&self) -> (r: &ArtFetcher)
        requires
            self.wf(),
        ensures
            r.timeout_millis() == self.config().album_art_deadline,
    {
        &self.art_fetcher
    }

    /// Applies a decoded change from `sender` at `now`, and returns the URL
    /// of the album art to fetch for the pending notification, if any.
    fn apply_change(&mut self, sender: &String, change: MprisPropertiesChange, now: u64) -> (r: Option<String>)
        requires
            old(self).wf(),
        ensures
            final(self).wf(),
            final(self).config() == old(self).config(),
            final(self)@ == after_change(old(self)@, old(self).config(), sender@, change@, now),
            opt_str_view(r) == art_request(old(self)@, old(self).config(), sender@, change@, now),
    {
        let ghost s0 = self@;
        let ghost cfg = self.config();
        let ghost s1 = absorb_metadata(s0, sender@, change@, now);
        match &change.metadata {
            Some(new_md) => {
                self.metadata.insert(sender.clone(), new_md.duplicate());
                self.pending_notification = Some(Notification::new(sender.as_str(), new_md, None, now));
                assert(self@.cache =~= s1.cache);
            },
            None => {},
        }
        assert(self@ == s1);
        let current = match self.metadata.get(sender.as_str()) {
            Some(m) => m,
            None => {
                return None;
            },
        };
        match change.status {
            Some(PlayerStatus::Playing) => {
                self.pending_notification = Some(Notification::new(sender.as_str(), current, None, now));
            },
            Some(_) => {
                self.pending_notification = None;
            },
            None => {},
        }
        if self.pending_notification.is_none() {
            return None;
        }
        self.pending_commands = runnable_commands(&self.configuration.commands);
        match &self.pending_notification {
            Some(p) => if self.configuration.enable_album_art {
                clone_opt_string(&p.metadata().art_url)
            } else {
                None
            },
            None => None,
        }
    }

    /// Handles a signal received at `now`.
    ///
    /// A signal without a sender cannot be attributed and is an error. A
    /// signal that is not a property change of the player interface is
    /// ignored. Otherwise the change is applied, and the URL of the album art
    /// to fetch for the pending notification is returned, if there is one.
    pub fn handle_signal(&mut self, signal: &BusSignal, now: u64) -> (r: Result<
        Option<String>,
        SignalHandlerError,
    >)
        requires
            old(self).wf(),
        ensures
            final(self).wf(),
            final(self).config() == old(self).config(),
            signal.sender is None ==> final(self)@ == old(self)@ && r matches Err(
                SignalHandlerError::DBus(DBusError::Invalid(_)),
            ),
            signal.sender is Some ==> {
                &&& final(self)@ == after_signal(
                    old(self)@,
                    old(self).config(),
                    signal.sender->0@,
                    signal.body@,
                    now,
                )
                &&& r matches Ok(url)
                &&& opt_str_view(url) == art_after_signal(
                    old(self)@,
                    old(self).config(),
                    signal.sender->0@,
                    signal.body@,
                    now,
                )
            },
    {
        let sender = match &signal.sender {
            Some(sender) => sender,
            None => {
                return Err(
                    SignalHandlerError::DBus(
                        DBusError::Invalid(String::from_str("Missing sender header")),
                    ),
                );
            },
        };
        match MprisPropertiesChange::try_from(&signal.body) {
            Ok(change) => Ok(self.apply_change(sender, change, now)),
            Err(_) => Ok(None),
        }
    }

    /// Attaches fetched album art to the pending notification and touches it
    /// at `now`. Art that arrives when nothing is pending any more is
    /// dropped.
    pub fn attach_album_art(&mut self, album_art: NotificationImage, now: u64)
        requires
            old(self).wf(),
        ensures
            final(self).wf(),
            final(self).config() == old(self).config(),
            final(self)@ == after_art(old(self)@, album_art, now),
    {
        let pending = self.pending_notification.take();
        match pending {
            Some(mut p) => {
                p.attach_album_art(album_art, now);
                self.pending_notification = Some(p);
            },
            None => {},
        }
    }

    /// Checks the pending notification at `now`. Once it has stayed untouched
    /// for longer than `NOTIFICATION_DELAY_MS`, it is taken with the pending
    /// commands, both are cleared, and the call that sends it is returned
    /// with the commands to run after it.
    pub fn handle_pending(&mut self, now: u64) -> (r: Option<PendingFlush>)
        requires
            old(self).wf(),
        ensures
            final(self).wf(),
            final(self).config() == old(self).config(),
            final(self)@ == after_tick(old(self)@, now),
            match flushed(old(self)@, now) {
                None => r is None,
                Some((n, cmds)) => r matches Some(f) && opt_call_view(f.notification) == notify_call(
                    old(self).config(),
                    n,
                ) && argvs_view(f.commands@) == cmds,
            },
    {
        let due = match &self.pending_notification {
            Some(p) => now >= p.last_touched() && now - p.last_touched() > NOTIFICATION_DELAY_MS,
            None => false,
        };
        if !due {
            return None;
        }
        let pending = self.pending_notification.take();
        match pending {
            Some(p) => {
                let notification = self.notifier.build_notification(p);
                let mut commands: Vec<Vec<String>> = Vec::new();
                std::mem::swap(&mut commands, &mut self.pending_commands);
                assert(argvs_view(self.pending_commands@) =~= Seq::<Seq<Seq<char>>>::empty());
                Some(PendingFlush { notification, commands })
            },
            None => None,
        }
    }
}

/// A signal that does not name the player interface changes nothing and
/// asks for no album art.
pub proof fn lemma_foreign_signal_ignored(
    s: HandlerView,
    cfg: ConfigView,
    sender: Seq<char>,
    body: Seq<BusValue>,
    now: u64,
)
    requires
        !names_mpris_interface(body),
    ensures
        after_signal(s, cfg, sender, body, now) == s,
        art_after_signal(s, cfg, sender, body, now) is None,
{
}

/// `Playing` always arms a fresh notification for the sender from its
/// latest metadata, even when that metadata was notified before, and it is
/// sent once the delay has passed.
pub proof fn lemma_playing_rearms(
    s: HandlerView,
    cfg: ConfigView,
    sender: Seq<char>,
    change: ChangeView,
    now: u64,
)
    requires
        change.status == Some(PlayerStatus::Playing),
        s.cache.contains_key(sender) || change.metadata is Some,
    ensures
        after_change(s, cfg, sender, change, now).pending == Some(
            fresh(sender, after_change(s, cfg, sender, change, now).cache[sender], now),
        ),
        after_change(s, cfg, sender, change, now).cache[sender] == (match change.metadata {
            Some(md) => md,
            None => s.cache[sender],
        }),
        forall|t: u64|
            is_due(now, t) ==> #[trigger] flushed(after_change(s, cfg, sender, change, now), t) == Some(
                (
                    fresh(sender, after_change(s, cfg, sender, change, now).cache[sender], now),
                    runnable(cfg.commands),
                ),
            ),
{
}

/// Two metadata-only changes of one sender within the delay make one
/// notification: nothing is sent between them, and the one that is sent
/// once the delay has passed after the second shows the second metadata.
/// After that nothing more is pending.
pub proof fn lemma_metadata_burst_coalesces(
    s: HandlerView,
    cfg: ConfigView,
    sender: Seq<char>,
    first: MetadataView,
    second: MetadataView,
    t1: u64,
    t: u64,
    t2: u64,
    t3: u64,
)
    requires
        s.pending is None,
        t1 <= t <= t2,
        t2 - t1 <= NOTIFICATION_DELAY_MS,
        is_due(t2, t3),
    ensures
        ({
            let s1 = after_change(s, cfg, sender, ChangeView { status: None, metadata: Some(first) }, t1);
            let s2 = after_change(s1, cfg, sender, ChangeView { status: None, metadata: Some(second) }, t2);
            &&& flushed(s1, t) is None
            &&& after_tick(s1, t) == s1
            &&& s2.pending == Some(fresh(sender, second, t2))
            &&& flushed(s2, t3) == Some((fresh(sender, second, t2), s2.commands))
            &&& after_tick(s2, t3).pending is None
        }),
{
}

/// While a notification of one sender is pending, new metadata from another
/// sender, or `Playing` from another sender whose metadata is known,
/// replaces it: only the other sender's notification is sent.
pub proof fn lemma_other_sender_supersedes(
    s: HandlerView,
    cfg: ConfigView,
    a: Seq<char>,
    b: Seq<char>,
    change: ChangeView,
    now: u64,
    t: u64,
)
    requires
        s.pending matches Some(p) && p.sender == a,
        a != b,
        (change.status == Some(PlayerStatus::Playing) && (s.cache.contains_key(b)
            || change.metadata is Some)) || (change.metadata is Some && change.status is None),
        is_due(now, t),
    ensures
        ({
            let s1 = after_change(s, cfg, b, change, now);
            &&& s1.pending matches Some(p) && p.sender == b
            &&& flushed(s1, t) matches Some((n, _)) && n.sender == b
            &&& flushed(after_tick(s1, t), t) is None
        }),
{
}

/// A failed album-art fetch attaches nothing, and the notification is still
/// sent once due, without art, when the change armed or refreshed it.
pub proof fn lemma_art_failure_still_flushes(
    s: HandlerView,
    cfg: ConfigView,
    sender: Seq<char>,
    change: ChangeView,
    now: u64,
    t: u64,
)
    requires
        reaches_enrichment(s, sender, change, now),
        change.status == Some(PlayerStatus::Playing) || change.metadata is Some,
        is_due(now, t),
    ensures
        ({
            let s1 = after_change(s, cfg, sender, change, now);
            let p = s1.pending->0;
            &&& s1.pending is Some && p.album_art is None && p.last_touched == now
            &&& p.sender == sender
            &&& flushed(s1, t) == Some((p, s1.commands))
            &&& after_tick(s1, t).pending is None
            &&& (notify_call(cfg, p) is Some <==> !(is_blank(
                rendered(cfg.subject_format, p.metadata, cfg.join_string),
            ) && is_blank(rendered(cfg.body_format, p.metadata, cfg.join_string))))
            &&& notify_call(cfg, p) matches Some(c) ==> c.hints == seq![
                (synchronous_hint(), HintView::Text(notification_source())),
            ]
        }),
{
}

} // verus!
