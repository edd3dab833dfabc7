use vstd::prelude::*;

use crate::dbus::{match_rule, match_rule_of, DBusError};
use crate::text::{
    clone_opt_string, clone_opt_strings, clone_strings, opt_str_view, opt_strs_view, str_equals,
    strs_view,
};

verus! {

/// Playback state reported by a player.
#[derive(Debug, Clone, Copy, PartialEq, Eq, Structural)]
pub enum PlayerStatus {
    Playing,
    Paused,
    Stopped,
}

/// The status named by a `PlaybackStatus` string, if it names one.
pub open spec fn status_of(s: Seq<char>) -> Option<PlayerStatus> {
    if s == "Playing"@ {
        Some(PlayerStatus::Playing)
    } else if s == "Paused"@ {
        Some(PlayerStatus::Paused)
    } else if s == "Stopped"@ {
        Some(PlayerStatus::Stopped)
    } else {
        None
    }
}

impl PlayerStatus {
    /// Parses a `PlaybackStatus` value; any other text is rejected.
    pub fn from_str(s: &str) -> (r: Result<PlayerStatus, ()>)
        ensures
            r matches Ok(st) ==> status_of(s@) == Some(st),
            r is Err ==> status_of(s@) is None,
    {
        if str_equals(s, "Playing") {
            Ok(PlayerStatus::Playing)
        } else if str_equals(s, "Paused") {
            Ok(PlayerStatus::Paused)
        } else if str_equals(s, "Stopped") {
            Ok(PlayerStatus::Stopped)
        } else {
            Err(())
        }
    }
}

/// Metadata of the track that a player reports. Every field is optional: a
/// player that cleared its state reports none of them.
#[derive(Debug, PartialEq, Eq, Clone)]
pub struct PlayerMetadata {
    pub track_id: Option<String>,
    pub album: Option<String>,
    pub album_artists: Option<Vec<String>>,
    pub art_url: Option<String>,
    pub artists: Option<Vec<String>>,
    pub title: Option<String>,
    pub track_number: Option<u32>,
    pub track_url: Option<String>,
}

/// The metadata of a track as mathematical values.
pub struct MetadataView {
    pub track_id: Option<Seq<char>>,
    pub album: Option<Seq<char>>,
    pub album_artists: Option<Seq<Seq<char>>>,
    pub art_url: Option<Seq<char>>,
    pub artists: Option<Seq<Seq<char>>>,
    pub title: Option<Seq<char>>,
    pub track_number: Option<u32>,
    pub track_url: Option<Seq<char>>,
}

impl View for PlayerMetadata {
    type V = MetadataView;

    open spec fn view(&self) -> MetadataView {
        MetadataView {
            track_id: opt_str_view(self.track_id),
            album: opt_str_view(self.album),
            album_artists: opt_strs_view(self.album_artists),
            art_url: opt_str_view(self.art_url),
            artists: opt_strs_view(self.artists),
            title: opt_str_view(self.title),
            track_number: self.track_number,
            track_url: opt_str_view(self.track_url),
        }
    }
}

impl PlayerMetadata {
    /// A copy of this metadata.
    pub fn duplicate(&self) -> (r: PlayerMetadata)
        ensures
            r@ == self@,
    {
        PlayerMetadata {
            track_id: clone_opt_string(&self.track_id),
            album: clone_opt_string(&self.album),
            album_artists: clone_opt_strings(&self.album_artists),
            art_url: clone_opt_string(&self.art_url),
            artists: clone_opt_strings(&self.artists),
            title: clone_opt_string(&self.title),
            track_number: self.track_number,
            track_url: clone_opt_string(&self.track_url),
        }
    }
}

/// One decoded property-change signal: either part, both or neither may be
/// present.
#[derive(Debug, Clone)]
pub struct MprisPropertiesChange {
    pub status: Option<PlayerStatus>,
    pub metadata: Option<PlayerMetadata>,
}

/// A property change as mathematical values.
pub struct ChangeView {
    pub status: Option<PlayerStatus>,
    pub metadata: Option<MetadataView>,
}

impl View for MprisPropertiesChange {
    type V = ChangeView;

    open spec fn view(&self) -> ChangeView {
        ChangeView {
            status: self.status,
            metadata: match self.metadata {
                Some(m) => Some(m@),
                None => None,
            },
        }
    }
}

/// A variant value read from a bus message, in the shapes that matter here.
/// Every other shape is `Other`.
#[derive(Debug)]
pub enum BusValue {
    /// A string (`s`).
    Str(String),
    /// An unsigned 32-bit integer (`u`).
    U32(u32),
    /// An array of strings (`as`).
    StrList(Vec<String>),
    /// A dictionary from strings to variants (`a{sv}`), in wire order.
    Dict(Vec<(String, BusValue)>),
    /// Any other value.
    Other,
}

/// A signal received from the bus: the unique name of its sender, when the
/// header carries one, and the values of its body in order.
#[derive(Debug)]
pub struct BusSignal {
    pub sender: Option<String>,
    pub body: Vec<BusValue>,
}

/// The interface whose property changes are decoded.
pub open spec fn mpris_interface() -> Seq<char> {
    "org.mpris.MediaPlayer2.Player"@
}

/// The value stored under `key` in a dictionary; of repeated keys the last
/// one counts, as when the entries are inserted into a map in order.
pub open spec fn dict_get(entries: Seq<(String, BusValue)>, key: Seq<char>) -> Option<BusValue>
    decreases entries.len(),
{
    if entries.len() == 0 {
        None
    } else if entries.last().0@ == key {
        Some(entries.last().1)
    } else {
        dict_get(entries.drop_last(), key)
    }
}

/// A value read as a string.
pub open spec fn str_value(v: Option<BusValue>) -> Option<Seq<char>> {
    match v {
        Some(BusValue::Str(s)) => Some(s@),
        _ => None,
    }
}

/// A value read as a list of strings.
pub open spec fn strs_value(v: Option<BusValue>) -> Option<Seq<Seq<char>>> {
    match v {
        Some(BusValue::StrList(l)) => Some(strs_view(l@)),
        _ => None,
    }
}

/// A value read as an unsigned integer.
pub open spec fn u32_value(v: Option<BusValue>) -> Option<u32> {
    match v {
        Some(BusValue::U32(n)) => Some(n),
        _ => None,
    }
}

/// The metadata that a `Metadata` dictionary describes: each field is read
/// under its key, and a missing or mistyped value leaves that field absent.
pub open spec fn metadata_of(inner: Seq<(String, BusValue)>) -> MetadataView {
    MetadataView {
        track_id: str_value(dict_get(inner, "mpris:trackid"@)),
        album: str_value(dict_get(inner, "xesam:album"@)),
        album_artists: strs_value(dict_get(inner, "xesam:albumArtist"@)),
        art_url: str_value(dict_get(inner, "mpris:artUrl"@)),
        artists: strs_value(dict_get(inner, "xesam:artist"@)),
        title: str_value(dict_get(inner, "xesam:title"@)),
        track_number: u32_value(dict_get(inner, "xesam:trackNumber"@)),
        track_url: str_value(dict_get(inner, "xesam:url"@)),
    }
}

/// The change that a dictionary of changed properties describes.
pub open spec fn change_of(outer: Seq<(String, BusValue)>) -> ChangeView {
    ChangeView {
        status: match dict_get(outer, "PlaybackStatus"@) {
            Some(BusValue::Str(s)) => status_of(s@),
            _ => None,
        },
        metadata: match dict_get(outer, "Metadata"@) {
            Some(BusValue::Dict(inner)) => Some(metadata_of(inner@)),
            _ => None,
        },
    }
}

/// The interface name that a signal body starts with, if it starts with a
/// string.
pub open spec fn interface_name(body: Seq<BusValue>) -> Option<Seq<char>> {
    if body.len() > 0 {
        str_value(Some(body[0]))
    } else {
        None
    }
}

/// The message of the error for a signal of another interface.
pub open spec fn wrong_interface_message(name: Seq<char>) -> Seq<char> {
    "wrong interface type '"@ + name + "'"@
}

/// Whether a signal body starts with the name of the player interface.
pub open spec fn names_mpris_interface(body: Seq<BusValue>) -> bool {
    interface_name(body) == Some(mpris_interface())
}

/// Whether a signal body is a property change of the player interface: its
/// name, then the dictionary of changed properties.
pub open spec fn is_mpris_change(body: Seq<BusValue>) -> bool {
    names_mpris_interface(body) && body.len() > 1 && body[1] is Dict
}

/// The change that a property-change body of the player interface carries.
pub open spec fn decoded_change(body: Seq<BusValue>) -> ChangeView
    recommends
        is_mpris_change(body),
{
    match body[1] {
        BusValue::Dict(outer) => change_of(outer@),
        _ => ChangeView { status: None, metadata: None },
    }
}

/// The match rule for the property changes of players: `PropertiesChanged`
/// of `org.freedesktop.DBus.Properties` at `/org/mpris/MediaPlayer2`.
pub fn mpris_match_rule() -> (r: String)
    ensures
        r@ == match_rule_of(
            "org.freedesktop.DBus.Properties"@,
            "PropertiesChanged"@,
            "/org/mpris/MediaPlayer2"@,
        ),
{
    match_rule("org.freedesktop.DBus.Properties", "PropertiesChanged", "/org/mpris/MediaPlayer2")
}

/// The value stored under `key`, searched from the last entry back.
pub fn dict_lookup<'a>(entries: &'a Vec<(String, BusValue)>, key: &str) -> (r: Option<&'a BusValue>)
    ensures
        r matches Some(v) ==> dict_get(entries@, key@) == Some(*v),
        r is None ==> dict_get(entries@, key@) is None,
{
    let mut i: usize = entries.len();
    assert(entries@.subrange(0, i as int) =~= entries@);
    while i > 0
        invariant
            i <= entries@.len(),
            dict_get(entries@, key@) == dict_get(entries@.subrange(0, i as int), key@),
        decreases i,
    {
        let ghost prefix = entries@.subrange(0, i as int);
        assert(prefix.drop_last() =~= entries@.subrange(0, i - 1));
        if str_equals(entries[i - 1].0.as_str(), key) {
            return Some(&entries[i - 1].1);
        }
        i = i - 1;
    }
    assert(entries@.subrange(0, 0) =~= Seq::<(String, BusValue)>::empty());
    None
}

fn lookup_str(entries: &Vec<(String, BusValue)>, key: &str) -> (r: Option<String>)
    ensures
        opt_str_view(r) == str_value(dict_get(entries@, key@)),
{
    match dict_lookup(entries, key) {
        Some(BusValue::Str(s)) => Some(s.clone()),
        _ => None,
    }
}

fn lookup_strs(entries: &Vec<(String, BusValue)>, key: &str) -> (r: Option<Vec<String>>)
    ensures
        opt_strs_view(r) == strs_value(dict_get(entries@, key@)),
{
    match dict_lookup(entries, key) {
        Some(BusValue::StrList(l)) => Some(clone_strings(l)),
        _ => None,
    }
}

fn lookup_u32(entries: &Vec<(String, BusValue)>, key: &str) -> (r: Option<u32>)
    ensures
        r == u32_value(dict_get(entries@, key@)),
{
    match dict_lookup(entries, key) {
        Some(BusValue::U32(n)) => Some(*n),
        _ => None,
    }
}

/// Reads track metadata from a `Metadata` dictionary.
pub fn metadata_from_map(inner: &Vec<(String, BusValue)>) -> (r: PlayerMetadata)
    ensures
        r@ == metadata_of(inner@),
{
    PlayerMetadata {
        track_id: lookup_str(inner, "mpris:trackid"),
        album: lookup_str(inner, "xesam:album"),
        album_artists: lookup_strs(inner, "xesam:albumArtist"),
        art_url: lookup_str(inner, "mpris:artUrl"),
        artists: lookup_strs(inner, "xesam:artist"),
        title: lookup_str(inner, "xesam:title"),
        track_number: lookup_u32(inner, "xesam:trackNumber"),
        track_url: lookup_str(inner, "xesam:url"),
    }
}

impl MprisPropertiesChange {
    /// Decodes the body of a `PropertiesChanged` signal.
    ///
    /// A body that does not start with a string, or that names the player
    /// interface but has no dictionary of changed properties after it, is
    /// malformed. A body that names another interface is rejected as
    /// invalid, with the interface named in the message.
    pub fn try_from(body: &Vec<BusValue>) -> (r: Result<MprisPropertiesChange, DBusError>)
        ensures
            r is Ok <==> is_mpris_change(body@),
            r matches Ok(c) ==> c@ == decoded_change(body@),
            interface_name(body@) is None ==> r matches Err(DBusError::Unmarshal(_)),
            interface_name(body@) is Some && !names_mpris_interface(body@) ==> (r matches Err(
                DBusError::Invalid(m),
            ) && m@ == wrong_interface_message(interface_name(body@)->0)),
            names_mpris_interface(body@) && !is_mpris_change(body@) ==> r matches Err(
                DBusError::Unmarshal(_),
            ),
    {
        if body.len() == 0 {
            return Err(DBusError::Unmarshal(String::from_str("message body is empty")));
        }
        let name = match &body[0] {
            BusValue::Str(name) => name,
            _ => {
                return Err(DBusError::Unmarshal(String::from_str("expected the interface name")));
            },
        };
        if !str_equals(name.as_str(), "org.mpris.MediaPlayer2.Player") {
            let mut m = String::from_str("wrong interface type '");
            m.append(name.as_str());
            m.append("'");
            return Err(DBusError::Invalid(m));
        }
        if body.len() < 2 {
            return Err(DBusError::Unmarshal(String::from_str("expected the changed properties")));
        }
        let outer = match &body[1] {
            BusValue::Dict(outer) => outer,
            _ => {
                return Err(DBusError::Unmarshal(String::from_str("expected the changed properties")));
            },
        };
        let status = match dict_lookup(outer, "PlaybackStatus") {
            Some(BusValue::Str(s)) => match PlayerStatus::from_str(s.as_str()) {
                Ok(st) => Some(st),
                Err(_) => None,
            },
            _ => None,
        };
        let metadata = match dict_lookup(outer, "Metadata") {
            Some(BusValue::Dict(inner)) => Some(metadata_from_map(inner)),
            _ => None,
        };
        Ok(MprisPropertiesChange { status, metadata })
    }
}

} // verus!
