use vstd::prelude::*;

use crate::text::{clone_strings, strs_view};

verus! {

/// User settings: the notification templates, the separator of list fields,
/// the album-art switch and deadline, and the commands to run after each
/// notification.
#[derive(Debug, Clone, PartialEq, Eq)]
pub struct Configuration {
    /// Template of the notification subject.
    pub subject_format: String,
    /// Template of the notification body.
    pub body_format: String,
    /// Separator placed between the entries of list fields (such as the
    /// artists).
    pub join_string: String,
    /// Whether album art is fetched and attached.
    pub enable_album_art: bool,
    /// How long, in milliseconds, an album-art fetch may take.
    pub album_art_deadline: u32,
    /// Commands to run after each notification, each as a program followed by
    /// its arguments.
    pub commands: Vec<Vec<String>>,
}

/// The settings as mathematical values.
pub struct ConfigView {
    pub subject_format: Seq<char>,
    pub body_format: Seq<char>,
    pub join_string: Seq<char>,
    pub enable_album_art: bool,
    pub album_art_deadline: u32,
    pub commands: Seq<Seq<Seq<char>>>,
}

/// The views of a list of argument vectors.
pub open spec fn argvs_view(v: Seq<Vec<String>>) -> Seq<Seq<Seq<char>>> {
    v.map_values(|a: Vec<String>| strs_view(a@))
}

impl View for Configuration {
    type V = ConfigView;

    open spec fn view(&self) -> ConfigView {
        ConfigView {
            subject_format: self.subject_format@,
            body_format: self.body_format@,
            join_string: self.join_string@,
            enable_album_art: self.enable_album_art,
            album_art_deadline: self.album_art_deadline,
            commands: argvs_view(self.commands@),
        }
    }
}

/// The settings used when the user has none.
pub open spec fn default_configuration() -> ConfigView {
    ConfigView {
        subject_format: "{track}"@,
        body_format: "{album} - {artist}"@,
        join_string: ", "@,
        enable_album_art: true,
        album_art_deadline: 1000,
        commands: Seq::empty(),
    }
}

/// A copy of a list of argument vectors.
pub fn clone_argvs(v: &Vec<Vec<String>>) -> (r: Vec<Vec<String>>)
    ensures
        argvs_view(r@) == argvs_view(v@),
{
    let mut r: Vec<Vec<String>> = Vec::new();
    let mut i: usize = 0;
    while i < v.len()
        invariant
            i <= v@.len(),
            r@.len() == i,
            forall|k: int| 0 <= k < i ==> strs_view(#[trigger] r@[k]@) == strs_view(v@[k]@),
        decreases v.len() - i,
    {
        r.push(clone_strings(&v[i]));
        i = i + 1;
    }
    assert(argvs_view(r@) =~= argvs_view(v@));
    r
}

impl Configuration {
    /// A copy of these settings.
    pub fn duplicate(&self) -> (r: Configuration)
        ensures
            r@ == self@,
    {
        Configuration {
            subject_format: self.subject_format.clone(),
            body_format: self.body_format.clone(),
            join_string: self.join_string.clone(),
            enable_album_art: self.enable_album_art,
            album_art_deadline: self.album_art_deadline,
            commands: clone_argvs(&self.commands),
        }
    }
}

impl Default for Configuration {
    fn default() -> (r: Configuration)
        ensures
            r@ == default_configuration(),
    {
        let r = Configuration {
            subject_format: String::from_str("{track}"),
            body_format: String::from_str("{album} - {artist}"),
            join_string: String::from_str(", "),
            enable_album_art: true,
            album_art_deadline: 1000,
            commands: Vec::new(),
        };
        assert(argvs_view(r.commands@) =~= Seq::empty());
        r
    }
}

} // verus!
