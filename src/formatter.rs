use vstd::prelude::*;

use crate::mpris::{MetadataView, PlayerMetadata};
use crate::text::{str_equals, strs_view};

verus! {

/// The character of a decimal digit.
pub open spec fn digit_char(d: nat) -> char {
    if d == 0 {
        '0'
    } else if d == 1 {
        '1'
    } else if d == 2 {
        '2'
    } else if d == 3 {
        '3'
    } else if d == 4 {
        '4'
    } else if d == 5 {
        '5'
    } else if d == 6 {
        '6'
    } else if d == 7 {
        '7'
    } else if d == 8 {
        '8'
    } else {
        '9'
    }
}

/// The decimal form of a number, without leading zeros.
pub open spec fn decimal(n: nat) -> Seq<char>
    decreases n,
{
    if n < 10 {
        seq![digit_char(n)]
    } else {
        decimal(n / 10) + seq![digit_char(n % 10)]
    }
}

/// The parts joined, with the separator between each two of them.
pub open spec fn join(parts: Seq<Seq<char>>, sep: Seq<char>) -> Seq<char>
    decreases parts.len(),
{
    if parts.len() == 0 {
        Seq::empty()
    } else if parts.len() == 1 {
        parts[0]
    } else {
        join(parts.drop_last(), sep) + sep + parts.last()
    }
}

/// A text field as rendered: its text, or nothing when it is absent.
pub open spec fn text_or_empty(field: Option<Seq<char>>) -> Seq<char> {
    match field {
        Some(s) => s,
        None => Seq::empty(),
    }
}

/// A list field as rendered: its entries joined, or nothing when it is absent.
pub open spec fn list_or_empty(field: Option<Seq<Seq<char>>>, sep: Seq<char>) -> Seq<char> {
    match field {
        Some(parts) => join(parts, sep),
        None => Seq::empty(),
    }
}

/// What a token of a template renders to. Unknown tokens stay as written.
pub open spec fn replacement(token: Seq<char>, md: MetadataView, sep: Seq<char>) -> Seq<char> {
    if token == "{album}"@ {
        text_or_empty(md.album)
    } else if token == "{album_artists}"@ || token == "{album_artist}"@ {
        list_or_empty(md.album_artists, sep)
    } else if token == "{artists}"@ || token == "{artist}"@ {
        list_or_empty(md.artists, sep)
    } else if token == "{title}"@ || token == "{track}"@ {
        text_or_empty(md.title)
    } else if token == "{track_number}"@ {
        decimal(
            match md.track_number {
                Some(n) => n as nat,
                None => 1,
            },
        )
    } else {
        token
    }
}

/// The first closing brace at or after `j`, or the end of the template.
pub open spec fn close_from(t: Seq<char>, j: int) -> int
    decreases t.len() - j,
{
    if j < 0 || j >= t.len() {
        t.len() as int
    } else if t[j] == '}' {
        j
    } else {
        close_from(t, j + 1)
    }
}

/// Whether a token starts at `i`: an opening brace, at least one character
/// that is not a closing brace, then a closing brace.
pub open spec fn token_at(t: Seq<char>, i: int) -> bool {
    0 <= i < t.len() && t[i] == '{' && close_from(t, i + 1) < t.len() && close_from(t, i + 1) > i + 1
}

/// The template from position `i` on, rendered: tokens are found from left
/// to right, each starting at the leftmost opening brace that begins one,
/// and replaced; every other character stays as it is.
pub open spec fn render_from(t: Seq<char>, i: int, md: MetadataView, sep: Seq<char>) -> Seq<char>
    decreases t.len() - i,
{
    if i < 0 || i >= t.len() {
        Seq::empty()
    } else if token_at(t, i) {
        replacement(t.subrange(i, close_from(t, i + 1) + 1), md, sep) + render_from(
            t,
            close_from(t, i + 1) + 1,
            md,
            sep,
        )
    } else {
        seq![t[i]] + render_from(t, i + 1, md, sep)
    }
}

/// A whole template rendered against a metadata record.
pub open spec fn rendered(t: Seq<char>, md: MetadataView, sep: Seq<char>) -> Seq<char> {
    render_from(t, 0, md, sep)
}

fn digit_str(d: u32) -> (r: &'static str)
    requires
        d < 10,
    ensures
        r@ == seq![digit_char(d as nat)],
{
    proof {
        reveal_strlit("0");
        reveal_strlit("1");
        reveal_strlit("2");
        reveal_strlit("3");
        reveal_strlit("4");
        reveal_strlit("5");
        reveal_strlit("6");
        reveal_strlit("7");
        reveal_strlit("8");
        reveal_strlit("9");
    }
    let r = if d == 0 {
        "0"
    } else if d == 1 {
        "1"
    } else if d == 2 {
        "2"
    } else if d == 3 {
        "3"
    } else if d == 4 {
        "4"
    } else if d == 5 {
        "5"
    } else if d == 6 {
        "6"
    } else if d == 7 {
        "7"
    } else if d == 8 {
        "8"
    } else {
        "9"
    };
    assert(r@ =~= seq![digit_char(d as nat)]);
    r
}

/// The decimal form of a number.
pub fn decimal_string(n: u32) -> (r: String)
    ensures
        r@ == decimal(n as nat),
    decreases n,
{
    if n < 10 {
        String::from_str(digit_str(n))
    } else {
        let mut s = decimal_string(n / 10);
        s.append(digit_str(n % 10));
        s
    }
}

/// The strings joined, with the separator between each two of them.
pub fn join_strings(parts: &Vec<String>, sep: &str) -> (r: String)
    ensures
        r@ == join(strs_view(parts@), sep@),
{
    if parts.len() == 0 {
        return String::new();
    }
    let mut out = parts[0].clone();
    let mut i: usize = 1;
    assert(strs_view(parts@.subrange(0, 1)) =~= seq![parts@[0]@]);
    while i < parts.len()
        invariant
            1 <= i <= parts@.len(),
            out@ == join(strs_view(parts@.subrange(0, i as int)), sep@),
        decreases parts.len() - i,
    {
        out.append(sep);
        out.append(parts[i].as_str());
        let ghost next = strs_view(parts@.subrange(0, i + 1));
        assert(next.drop_last() =~= strs_view(parts@.subrange(0, i as int)));
        assert(next.last() == parts@[i as int]@);
        i = i + 1;
    }
    assert(parts@.subrange(0, i as int) =~= parts@);
    out
}

/// A text field as it renders: its text, or the empty string.
pub fn unwrap_str_field(field: &Option<String>) -> (r: &str)
    ensures
        r@ == text_or_empty(crate::text::opt_str_view(*field)),
{
    match field {
        Some(s) => s.as_str(),
        None => {
            proof {
                reveal_strlit("");
            }
            ""
        },
    }
}

/// A list field as it renders: its entries joined, or the empty string.
pub fn unwrap_vec_field(field: &Option<Vec<String>>, join_str: &str) -> (r: String)
    ensures
        r@ == list_or_empty(crate::text::opt_strs_view(*field), join_str@),
{
    match field {
        Some(entries) => join_strings(entries, join_str),
        None => String::new(),
    }
}

/// A template bound to the metadata it renders and the separator of list
/// fields.
pub struct FormattedNotification<'a> {
    fmt: &'a str,
    metadata: &'a PlayerMetadata,
    join_str: &'a str,
}

impl<'a> FormattedNotification<'a> {
    pub closed spec fn template(&self) -> Seq<char> {
        self.fmt@
    }

    pub closed spec fn record(&self) -> MetadataView {
        self.metadata@
    }

    pub closed spec fn separator(&self) -> Seq<char> {
        self.join_str@
    }

    pub fn new(fmt: &'a str, metadata: &'a PlayerMetadata, join_str: &'a str) -> (r: Self)
        ensures
            r.template() == fmt@,
            r.record() == metadata@,
            r.separator() == join_str@,
    {
        FormattedNotification { fmt, metadata, join_str }
    }

    /// Appends what a token renders to.
    fn replace_append(&self, token: &str, dst: &mut String)
        ensures
            final(dst)@ == old(dst)@ + replacement(token@, self.record(), self.separator()),
    {
        let md = self.metadata;
        if str_equals(token, "{album}") {
            dst.append(unwrap_str_field(&md.album));
        } else if str_equals(token, "{album_artists}") || str_equals(token, "{album_artist}") {
            dst.append(unwrap_vec_field(&md.album_artists, self.join_str).as_str());
        } else if str_equals(token, "{artists}") || str_equals(token, "{artist}") {
            dst.append(unwrap_vec_field(&md.artists, self.join_str).as_str());
        } else if str_equals(token, "{title}") || str_equals(token, "{track}") {
            dst.append(unwrap_str_field(&md.title));
        } else if str_equals(token, "{track_number}") {
            let n = match md.track_number {
                Some(n) => n,
                None => 1,
            };
            dst.append(decimal_string(n).as_str());
        } else {
            dst.append(token);
        }
    }

    /// The rendered text.
    pub fn to_string(&self) -> (r: String)
        ensures
            r@ == rendered(self.template(), self.record(), self.separator()),
    {
        let t = self.fmt;
        let ghost md = self.record();
        let ghost sep = self.separator();
        let n = t.unicode_len();
        let mut out = String::new();
        let mut i: usize = 0;
        while i < n
            invariant
                n == t@.len(),
                i <= n,
                t@ == self.template(),
                md == self.record(),
                sep == self.separator(),
                out@ + render_from(t@, i as int, md, sep) == rendered(t@, md, sep),
            decreases n - i,
        {
            let ghost before = out@;
            if t.get_char(i) == '{' {
                let mut j: usize = i + 1;
                while j < n && t.get_char(j) != '}'
                    invariant
                        n == t@.len(),
                        i < j <= n,
                        close_from(t@, i + 1) == close_from(t@, j as int),
                    decreases n - j,
                {
                    j = j + 1;
                }
                if j < n && j > i + 1 {
                    assert(token_at(t@, i as int));
                    let token = t.substring_char(i, j + 1);
                    self.replace_append(token, &mut out);
                    assert(out@ + render_from(t@, j + 1, md, sep) =~= before + render_from(
                        t@,
                        i as int,
                        md,
                        sep,
                    ));
                    i = j + 1;
                    continue;
                }
            }
            assert(!token_at(t@, i as int));
            out.append(t.substring_char(i, i + 1));
            assert(out@ + render_from(t@, i + 1, md, sep) =~= before + render_from(
                t@,
                i as int,
                md,
                sep,
            ));
            i = i + 1;
        }
        assert(render_from(t@, n as int, md, sep) =~= Seq::<char>::empty());
        assert(out@ =~= out@ + render_from(t@, n as int, md, sep));
        out
    }
}

} // verus!
