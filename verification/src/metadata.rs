//! One track's display record: the file it came from and the tag fields that
//! were read for it. A record is built once per enqueue and never mutated
//! afterward; absent tag fields degrade to a file-name fallback for display,
//! never to an error.

use vstd::prelude::*;
use vstd::string::StringExecFns;

verus! {

/// The mathematical value of a `FileMetadata`: every text field as a
/// sequence of characters.
#[verifier::ext_equal]
pub struct MetaView {
    pub album: Option<Seq<char>>,
    pub artist: Option<Seq<char>>,
    pub duration_as_secs: Option<u64>,
    pub duration_display: Option<(u64, u64)>,
    pub file_path: Seq<char>,
    pub raw_file: Seq<char>,
    pub title: Option<Seq<char>>,
    pub track_number: Option<u16>,
    pub year: Option<i32>,
}

impl MetaView {
    /// The record with no tag data and no file: what a fresh session or a
    /// cleared display shows.
    pub open spec fn empty() -> MetaView {
        MetaView {
            album: None,
            artist: None,
            duration_as_secs: None,
            duration_display: None,
            file_path: Seq::empty(),
            raw_file: Seq::empty(),
            title: None,
            track_number: None,
            year: None,
        }
    }

    /// The name a queue listing shows for this record: the title when one was
    /// read, the bare file name otherwise.
    pub open spec fn display_name(self) -> Seq<char> {
        match self.title {
            Some(t) => t,
            None => self.raw_file,
        }
    }
}

/// Display attributes of one track, derived once from its file.
pub struct FileMetadata {
    pub album: Option<String>,
    pub artist: Option<String>,
    pub duration_as_secs: Option<u64>,
    pub duration_display: Option<(u64, u64)>,
    pub file_path: String,
    pub raw_file: String,
    pub title: Option<String>,
    pub track_number: Option<u16>,
    pub year: Option<i32>,
}

pub open spec fn text_view(o: Option<String>) -> Option<Seq<char>> {
    match o {
        Some(s) => Some(s@),
        None => None,
    }
}

impl View for FileMetadata {
    type V = MetaView;

    open spec fn view(&self) -> MetaView {
        MetaView {
            album: text_view(self.album),
            artist: text_view(self.artist),
            duration_as_secs: self.duration_as_secs,
            duration_display: self.duration_display,
            file_path: self.file_path@,
            raw_file: self.raw_file@,
            title: text_view(self.title),
            track_number: self.track_number,
            year: self.year,
        }
    }
}

impl Clone for FileMetadata {
    fn clone(&self) -> (r: FileMetadata)
        ensures
            r@ == self@,
    {
        let r = FileMetadata {
            album: match &self.album {
                Some(s) => Some(s.clone()),
                None => None,
            },
            artist: match &self.artist {
                Some(s) => Some(s.clone()),
                None => None,
            },
            duration_as_secs: self.duration_as_secs,
            duration_display: self.duration_display,
            file_path: self.file_path.clone(),
            raw_file: self.raw_file.clone(),
            title: match &self.title {
                Some(s) => Some(s.clone()),
                None => None,
            },
            track_number: self.track_number,
            year: self.year,
        };
        proof {
            assert(r@ =~= self@);
        }
        r
    }
}

/// The character for one decimal digit.
pub open spec fn digit_char(d: int) -> char {
    if d == 0 {
        '0'
    } else if d == 1 {
        '1'
    } else if d == 2 {
        '2'
    } else if d == 3 {
        '3'
    } else if d == 4 {
        '4'
    } else if d == 5 {
        '5'
    } else if d == 6 {
        '6'
    } else if d == 7 {
        '7'
    } else if d == 8 {
        '8'
    } else {
        '9'
    }
}

/// The decimal digits of `n`, most significant first, with no leading zeros
/// except for `n == 0` itself.
pub open spec fn dec_digits(n: nat) -> Seq<char>
    decreases n,
{
    if n < 10 {
        seq![digit_char(n as int)]
    } else {
        dec_digits(n / 10).push(digit_char((n % 10) as int))
    }
}

/// The decimal text of a possibly negative number: a minus sign before the
/// digits of its magnitude.
pub open spec fn dec_int(n: int) -> Seq<char> {
    if n >= 0 {
        dec_digits(n as nat)
    } else {
        seq!['-'] + dec_digits((-n) as nat)
    }
}

/// The digits of `n` padded with a leading zero to at least two places.
pub open spec fn padded_digits(n: nat) -> Seq<char> {
    if n < 10 {
        seq!['0'] + dec_digits(n)
    } else {
        dec_digits(n)
    }
}

/// A playback clock reading: minutes, a colon, and two-digit seconds.
pub open spec fn clock_text(min: nat, sec: nat) -> Seq<char> {
    dec_digits(min) + seq![':'] + padded_digits(sec)
}

/// The one-character string for a decimal digit.
fn digit_str(d: u64) -> (s: &'static str)
    requires
        d < 10,
    ensures
        s@ =~= seq![digit_char(d as int)],
{
    if d == 0 {
        proof {
            reveal_strlit("0");
        }
        "0"
    } else if d == 1 {
        proof {
            reveal_strlit("1");
        }
        "1"
    } else if d == 2 {
        proof {
            reveal_strlit("2");
        }
        "2"
    } else if d == 3 {
        proof {
            reveal_strlit("3");
        }
        "3"
    } else if d == 4 {
        proof {
            reveal_strlit("4");
        }
        "4"
    } else if d == 5 {
        proof {
            reveal_strlit("5");
        }
        "5"
    } else if d == 6 {
        proof {
            reveal_strlit("6");
        }
        "6"
    } else if d == 7 {
        proof {
            reveal_strlit("7");
        }
        "7"
    } else if d == 8 {
        proof {
            reveal_strlit("8");
        }
        "8"
    } else {
        proof {
            reveal_strlit("9");
        }
        "9"
    }
}

/// Renders an unsigned number in decimal.
pub fn decimal_string(n: u64) -> (s: String)
    ensures
        s@ == dec_digits(n as nat),
    decreases n,
{
    if n < 10 {
        String::from_str(digit_str(n))
    } else {
        let mut s = decimal_string(n / 10);
        s.append(digit_str(n % 10));
        proof {
            assert(s@ =~= dec_digits(n as nat));
        }
        s
    }
}

/// Renders a signed number in decimal.
pub fn signed_decimal_string(n: i32) -> (s: String)
    ensures
        s@ == dec_int(n as int),
{
    if n >= 0 {
        let s = decimal_string(n as u64);
        s
    } else {
        let mag: u64 = (-(n as i64)) as u64;
        proof {
            reveal_strlit("-");
        }
        let mut s = String::from_str("-");
        let digits = decimal_string(mag);
        s.append(digits.as_str());
        proof {
            assert(s@ =~= dec_int(n as int));
        }
        s
    }
}

impl FileMetadata {
    /// The empty record: no file, no tag data.
    pub fn new() -> (m: FileMetadata)
        ensures
            m@ == MetaView::empty(),
    {
        let m = FileMetadata {
            album: None,
            artist: None,
            duration_as_secs: None,
            duration_display: None,
            file_path: String::new(),
            raw_file: String::new(),
            title: None,
            track_number: None,
            year: None,
        };
        proof {
            assert(m@ =~= MetaView::empty());
        }
        m
    }

    /// The album name, or nothing when none was read.
    pub fn display_album(&self) -> (s: String)
        ensures
            s@ == match self@.album {
                Some(a) => a,
                None => Seq::<char>::empty(),
            },
    {
        match &self.album {
            Some(album) => album.clone(),
            None => String::new(),
        }
    }

    /// The artist name, or nothing when none was read.
    pub fn display_artist(&self) -> (s: String)
        ensures
            s@ == match self@.artist {
                Some(a) => a,
                None => Seq::<char>::empty(),
            },
    {
        match &self.artist {
            Some(artist) => artist.clone(),
            None => String::new(),
        }
    }

    /// The title, with the bare file name as the fallback when no title tag
    /// was read.
    pub fn display_title(&self) -> (s: String)
        ensures
            s@ == self@.display_name(),
    {
        match &self.title {
            Some(title) => title.clone(),
            None => self.raw_file.clone(),
        }
    }

    /// The release year in decimal, or nothing when none was read.
    pub fn display_year(&self) -> (s: String)
        ensures
            s@ == match self@.year {
                Some(y) => dec_int(y as int),
                None => Seq::<char>::empty(),
            },
    {
        match self.year {
            Some(year) => signed_decimal_string(year),
            None => String::new(),
        }
    }

    /// The track number in decimal, or nothing when none was read.
    pub fn display_track_number(&self) -> (s: String)
        ensures
            s@ == match self@.track_number {
                Some(t) => dec_digits(t as nat),
                None => Seq::<char>::empty(),
            },
    {
        match self.track_number {
            Some(track_number) => decimal_string(track_number as u64),
            None => String::new(),
        }
    }

    /// Splits a duration in whole seconds into minutes and leftover seconds.
    pub fn sec_to_min_sec(duration: u64) -> (r: (u64, u64))
        ensures
            r.0 == duration as int / 60,
            r.1 == duration as int % 60,
    {
        (duration / 60, duration % 60)
    }

    /// The duration as a clock reading, or nothing when none was read.
    pub fn display_duration_display(&self) -> (s: String)
        ensures
            s@ == match self@.duration_display {
                Some((min, sec)) => clock_text(min as nat, sec as nat),
                None => Seq::<char>::empty(),
            },
    {
        match self.duration_display {
            Some((min, sec)) => {
                let mut s = decimal_string(min);
                proof {
                    reveal_strlit(":");
                    reveal_strlit("0");
                }
                s.append(":");
                if sec < 10 {
                    s.append("0");
                }
                let sec_digits = decimal_string(sec);
                s.append(sec_digits.as_str());
                proof {
                    assert(s@ =~= clock_text(min as nat, sec as nat));
                }
                s
            },
            None => String::new(),
        }
    }
}

} // verus!
