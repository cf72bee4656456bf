//! Points in time at one-second resolution, as they appear in archive names,
//! and the names of archives.

use vstd::prelude::*;
use vstd::string::*;
use crate::text::{chars_of, is_digit};

verus! {

/// The number of characters of a timestamp: eight for the date, a hyphen,
/// six for the time of day.
pub const STAMP_LEN: usize = 15;

/// Whether `s` has the shape `YYYYMMDD-HHMMSS`.
pub open spec fn is_stamp(s: Seq<char>) -> bool {
    &&& s.len() == 15
    &&& s[8] == '-'
    &&& forall|i: int| 0 <= i < 15 && i != 8 ==> is_digit(#[trigger] s[i])
}

/// The date of a timestamp, as `YYYY-MM-DD`.
pub open spec fn date_of(stamp: Seq<char>) -> Seq<char>
    recommends
        is_stamp(stamp),
{
    stamp.subrange(0, 4) + seq!['-'] + stamp.subrange(4, 6) + seq!['-'] + stamp.subrange(6, 8)
}

/// The name of the archive of a session made at a point in time.
pub open spec fn archive_name_of(session: Seq<char>, stamp: Seq<char>) -> Seq<char> {
    session + seq!['-'] + stamp
}

/// Whether `name` ends in a hyphen and a timestamp.
pub open spec fn has_stamp_suffix(name: Seq<char>) -> bool {
    &&& name.len() >= 16
    &&& name[name.len() - 16] == '-'
    &&& is_stamp(name.subrange(name.len() - 15, name.len() as int))
}

/// The timestamp at the end of an archive's name, where it has one.
pub open spec fn stamp_of(name: Seq<char>) -> Option<Seq<char>> {
    if has_stamp_suffix(name) {
        Some(name.subrange(name.len() - 15, name.len() as int))
    } else {
        None
    }
}

/// The name of the session that an archive was made of: the archive's name
/// without the hyphen and timestamp at its end, where it ends in them.
pub open spec fn original_session_of(name: Seq<char>) -> Option<Seq<char>> {
    if has_stamp_suffix(name) {
        Some(name.subrange(0, name.len() - 16))
    } else {
        None
    }
}

/// A point in time at one-second resolution, held as `YYYYMMDD-HHMMSS`.
#[derive(Debug, PartialEq, Eq)]
pub struct Timestamp {
    text: String,
}

impl View for Timestamp {
    type V = Seq<char>;

    closed spec fn view(&self) -> Seq<char> {
        self.text@
    }
}

/// The local time as chrono writes it for a pattern, from `Local::now` and
/// `DateTime::format`. Nothing is claimed of the text: it depends on the
/// clock and the time zone of the machine. Writing stops the program on a
/// pattern that chrono does not know, so the one pattern that the library
/// uses is the only one admitted. chrono also stops the program where the
/// clock stands before the year 1970.
#[verifier::external_body]
fn local_time_text(pattern: &str) -> (text: String)
    requires
        pattern@ == "%Y%m%d-%H%M%S"@,
{
    chrono::Local::now().format(pattern).to_string()
}

/// Whether the characters have the shape of a timestamp.
fn check_stamp(chars: &Vec<char>) -> (ok: bool)
    ensures
        ok == is_stamp(chars@),
{
    if chars.len() != STAMP_LEN {
        return false;
    }
    let mut i: usize = 0;
    while i < STAMP_LEN
        invariant
            i <= 15,
            chars@.len() == 15,
            forall|j: int| 0 <= j < i && j != 8 ==> is_digit(#[trigger] chars@[j]),
            i > 8 ==> chars@[8] == '-',
        decreases 15 - i,
    {
        let c = chars[i];
        if i == 8 {
            if c != '-' {
                return false;
            }
        } else if !(c >= '0' && c <= '9') {
            return false;
        }
        i = i + 1;
    }
    true
}

impl Timestamp {
    #[verifier::type_invariant]
    spec fn has_shape(&self) -> bool {
        is_stamp(self.text@)
    }

    /// Whether the timestamp has the shape `YYYYMMDD-HHMMSS`. Every timestamp
    /// that the library hands out has it.
    pub open spec fn wf(&self) -> bool {
        is_stamp(self@)
    }

    /// Reads a timestamp; `None` where the text has another shape.
    pub fn parse(text: &str) -> (stamp: Option<Timestamp>)
        ensures
            stamp is Some <==> is_stamp(text@),
            stamp matches Some(t) ==> t@ == text@ && t.wf(),
    {
        let chars = chars_of(text);
        if check_stamp(&chars) {
            Some(Timestamp { text: text.to_owned() })
        } else {
            None
        }
    }

    /// The local time of the machine; `None` where the clock gives a time
    /// that cannot be written as `YYYYMMDD-HHMMSS`.
    pub fn now() -> (stamp: Option<Timestamp>)
        ensures
            stamp matches Some(t) ==> t.wf(),
    {
        let text = local_time_text("%Y%m%d-%H%M%S");
        Timestamp::parse(text.as_str())
    }

    /// The timestamp as text.
    pub fn as_str(&self) -> (text: &str)
        ensures
            text@ == self@,
            is_stamp(text@),
    {
        proof {
            use_type_invariant(self);
        }
        self.text.as_str()
    }

    /// The date of the timestamp, as `YYYY-MM-DD`.
    pub fn date(&self) -> (text: String)
        ensures
            self.wf(),
            text@ == date_of(self@),
    {
        proof {
            use_type_invariant(self);
        }
        date_text(self.text.as_str())
    }
}

/// The date of a timestamp's text, as `YYYY-MM-DD`.
fn date_text(stamp: &str) -> (text: String)
    requires
        is_stamp(stamp@),
    ensures
        text@ == date_of(stamp@),
{
    let mut text = stamp.substring_char(0, 4).to_owned();
    text.append("-");
    text.append(stamp.substring_char(4, 6));
    text.append("-");
    text.append(stamp.substring_char(6, 8));
    proof {
        reveal_strlit("-");
        assert("-"@ =~= seq!['-']);
    }
    text
}

/// The name of the archive of `session` made at `stamp`.
pub fn archive_name(session: &str, stamp: &Timestamp) -> (name: String)
    ensures
        name@ == archive_name_of(session@, stamp@),
{
    let mut name = session.to_owned();
    name.append("-");
    name.append(stamp.as_str());
    proof {
        reveal_strlit("-");
        assert("-"@ =~= seq!['-']);
    }
    name
}

/// Whether the characters end in a hyphen and a timestamp.
fn check_stamp_suffix(chars: &Vec<char>) -> (ok: bool)
    ensures
        ok == has_stamp_suffix(chars@),
{
    let n = chars.len();
    if n < STAMP_LEN + 1 {
        return false;
    }
    if chars[n - 16] != '-' {
        return false;
    }
    let ghost tail = chars@.subrange(n - 15, n as int);
    let mut i: usize = 0;
    while i < STAMP_LEN
        invariant
            i <= 15,
            n == chars@.len(),
            n >= 16,
            tail == chars@.subrange(n - 15, n as int),
            forall|j: int| 0 <= j < i && j != 8 ==> is_digit(#[trigger] tail[j]),
            i > 8 ==> tail[8] == '-',
        decreases 15 - i,
    {
        let c = chars[n - 15 + i];
        assert(c == tail[i as int]);
        if i == 8 {
            if c != '-' {
                return false;
            }
        } else if !(c >= '0' && c <= '9') {
            return false;
        }
        i = i + 1;
    }
    true
}

/// The name of the session that the archive `name` was made of; `None`
/// where the name does not end in a hyphen and a timestamp.
pub fn original_session(name: &str) -> (session: Option<String>)
    ensures
        session is Some <==> has_stamp_suffix(name@),
        match session {
            Some(s) => original_session_of(name@) == Some(s@),
            None => original_session_of(name@) is None,
        },
{
    let chars = chars_of(name);
    if check_stamp_suffix(&chars) {
        let n = chars.len();
        Some(name.substring_char(0, n - 16).to_owned())
    } else {
        None
    }
}

/// The date on which the archive `name` was made, as `YYYY-MM-DD`; `None`
/// where the name does not end in a hyphen and a timestamp.
pub fn archive_date(name: &str) -> (date: Option<String>)
    ensures
        match date {
            Some(d) => stamp_of(name@) matches Some(stamp) && d@ == date_of(stamp),
            None => stamp_of(name@) is None,
        },
{
    let chars = chars_of(name);
    if check_stamp_suffix(&chars) {
        let n = chars.len();
        let stamp = name.substring_char(n - 15, n);
        Some(date_text(stamp))
    } else {
        None
    }
}

/// The name of an archive ends in its timestamp, and what stands before
/// the hyphen is the session's name, whatever characters that name holds.
pub proof fn lemma_archive_name_round_trip(session: Seq<char>, stamp: Seq<char>)
    requires
        is_stamp(stamp),
    ensures
        has_stamp_suffix(archive_name_of(session, stamp)),
        original_session_of(archive_name_of(session, stamp)) == Some(session),
        stamp_of(archive_name_of(session, stamp)) == Some(stamp),
{
    let name = archive_name_of(session, stamp);
    assert(name.len() == session.len() + 16);
    assert(name.subrange(name.len() - 15, name.len() as int) =~= stamp);
    assert(name.subrange(0, name.len() - 16) =~= session);
}

/// Archives of one session made at different times have different names, and
/// so have archives of different sessions made at the same time.
pub proof fn lemma_archive_names_differ(
    first: Seq<char>,
    first_stamp: Seq<char>,
    second: Seq<char>,
    second_stamp: Seq<char>,
)
    requires
        is_stamp(first_stamp),
        is_stamp(second_stamp),
        first != second || first_stamp != second_stamp,
    ensures
        archive_name_of(first, first_stamp) != archive_name_of(second, second_stamp),
{
    lemma_archive_name_round_trip(first, first_stamp);
    lemma_archive_name_round_trip(second, second_stamp);
}

} // verus!
