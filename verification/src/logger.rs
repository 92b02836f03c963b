//! Where the event log lives and which of its lines are shown.
use vstd::prelude::*;
use crate::numbers::{push_zero_padded, zero_padded_spec};

verus! {

broadcast use vstd::seq_lib::group_seq_properties;

/// The `[year]-[month]-[day]` text of a date: the year on at least four
/// digits, after a `-` when negative and a `+` from 10000 on; the month and
/// the day on two digits.
pub open spec fn date_text_spec(year: int, month: nat, day: nat) -> Seq<char> {
    let sign = if year < 0 {
        seq!['-']
    } else if year >= 10000 {
        seq!['+']
    } else {
        Seq::<char>::empty()
    };
    let magnitude: nat = if year < 0 {
        (-year) as nat
    } else {
        year as nat
    };
    sign + zero_padded_spec(magnitude, 4) + seq!['-'] + zero_padded_spec(month, 2) + seq!['-']
        + zero_padded_spec(day, 2)
}

/// Writes a date as `[year]-[month]-[day]`.
pub fn date_text(year: i32, month: u8, day: u8) -> (text: String)
    ensures
        text@ == date_text_spec(year as int, month as nat, day as nat),
{
    let mut text = String::new();
    let magnitude: u64 = if year < 0 {
        (0i64 - year as i64) as u64
    } else {
        year as u64
    };
    if year < 0 {
        text.push('-');
    } else if year >= 10000 {
        text.push('+');
    }
    push_zero_padded(&mut text, magnitude, 4);
    text.push('-');
    push_zero_padded(&mut text, month as u64, 2);
    text.push('-');
    push_zero_padded(&mut text, day as u64, 2);
    proof {
        let sign = if year < 0 {
            seq!['-']
        } else if year >= 10000 {
            seq!['+']
        } else {
            Seq::<char>::empty()
        };
        assert(text@ =~= sign + zero_padded_spec(magnitude as nat, 4) + seq!['-']
            + zero_padded_spec(month as nat, 2) + seq!['-'] + zero_padded_spec(day as nat, 2));
    }
    text
}

/// The event log: one file per local day in a log directory.
pub struct EventLogger {
    log_dir: String,
}

/// A file name appended to a directory, with a `\` between them unless the
/// directory is empty or already ends in a separator.
pub open spec fn join_path_spec(dir: Seq<char>, name: Seq<char>) -> Seq<char> {
    if dir.len() == 0 {
        name
    } else if dir.last() == '\\' || dir.last() == '/' {
        dir + name
    } else {
        dir + "\\"@ + name
    }
}

impl EventLogger {
    pub closed spec fn dir(&self) -> Seq<char> {
        self.log_dir@
    }

    /// A logger writing into `log_dir`.
    pub fn new(log_dir: String) -> (l: Self)
        ensures
            l.dir() == log_dir@,
    {
        EventLogger { log_dir }
    }

    /// The log directory.
    pub fn log_dir(&self) -> (r: &str)
        ensures
            r@ == self.dir(),
    {
        self.log_dir.as_str()
    }

    /// The path of the log file for a day: `<log_dir>\<date>.log`, the date
    /// written `[year]-[month]-[day]`.
    pub fn current_log_path(&self, year: i32, month: u8, day: u8) -> (path: String)
        ensures
            path@ == join_path_spec(
                self.dir(),
                date_text_spec(year as int, month as nat, day as nat) + ".log"@,
            ),
    {
        let date = date_text(year, month, day);
        self.log_path_for_date(date.as_str())
    }

    /// The path of the log file for the day whose date reads `date_label`:
    /// `<log_dir>\<date_label>.log`.
    pub fn log_path_for_date(&self, date_label: &str) -> (path: String)
        ensures
            path@ == join_path_spec(self.dir(), date_label@ + ".log"@),
    {
        let mut path = String::new();
        let dir = self.log_dir.as_str();
        let n = dir.unicode_len();
        if n > 0 {
            path.append(dir);
            let last = dir.get_char(n - 1);
            if last != '\\' && last != '/' {
                path.append("\\");
            }
        }
        path.append(date_label);
        path.append(".log");
        proof {
            if n == 0 {
                assert(self.dir() =~= Seq::<char>::empty());
                assert(path@ =~= date_label@ + ".log"@);
            }
        }
        path
    }
}

/// The last `limit` lines (all of them when there are fewer).
pub open spec fn tail_spec(lines: Seq<String>, limit: nat) -> Seq<String> {
    if lines.len() > limit {
        lines.skip(lines.len() - limit)
    } else {
        lines
    }
}

/// Keeps the last `limit` lines of a log, in order; none when `limit` is 0.
pub fn recent_lines(lines: Vec<String>, limit: usize) -> (r: Vec<String>)
    ensures
        r@ == tail_spec(lines@, limit as nat),
{
    if limit == 0 {
        assert(lines@.skip(lines@.len() as int) =~= Seq::<String>::empty());
        return Vec::new();
    }
    let mut lines = lines;
    if lines.len() > limit {
        let at = lines.len() - limit;
        lines = lines.split_off(at);
    }
    lines
}

/// How many recent lines are read when asked for `limit`: 50 when nothing is
/// asked, and never more than 500.
pub fn recent_line_limit(limit: Option<usize>) -> (r: usize)
    ensures
        r == (match limit {
            Some(n) => if n < 500 {
                n
            } else {
                500usize
            },
            None => 50usize,
        }),
{
    let n = match limit {
        Some(n) => n,
        None => 50,
    };
    if n < 500 {
        n
    } else {
        500
    }
}

} // verus!
