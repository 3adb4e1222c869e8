//! The log shown by the dashboard: entries in insertion order and the
//! selected entry.
use vstd::prelude::*;

verus! {

/// One log entry. `id` is made of the creation time and a random token.
#[derive(Clone, Debug)]
pub struct LogEntry {
    pub id: String,
    pub summary: String,
    pub details: String,
    pub created_at: u64,
}

pub struct EntryView {
    pub id: Seq<char>,
    pub summary: Seq<char>,
    pub details: Seq<char>,
    pub created_at: u64,
}

impl View for LogEntry {
    type V = EntryView;

    open spec fn view(&self) -> EntryView {
        EntryView { id: self.id@, summary: self.summary@, details: self.details@, created_at: self.created_at }
    }
}

pub open spec fn entries_view(v: Seq<LogEntry>) -> Seq<EntryView> {
    v.map_values(|e: LogEntry| e@)
}

pub struct LoggerView {
    pub entries: Seq<EntryView>,
    pub selected: Option<usize>,
}

/// The decimal digit `d`.
pub open spec fn digit_char(d: nat) -> char {
    seq!['0', '1', '2', '3', '4', '5', '6', '7', '8', '9'][d as int]
}

/// The decimal representation of `n`: no sign, no leading zero.
pub open spec fn decimal_text(n: nat) -> Seq<char>
    decreases n,
{
    if n < 10 {
        seq![digit_char(n)]
    } else {
        decimal_text(n / 10).push(digit_char(n % 10))
    }
}

/// The id of an entry created at `created_at` with random token `token`.
pub open spec fn entry_id(created_at: u64, token: Seq<char>) -> Seq<char> {
    decimal_text(created_at as nat) + "-"@ + token
}

/// Relies on the `Display` impl of `u64` (through `to_string`): its decimal
/// digits, without sign or leading zeros.
#[verifier::external_body]
fn decimal(n: u64) -> (r: String)
    ensures
        r@ == decimal_text(n as nat),
{
    n.to_string()
}

/// Relies on `uuid::Uuid::new_v4` and the uuid's `Display` impl: a random
/// uuid in its hyphenated form, 36 characters.
#[verifier::external_body]
fn random_token() -> (r: String)
    ensures
        r@.len() == 36,
{
    uuid::Uuid::new_v4().to_string()
}

/// The system clock's time points, carried through opaquely.
#[verifier::external_type_specification]
#[verifier::external_body]
pub struct ExSystemTime(std::time::SystemTime);

/// Relies on `SystemTime::now`: the system clock's current time; nothing is
/// known of its value.
pub assume_specification[ std::time::SystemTime::now ]() -> std::time::SystemTime;

/// Relies on `SystemTime::duration_since(UNIX_EPOCH)`: the whole seconds of
/// `t` since the epoch, `None` when `t` is earlier.
#[verifier::external_body]
fn seconds_since_epoch(t: &std::time::SystemTime) -> (r: Option<u64>) {
    t.duration_since(std::time::UNIX_EPOCH).ok().map(|d| d.as_secs())
}

/// The text of the UTC date and time `secs` seconds after the epoch, in the
/// form `%Y-%m-%d %H:%M:%S`, or `None` outside the range of dates that can
/// be represented.
pub uninterp spec fn utc_timestamp_text(secs: int) -> Option<Seq<char>>;

pub open spec fn opt_string_view(o: Option<String>) -> Option<Seq<char>> {
    match o {
        Some(s) => Some(s@),
        None => None,
    }
}

/// Relies on chrono's `DateTime::from_timestamp` (`None` out of range) and
/// `DateTime::format` with the pattern `%Y-%m-%d %H:%M:%S`.
#[verifier::external_body]
fn utc_text(secs: i64) -> (r: Option<String>)
    ensures
        opt_string_view(r) == utc_timestamp_text(secs as int),
{
    chrono::DateTime::from_timestamp(secs, 0).map(|t| t.format("%Y-%m-%d %H:%M:%S").to_string())
}

impl LogEntry {
    /// The entry's creation time as UTC date and time, `None` when it cannot
    /// be represented.
    pub fn time_text(&self) -> (r: Option<String>)
        ensures
            opt_string_view(r) == utc_timestamp_text((self.created_at as i64) as int),
    {
        utc_text(self.created_at as i64)
    }
}

/// The line that shows `e`: its time, then its summary.
pub open spec fn log_line(e: EntryView) -> Option<Seq<char>> {
    match utc_timestamp_text((e.created_at as i64) as int) {
        Some(t) => Some(t + " -- "@ + e.summary),
        None => None,
    }
}

/// The lines of `es`, one per entry, separated by line feeds; `None` when
/// the time of an entry cannot be shown.
pub open spec fn formatted_logs(es: Seq<EntryView>) -> Option<Seq<char>>
    decreases es.len(),
{
    if es.len() == 0 {
        Some(Seq::empty())
    } else {
        match (formatted_logs(es.drop_last()), log_line(es.last())) {
            (Some(prev), Some(line)) => Some(
                if es.len() == 1 {
                    line
                } else {
                    prev + "\n"@ + line
                },
            ),
            _ => None,
        }
    }
}

proof fn lemma_unshowable_stays_unshowable(es: Seq<EntryView>, n: int)
    requires
        0 <= n <= es.len(),
        formatted_logs(es.subrange(0, n)) is None,
    ensures
        formatted_logs(es) is None,
    decreases es.len() - n,
{
    if n < es.len() {
        assert(es.subrange(0, n + 1).drop_last() =~= es.subrange(0, n));
        lemma_unshowable_stays_unshowable(es, n + 1);
    } else {
        assert(es.subrange(0, n) =~= es);
    }
}

/// The selection after moving down: the next entry, wrapping to the first;
/// the first when nothing is selected; unchanged when there is no entry.
pub open spec fn next_selection(len: nat, sel: Option<usize>) -> Option<usize> {
    if len == 0 {
        sel
    } else {
        match sel {
            Some(i) => if i >= len - 1 {
                Some(0usize)
            } else {
                Some((i + 1) as usize)
            },
            None => Some(0usize),
        }
    }
}

/// The selection after moving up: the previous entry, wrapping to the last;
/// the first when nothing is selected; unchanged when there is no entry.
pub open spec fn previous_selection(len: nat, sel: Option<usize>) -> Option<usize> {
    if len == 0 {
        sel
    } else {
        match sel {
            Some(i) => if i == 0 {
                Some((len - 1) as usize)
            } else {
                Some((i - 1) as usize)
            },
            None => Some(0usize),
        }
    }
}

/// The log: entries in insertion order and the selected index, if any.
pub struct Logger {
    logs: Vec<LogEntry>,
    selected: Option<usize>,
}

impl View for Logger {
    type V = LoggerView;

    closed spec fn view(&self) -> LoggerView {
        LoggerView { entries: entries_view(self.logs@), selected: self.selected }
    }
}

impl Logger {
    pub fn new() -> (r: Self)
        ensures
            r@.entries == Seq::<EntryView>::empty(),
            r@.selected is None,
    {
        let r = Logger { logs: Vec::new(), selected: None };
        assert(r@.entries =~= Seq::<EntryView>::empty());
        r
    }

    /// Appends an entry created at `created_at`, whose id is that time and
    /// `token`.
    pub fn add_entry(&mut self, summary: String, details: String, created_at: u64, token: String)
        ensures
            final(self)@.entries == old(self)@.entries.push(
                EntryView {
                    id: entry_id(created_at, token@),
                    summary: summary@,
                    details: details@,
                    created_at,
                },
            ),
            final(self)@.selected == old(self)@.selected,
    {
        let id = decimal(created_at).concat("-").concat(token.as_str());
        let ghost before = self.logs@;
        self.logs.push(LogEntry { id, summary, details, created_at });
        assert(entries_view(self.logs@) =~= entries_view(before).push(self.logs@.last()@));
    }

    /// Appends an entry stamped with the current time and a fresh random
    /// token. A clock that reads before the epoch stamps it 0.
    pub fn add(&mut self, summary: String, details: String)
        ensures
            final(self)@.entries.drop_last() == old(self)@.entries,
            final(self)@.entries.len() == old(self)@.entries.len() + 1,
            final(self)@.entries.last().summary == summary@,
            final(self)@.entries.last().details == details@,
            exists|token: Seq<char>|
                token.len() == 36 && final(self)@.entries.last().id == entry_id(
                    final(self)@.entries.last().created_at,
                    token,
                ),
            final(self)@.selected == old(self)@.selected,
    {
        let now = std::time::SystemTime::now();
        let created_at = match seconds_since_epoch(&now) {
            Some(t) => t,
            None => 0,
        };
        let token = random_token();
        let ghost t = token@;
        self.add_entry(summary, details, created_at, token);
        assert(self@.entries.drop_last() =~= old(self)@.entries);
        assert(t.len() == 36 && self@.entries.last().id == entry_id(self@.entries.last().created_at, t));
    }

    /// All entries, one line each: time and summary.
    pub fn format_logs(&self) -> (r: Option<String>)
        ensures
            opt_string_view(r) == formatted_logs(self@.entries),
    {
        let mut out = String::new();
        let mut i: usize = 0;
        while i < self.logs.len()
            invariant
                i <= self.logs@.len(),
                formatted_logs(entries_view(self.logs@).subrange(0, i as int)) == Some(out@),
            decreases self.logs.len() - i,
        {
            let ghost es = entries_view(self.logs@);
            assert(es.subrange(0, i + 1).drop_last() =~= es.subrange(0, i as int));
            let entry = &self.logs[i];
            match entry.time_text() {
                Some(t) => {
                    if i > 0 {
                        out.append("\n");
                    }
                    out.append(t.as_str());
                    out.append(" -- ");
                    out.append(entry.summary.as_str());
                },
                None => {
                    proof {
                        lemma_unshowable_stays_unshowable(es, i + 1);
                    }
                    return None;
                },
            }
            i = i + 1;
            assert(formatted_logs(es.subrange(0, i as int)) == Some(out@));
        }
        assert(entries_view(self.logs@).subrange(0, self.logs@.len() as int) =~= entries_view(
            self.logs@,
        ));
        Some(out)
    }

    pub fn get_logs(&self) -> (r: &Vec<LogEntry>)
        ensures
            entries_view(r@) == self@.entries,
    {
        &self.logs
    }

    pub fn get_selected(&self) -> (r: Option<usize>)
        ensures
            r == self@.selected,
    {
        self.selected
    }

    pub fn select(&mut self, index: Option<usize>)
        ensures
            final(self)@ == (LoggerView { selected: index, ..old(self)@ }),
    {
        self.selected = index;
    }

    /// Moves the selection one entry down, wrapping around.
    pub fn next_log(&mut self)
        ensures
            final(self)@ == (LoggerView {
                selected: next_selection(old(self)@.entries.len(), old(self)@.selected),
                ..old(self)@
            }),
    {
        let n = self.logs.len();
        if n == 0 {
            return;
        }
        let i = match self.selected {
            Some(i) => if i >= n - 1 {
                0
            } else {
                i + 1
            },
            None => 0,
        };
        self.select(Some(i));
    }

    /// Moves the selection one entry up, wrapping around.
    pub fn previous_log(&mut self)
        ensures
            final(self)@ == (LoggerView {
                selected: previous_selection(old(self)@.entries.len(), old(self)@.selected),
                ..old(self)@
            }),
    {
        let n = self.logs.len();
        if n == 0 {
            return;
        }
        let i = match self.selected {
            Some(i) => if i == 0 {
                n - 1
            } else {
                i - 1
            },
            None => 0,
        };
        self.select(Some(i));
    }
}

/// Moving down and up keeps a selection among the entries.
pub proof fn lemma_selection_stays_in_range(len: nat, sel: Option<usize>)
    requires
        len > 0,
        len <= usize::MAX,
        sel matches Some(i) ==> i < len,
    ensures
        next_selection(len, sel) matches Some(i) && i < len,
        previous_selection(len, sel) matches Some(i) && i < len,
{
}

} // verus!
