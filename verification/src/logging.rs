//! Log configuration: rotation periods, the default configuration, and the
//! choice of old log files to delete.
use vstd::prelude::*;
use crate::text::{ends_with, starts_with};

verus! {

/// How often log files are rotated.
#[derive(Debug, Clone, Copy, PartialEq, Eq, Structural)]
pub enum RotationPeriod {
    /// A new file every minute.
    Minutely,
    /// A new file every hour.
    Hourly,
    /// A new file every day (the default).
    Daily,
    /// A single file.
    Never,
}

impl Default for RotationPeriod {
    fn default() -> (p: RotationPeriod)
        ensures
            p == RotationPeriod::Daily,
    {
        RotationPeriod::Daily
    }
}

/// `c` with ASCII capitals made small.
pub open spec fn ascii_lower(c: char) -> char {
    if 'A' <= c && c <= 'Z' { ((c as u32) + 32) as char } else { c }
}

/// `s` with ASCII capitals made small. For the rotation words below, which
/// are ASCII small letters only, a text lowers to one of them this way
/// exactly when its Unicode lower case is that word.
pub open spec fn lowered(s: Seq<char>) -> Seq<char> {
    s.map_values(|c: char| ascii_lower(c))
}

/// The rotation period a text names, ignoring case: `minutely` or `minute`,
/// `hourly` or `hour`, `daily` or `day`, `never` or `none`.
pub open spec fn rotation_named(s: Seq<char>) -> Option<RotationPeriod> {
    let l = lowered(s);
    if l == "minutely"@ || l == "minute"@ {
        Some(RotationPeriod::Minutely)
    } else if l == "hourly"@ || l == "hour"@ {
        Some(RotationPeriod::Hourly)
    } else if l == "daily"@ || l == "day"@ {
        Some(RotationPeriod::Daily)
    } else if l == "never"@ || l == "none"@ {
        Some(RotationPeriod::Never)
    } else {
        None
    }
}

/// The message that rejects a text naming no rotation period.
pub open spec fn invalid_rotation_message(s: Seq<char>) -> Seq<char> {
    "Invalid rotation period '"@ + s + "'. Valid options: minutely, hourly, daily, never"@
}

/// `c` with an ASCII capital made small.
fn lower_char(c: char) -> (r: char)
    ensures
        r == ascii_lower(c),
{
    if 'A' <= c && c <= 'Z' {
        ((c as u8) + 32) as char
    } else {
        c
    }
}

/// Whether `s`, with ASCII capitals made small, is `word`.
fn lowered_equals(s: &str, word: &str) -> (b: bool)
    ensures
        b == (lowered(s@) == word@),
{
    let n = s.unicode_len();
    let m = word.unicode_len();
    if n != m {
        assert(lowered(s@).len() != word@.len());
        return false;
    }
    let mut i: usize = 0;
    while i < n
        invariant
            n == s@.len(),
            m == word@.len(),
            n == m,
            i <= n,
            forall|j: int| 0 <= j < i ==> ascii_lower(s@[j]) == word@[j],
        decreases n - i,
    {
        let c = lower_char(s.get_char(i));
        if c != word.get_char(i) {
            assert(lowered(s@)[i as int] != word@[i as int]);
            return false;
        }
        i = i + 1;
    }
    assert(lowered(s@) =~= word@);
    true
}

impl RotationPeriod {
    /// The rotation period a text names, ignoring case (see
    /// [`rotation_named`]); any other text is refused with a message that
    /// quotes it.
    pub fn parse(s: &str) -> (r: Result<RotationPeriod, String>)
        ensures
            rotation_named(s@) matches Some(p) ==> r == Ok::<RotationPeriod, String>(p),
            rotation_named(s@) is None ==> (r matches Err(msg) && msg@ == invalid_rotation_message(s@)),
    {
        if lowered_equals(s, "minutely") || lowered_equals(s, "minute") {
            Ok(RotationPeriod::Minutely)
        } else if lowered_equals(s, "hourly") || lowered_equals(s, "hour") {
            Ok(RotationPeriod::Hourly)
        } else if lowered_equals(s, "daily") || lowered_equals(s, "day") {
            Ok(RotationPeriod::Daily)
        } else if lowered_equals(s, "never") || lowered_equals(s, "none") {
            Ok(RotationPeriod::Never)
        } else {
            let mut msg = String::from_str("Invalid rotation period '");
            msg.append(s);
            msg.append("'. Valid options: minutely, hourly, daily, never");
            Err(msg)
        }
    }
}

impl std::str::FromStr for RotationPeriod {
    type Err = String;

    /// Same as [`RotationPeriod::parse`].
    fn from_str(s: &str) -> (r: Result<RotationPeriod, String>)
        ensures
            rotation_named(s@) matches Some(p) ==> r == Ok::<RotationPeriod, String>(p),
            rotation_named(s@) is None ==> (r matches Err(msg) && msg@ == invalid_rotation_message(s@)),
    {
        RotationPeriod::parse(s)
    }
}

/// Where and how log files are written.
#[derive(Debug, Clone)]
pub struct LogConfig {
    /// Directory of the log files.
    pub log_dir: String,
    /// Start of every log file's name.
    pub log_prefix: String,
    /// How often files are rotated.
    pub rotation: RotationPeriod,
    /// How many log files to keep (0: all).
    pub max_log_files: usize,
}

impl Default for LogConfig {
    /// Daily files named `comelit-hub…` in the working directory, seven kept.
    fn default() -> (c: LogConfig)
        ensures
            c.log_dir@ == "."@,
            c.log_prefix@ == "comelit-hub"@,
            c.rotation == RotationPeriod::Daily,
            c.max_log_files == 7,
    {
        LogConfig {
            log_dir: String::from_str("."),
            log_prefix: String::from_str("comelit-hub"),
            rotation: RotationPeriod::Daily,
            max_log_files: 7,
        }
    }
}

/// A file found in the log directory, with its modification time in
/// nanoseconds from the Unix epoch (negative before it).
#[derive(Debug, Clone)]
pub struct LogFile {
    pub name: String,
    pub modified_ns: i128,
}

/// Whether a file name is one of this program's logs: it starts with the
/// prefix and ends with `.log`.
pub open spec fn is_log_name(name: Seq<char>, prefix: Seq<char>) -> bool {
    prefix.is_prefix_of(name) && ".log"@.is_suffix_of(name)
}

/// Whether file `a` comes before file `b` newest first: it was modified
/// later, or at the same time and was listed earlier.
pub open spec fn listed_newer(files: Seq<LogFile>, a: int, b: int) -> bool {
    files[a].modified_ns > files[b].modified_ns
        || (files[a].modified_ns == files[b].modified_ns && a < b)
}

/// `order` lists the log files among `files` (by their positions), each
/// once, newest first.
pub open spec fn newest_first(files: Seq<LogFile>, prefix: Seq<char>, order: Seq<usize>) -> bool {
    &&& forall|k: int| 0 <= k < order.len() ==> order[k] < files.len()
    &&& forall|k: int| 0 <= k < order.len() ==> is_log_name(#[trigger] files[order[k] as int].name@, prefix)
    &&& forall|i: int| 0 <= i < files.len() && is_log_name(files[i].name@, prefix) ==>
        #[trigger] order.contains(i as usize)
    &&& forall|a: int, b: int| 0 <= a < b < order.len() ==>
        listed_newer(files, #[trigger] order[a] as int, #[trigger] order[b] as int)
}

/// Whether a file name is one of this program's logs (see [`is_log_name`]).
pub fn is_log_file_name(name: &str, prefix: &str) -> (b: bool)
    ensures
        b == is_log_name(name@, prefix@),
{
    starts_with(name, prefix) && ends_with(name, ".log")
}

/// The positions of the log files among `files`, newest first; files
/// modified at the same time keep their listed order.
pub fn log_files_newest_first(files: &Vec<LogFile>, prefix: &str) -> (order: Vec<usize>)
    ensures
        newest_first(files@, prefix@, order@),
{
    let mut order: Vec<usize> = Vec::new();
    let mut k: usize = 0;
    while k < files.len()
        invariant
            k <= files@.len(),
            forall|a: int| 0 <= a < order@.len() ==> order@[a] < k,
            forall|a: int| 0 <= a < order@.len() ==> is_log_name(#[trigger] files@[order@[a] as int].name@, prefix@),
            forall|i: int| 0 <= i < k && is_log_name(files@[i].name@, prefix@) ==>
                #[trigger] order@.contains(i as usize),
            forall|a: int, b: int| 0 <= a < b < order@.len() ==>
                listed_newer(files@, #[trigger] order@[a] as int, #[trigger] order@[b] as int),
        decreases files@.len() - k,
    {
        if is_log_file_name(files[k].name.as_str(), prefix) {
            let m = files[k].modified_ns;
            // Files modified no earlier than file k stay ahead of it.
            let mut p: usize = 0;
            while p < order.len() && files[order[p]].modified_ns >= m
                invariant
                    p <= order@.len(),
                    forall|a: int| 0 <= a < order@.len() ==> order@[a] < k,
                    k < files@.len(),
                    forall|a: int| 0 <= a < p ==> files@[order@[a] as int].modified_ns >= m,
                decreases order@.len() - p,
            {
                p = p + 1;
            }
            let ghost old_order = order@;
            order.insert(p, k);
            assert forall|a: int, b: int| 0 <= a < b < order@.len() implies
                listed_newer(files@, #[trigger] order@[a] as int, #[trigger] order@[b] as int) by {
                if b == p {
                    assert(order@[a] == old_order[a]);
                } else if a == p {
                    assert(order@[b] == old_order[b - 1]);
                    assert(p < old_order.len());
                    assert(files@[old_order[p as int] as int].modified_ns < m);
                    if b - 1 > p {
                        assert(listed_newer(files@, old_order[p as int] as int, old_order[b - 1] as int));
                    }
                } else if a < p && b < p {
                    assert(order@[a] == old_order[a] && order@[b] == old_order[b]);
                } else if a < p {
                    assert(order@[a] == old_order[a] && order@[b] == old_order[b - 1]);
                } else {
                    assert(order@[a] == old_order[a - 1] && order@[b] == old_order[b - 1]);
                }
            }
            assert forall|i: int| 0 <= i < k + 1 && is_log_name(files@[i].name@, prefix@) implies
                #[trigger] order@.contains(i as usize) by {
                if i < k {
                    assert(old_order.contains(i as usize));
                    let j = choose|j: int| 0 <= j < old_order.len() && old_order[j] == i as usize;
                    if j < p {
                        assert(order@[j] == i as usize);
                    } else {
                        assert(order@[j + 1] == i as usize);
                    }
                } else {
                    assert(order@[p as int] == k);
                }
            }
            assert forall|a: int| 0 <= a < order@.len() implies is_log_name(#[trigger] files@[order@[a] as int].name@, prefix@) by {
                if a < p {
                    assert(order@[a] == old_order[a]);
                } else if a > p {
                    assert(order@[a] == old_order[a - 1]);
                }
            }
            assert forall|a: int| 0 <= a < order@.len() implies order@[a] < k + 1 by {
                if a < p {
                    assert(order@[a] == old_order[a]);
                } else if a > p {
                    assert(order@[a] == old_order[a - 1]);
                }
            }
        }
        k = k + 1;
    }
    order
}

/// What is left of `order` after its first `n` entries.
pub open spec fn after_first(order: Seq<usize>, n: int) -> Seq<usize> {
    if order.len() <= n { Seq::empty() } else { order.skip(n) }
}

/// The positions of the old log files to delete so that `max_files` remain:
/// the log files newest first (see [`newest_first`]), after the first
/// `max_files`.
pub fn log_files_to_remove(files: &Vec<LogFile>, prefix: &str, max_files: usize) -> (r: Vec<usize>)
    ensures
        exists|order: Seq<usize>| #[trigger] newest_first(files@, prefix@, order)
            && r@ == after_first(order, max_files as int),
{
    let order = log_files_newest_first(files, prefix);
    let mut r: Vec<usize> = Vec::new();
    let mut i: usize = max_files;
    if i >= order.len() {
        assert(newest_first(files@, prefix@, order@));
        assert(r@ =~= after_first(order@, max_files as int));
        return r;
    }
    while i < order.len()
        invariant
            max_files <= i <= order@.len(),
            r@ == order@.subrange(max_files as int, i as int),
        decreases order@.len() - i,
    {
        r.push(order[i]);
        i = i + 1;
    }
    assert(r@ =~= order@.skip(max_files as int));
    assert(newest_first(files@, prefix@, order@));
    r
}

/// The positions of the log files to delete before logging to files as
/// `config` says: none when every file is kept (`max_log_files` 0), the
/// oldest beyond `max_log_files` otherwise (see [`log_files_to_remove`]).
pub fn logs_to_delete(files: &Vec<LogFile>, config: &LogConfig) -> (r: Vec<usize>)
    ensures
        config.max_log_files == 0 ==> r@.len() == 0,
        config.max_log_files > 0 ==> exists|order: Seq<usize>| #[trigger] newest_first(files@, config.log_prefix@, order)
            && r@ == after_first(order, config.max_log_files as int),
{
    if config.max_log_files == 0 {
        Vec::new()
    } else {
        log_files_to_remove(files, config.log_prefix.as_str(), config.max_log_files)
    }
}

/// Cleaning up keeps the newest log files: with the log files listed newest
/// first, every file kept (among the first `max_files`) is newer than every
/// file removed, every log file is kept or removed, and no other file is
/// touched.
pub proof fn lemma_cleanup_keeps_newest(files: Seq<LogFile>, prefix: Seq<char>, order: Seq<usize>, max_files: int)
    requires
        newest_first(files, prefix, order),
        0 <= max_files,
    ensures
        forall|a: int, b: int| 0 <= a < max_files && max_files <= b < order.len() ==>
            listed_newer(files, #[trigger] order[a] as int, #[trigger] order[b] as int),
        forall|i: int| 0 <= i < files.len() && is_log_name(files[i].name@, prefix) ==>
            (exists|a: int| 0 <= a < order.len() && a < max_files && order[a] == i as usize)
            || after_first(order, max_files).contains(i as usize),
        forall|k: int| 0 <= k < after_first(order, max_files).len() ==>
            is_log_name(files[after_first(order, max_files)[k] as int].name@, prefix),
{
    assert forall|i: int| 0 <= i < files.len() && is_log_name(files[i].name@, prefix) implies
        (exists|a: int| 0 <= a < order.len() && a < max_files && order[a] == i as usize)
        || after_first(order, max_files).contains(i as usize) by {
        assert(order.contains(i as usize));
        let a = choose|a: int| 0 <= a < order.len() && order[a] == i as usize;
        if a >= max_files {
            assert(after_first(order, max_files)[a - max_files] == i as usize);
        }
    }
    assert forall|k: int| 0 <= k < after_first(order, max_files).len() implies
        is_log_name(files[after_first(order, max_files)[k] as int].name@, prefix) by {
        assert(after_first(order, max_files)[k] == order[k + max_files]);
    }
}

/// Parsing a rotation period ignores case: a text and its lower-case form
/// name the same period, or are both refused.
pub proof fn lemma_rotation_parse_ignores_case(s: Seq<char>)
    ensures
        rotation_named(lowered(s)) == rotation_named(s),
{
    assert(lowered(lowered(s)) =~= lowered(s));
}

/// The four documented option names parse to their periods.
pub proof fn lemma_rotation_option_names()
    ensures
        rotation_named("minutely"@) == Some(RotationPeriod::Minutely),
        rotation_named("hourly"@) == Some(RotationPeriod::Hourly),
        rotation_named("daily"@) == Some(RotationPeriod::Daily),
        rotation_named("never"@) == Some(RotationPeriod::Never),
{
    reveal_strlit("minutely");
    reveal_strlit("hourly");
    reveal_strlit("daily");
    reveal_strlit("never");
    reveal_strlit("minute");
    reveal_strlit("hour");
    reveal_strlit("day");
    reveal_strlit("none");
    assert(lowered("minutely"@) =~= "minutely"@);
    assert(lowered("hourly"@) =~= "hourly"@);
    assert(lowered("daily"@) =~= "daily"@);
    assert(lowered("never"@) =~= "never"@);
    assert("hourly"@[0] != "minutely"@[0] && "hourly"@[0] != "minute"@[0]);
    assert("daily"@[0] != "minutely"@[0] && "daily"@[0] != "minute"@[0]);
    assert("daily"@[0] != "hourly"@[0] && "daily"@[0] != "hour"@[0]);
    assert("never"@[0] != "minutely"@[0] && "never"@[0] != "minute"@[0]);
    assert("never"@[0] != "hourly"@[0] && "never"@[0] != "hour"@[0]);
    assert("never"@[0] != "daily"@[0] && "never"@[0] != "day"@[0]);
}

} // verus!
