//! Logging levels, and reading the last lines of a log.
use vstd::prelude::*;
use crate::bounded::last_n;
use crate::text::{lowercase, lowercase_spec, str_eq};

verus! {

/// A logging level.
#[derive(Debug, Clone, Copy, PartialEq, Eq, Structural)]
pub enum LogLevel {
    Trace,
    Debug,
    Info,
    Warn,
    Error,
}

/// The level a name stands for, ignoring case; unknown names mean `Info`.
pub open spec fn log_level_spec(name: Seq<char>) -> LogLevel {
    let l = lowercase_spec(name);
    if l == "trace"@ {
        LogLevel::Trace
    } else if l == "debug"@ {
        LogLevel::Debug
    } else if l == "info"@ {
        LogLevel::Info
    } else if l == "warn"@ {
        LogLevel::Warn
    } else if l == "error"@ {
        LogLevel::Error
    } else {
        LogLevel::Info
    }
}

/// The level a name stands for, ignoring case; unknown names mean `Info`.
pub fn parse_log_level(level: &str) -> (r: LogLevel)
    ensures
        r == log_level_spec(level@),
{
    let l = lowercase(level);
    let s = l.as_str();
    if str_eq(s, "trace") {
        LogLevel::Trace
    } else if str_eq(s, "debug") {
        LogLevel::Debug
    } else if str_eq(s, "info") {
        LogLevel::Info
    } else if str_eq(s, "warn") {
        LogLevel::Warn
    } else if str_eq(s, "error") {
        LogLevel::Error
    } else {
        LogLevel::Info
    }
}

/// The state after scanning `s` for lines: the lines ended so far (each
/// with its `\n` removed) and the line being read.
pub open spec fn lines_scan(s: Seq<char>) -> (Seq<Seq<char>>, Seq<char>)
    decreases s.len(),
{
    if s.len() == 0 {
        (Seq::empty(), Seq::empty())
    } else {
        let (done, cur) = lines_scan(s.drop_last());
        if s.last() == '\n' {
            (done.push(cur), Seq::empty())
        } else {
            (done, cur.push(s.last()))
        }
    }
}

/// A line ended by `\n` without its `\r`, if it had one.
pub open spec fn strip_cr(line: Seq<char>) -> Seq<char> {
    if line.len() > 0 && line.last() == '\r' {
        line.drop_last()
    } else {
        line
    }
}

/// The lines of `s`, as `str::lines` gives them: split at `\n` or `\r\n`,
/// with no empty last line after a final line ending.
pub open spec fn lines_spec(s: Seq<char>) -> Seq<Seq<char>> {
    let (done, cur) = lines_scan(s);
    let ended = done.map_values(|l: Seq<char>| strip_cr(l));
    if cur.len() > 0 {
        ended.push(cur)
    } else {
        ended
    }
}

fn strip_cr_exec(line: String) -> (r: String)
    ensures
        r@ == strip_cr(line@),
{
    let n = line.as_str().unicode_len();
    if n > 0 && line.as_str().get_char(n - 1) == '\r' {
        String::from_str(line.as_str().substring_char(0, n - 1))
    } else {
        line
    }
}

/// The lines of `s`, as `str::lines` gives them.
pub fn lines(s: &str) -> (r: Vec<String>)
    ensures
        r@.map_values(|l: String| l@) == lines_spec(s@),
{
    let n = s.unicode_len();
    let mut done: Vec<String> = Vec::new();
    let mut cur = String::new();
    let mut i: usize = 0;
    let ghost raw: Seq<Seq<char>> = Seq::empty();
    while i < n
        invariant
            i <= n,
            n == s@.len(),
            (raw, cur@) == lines_scan(s@.subrange(0, i as int)),
            done@.map_values(|l: String| l@) == raw.map_values(|l: Seq<char>| strip_cr(l)),
        decreases n - i,
    {
        let c = s.get_char(i);
        assert(s@.subrange(0, i + 1).drop_last() =~= s@.subrange(0, i as int));
        assert(s@.subrange(0, i + 1).last() == c);
        if c == '\n' {
            let ghost prev = done@;
            let ghost line = cur@;
            let l = strip_cr_exec(cur);
            let ghost lv = l;
            done.push(l);
            cur = String::new();
            proof {
                let raw_old = raw;
                raw = raw.push(line);
                assert(done@ == prev.push(lv));
                assert(done@.map_values(|l: String| l@) =~= prev.map_values(|l: String| l@).push(lv@));
                assert(raw.map_values(|l: Seq<char>| strip_cr(l)) =~= raw_old.map_values(|l: Seq<char>| strip_cr(l)).push(strip_cr(line)));
            }
        } else {
            crate::text::push_char(&mut cur, c);
        }
        i = i + 1;
    }
    assert(s@.subrange(0, n as int) =~= s@);
    if cur.as_str().unicode_len() > 0 {
        let ghost prev = done@;
        let w = cur;
        done.push(w);
        assert(done@.map_values(|l: String| l@) =~= prev.map_values(|l: String| l@).push(w@));
    }
    done
}

/// The last `count` lines of a log's content, in their order.
pub fn last_lines(content: &str, count: usize) -> (r: Vec<String>)
    ensures
        r@.map_values(|l: String| l@) == last_n(lines_spec(content@), count as nat),
{
    let mut all = lines(content);
    let len = all.len();
    if len <= count {
        return all;
    }
    let ghost whole = all@;
    let tail = all.split_off(len - count);
    proof {
        assert(tail@ == whole.subrange((len - count) as int, len as int));
        assert(tail@.map_values(|l: String| l@) =~= whole.map_values(|l: String| l@).subrange(
            (len - count) as int,
            len as int,
        ));
    }
    tail
}

} // verus!
