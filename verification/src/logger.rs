//! A logger that writes to a UEFI text output, putting a header with the
//! time, level and source location in front of every line of a message.
//!
//! The logger only decides what text to write; writing it to the console
//! and reading the clock are left to its user.

use crate::text::{chars_of, decimal_padded, push_char, push_decimal_padded, push_str};
use vstd::prelude::*;
use vstd::string::StrSliceExecFns;

verus! {

/// Logging implementation which writes to a UEFI output stream.
///
/// The logger is disabled until an output is set; it must be disabled before
/// boot services are exited.
pub struct Logger {
    writer: Option<usize>,
}

impl Logger {
    /// The address of the output the logger writes to, if it is enabled.
    pub closed spec fn writer(&self) -> Option<usize> {
        self.writer
    }

    /// Creates a new logger. It is initially disabled.
    pub fn new() -> (l: Logger)
        ensures
            l.writer() is None,
    {
        Logger { writer: None }
    }

    /// The output the logger writes to, if any.
    pub fn output(&self) -> (o: Option<usize>)
        ensures
            o == self.writer(),
    {
        self.writer
    }

    /// Sets the output the logger writes to; `None` disables it.
    pub fn set_output(&mut self, output: Option<usize>)
        ensures
            final(self).writer() == output,
    {
        self.writer = output;
    }

    /// Disables the logger.
    pub fn disable(&mut self)
        ensures
            final(self).writer() is None,
    {
        self.writer = None;
    }

    /// Whether the logger writes anything.
    pub fn enabled(&self) -> (b: bool)
        ensures
            b == self.writer() is Some,
    {
        self.writer.is_some()
    }

    /// The frequency of the time stamp counter, in ticks per second, from two
    /// readings taken one second apart.
    pub fn init_freq(t1: u64, t2: u64) -> (freq: u64)
        requires
            t1 <= t2,
        ensures
            freq == t2 - t1,
    {
        t2 - t1
    }
}

/// The time since the previous log line, in time stamp counter ticks, and
/// the time stamp to remember: the first log line counts from itself.
pub fn elapsed_ticks(last_timestamp: u64, timestamp: u64) -> (r: (u64, u64))
    requires
        last_timestamp == 0 || last_timestamp <= timestamp,
    ensures
        r.0 == if last_timestamp == 0 {
            0
        } else {
            timestamp - last_timestamp
        },
        r.1 == timestamp,
{
    let last = if last_timestamp == 0 {
        timestamp
    } else {
        last_timestamp
    };
    (timestamp - last, timestamp)
}

/// `s` padded with spaces on the left to at least `width` characters.
pub open spec fn pad_left(s: Seq<char>, width: nat) -> Seq<char> {
    if s.len() >= width {
        s
    } else {
        Seq::new((width - s.len()) as nat, |i: int| ' ') + s
    }
}

/// The header in front of a log line: `[time] [level]: file@line: ` with the
/// level right-aligned in five characters, the file in twelve, and the line
/// number zero-padded to three digits.
pub open spec fn header_text(time: Seq<char>, level: Seq<char>, file: Seq<char>, line: u32) -> Seq<char> {
    seq!['['] + time + seq![']', ' ', '['] + pad_left(level, 5) + seq![']', ':', ' '] + pad_left(
        file,
        12,
    ) + seq!['@'] + decimal_padded(line as nat, 3) + seq![':', ' ']
}

fn push_padded(out: &mut String, s: &str, width: usize)
    ensures
        final(out)@ == old(out)@ + pad_left(s@, width as nat),
{
    let n = s.unicode_len();
    let mut i: usize = n;
    while i < width
        invariant
            n == s@.len(),
            n <= i <= width || (width < n && i == n),
            out@ == old(out)@ + Seq::new((i - n) as nat, |k: int| ' '),
        decreases width - i,
    {
        push_char(out, ' ');
        i = i + 1;
        assert(out@ =~= old(out)@ + Seq::new((i - n) as nat, |k: int| ' '));
    }
    push_str(out, s);
    assert(out@ =~= old(out)@ + pad_left(s@, width as nat));
}

/// The header in front of a log line, given the elapsed time already
/// written as text.
pub fn header(time: &str, level: &str, file: &str, line: u32) -> (h: String)
    ensures
        h@ == header_text(time@, level@, file@, line),
{
    let mut h = String::new();
    push_char(&mut h, '[');
    push_str(&mut h, time);
    push_char(&mut h, ']');
    push_char(&mut h, ' ');
    push_char(&mut h, '[');
    push_padded(&mut h, level, 5);
    push_char(&mut h, ']');
    push_char(&mut h, ':');
    push_char(&mut h, ' ');
    push_padded(&mut h, file, 12);
    push_char(&mut h, '@');
    push_decimal_padded(&mut h, line as u64, 3);
    push_char(&mut h, ':');
    push_char(&mut h, ' ');
    assert(h@ =~= header_text(time@, level@, file@, line));
    h
}

/// The pieces of `s` between line feeds: one more piece than `s` has line
/// feeds.
pub open spec fn split_lf(s: Seq<char>) -> Seq<Seq<char>>
    decreases s.len(),
{
    if s.len() == 0 {
        seq![Seq::empty()]
    } else {
        let p = split_lf(s.drop_last());
        if s.last() == '\n' {
            p.push(Seq::empty())
        } else {
            p.update(p.len() - 1, p.last().push(s.last()))
        }
    }
}

/// A line without the carriage return that ended it, if any.
pub open spec fn strip_cr(l: Seq<char>) -> Seq<char> {
    if l.len() > 0 && l.last() == '\r' {
        l.drop_last()
    } else {
        l
    }
}

/// The lines of `s` as `str::lines` gives them: split at line feeds, with a
/// carriage return before a line feed dropped, and no empty last line after
/// a final line feed.
pub open spec fn text_lines(s: Seq<char>) -> Seq<Seq<char>> {
    let p = split_lf(s);
    let ended = Seq::new((p.len() - 1) as nat, |i: int| strip_cr(p[i]));
    if p.last().len() > 0 {
        ended.push(p.last())
    } else {
        ended
    }
}

/// The text after the first line: each further line on a line of its own,
/// behind the level.
pub open spec fn continuation_text(lines: Seq<Seq<char>>, level: Seq<char>) -> Seq<char>
    decreases lines.len(),
{
    if lines.len() == 0 {
        Seq::empty()
    } else {
        continuation_text(lines.drop_last(), level) + seq!['\n'] + level + seq![':', ' ']
            + lines.last()
    }
}

/// What writing `s` to a decorated log writes: the header if the output is
/// at the start of a line, the first line of `s`, the other lines each
/// behind a line feed and the level, and a final line feed if `s` ends with
/// one.
pub open spec fn decorated_text(at_line_start: bool, header: Seq<char>, level: Seq<char>, s: Seq<char>) -> Seq<char> {
    let ls = text_lines(s);
    let first = if ls.len() > 0 {
        ls[0]
    } else {
        Seq::empty()
    };
    let rest = if ls.len() > 0 {
        ls.subrange(1, ls.len() as int)
    } else {
        Seq::empty()
    };
    (if at_line_start {
        header
    } else {
        Seq::empty()
    }) + first + continuation_text(rest, level) + if ends_with_lf(s) {
        seq!['\n']
    } else {
        Seq::empty()
    }
}

/// Whether `s` ends with a line feed.
pub open spec fn ends_with_lf(s: Seq<char>) -> bool {
    s.len() > 0 && s.last() == '\n'
}

/// Splits characters at line feeds.
fn split_at_lf(s: &Vec<char>) -> (r: Vec<Vec<char>>)
    ensures
        r@.len() == split_lf(s@).len(),
        forall|i: int| 0 <= i < r@.len() ==> #[trigger] r@[i]@ == split_lf(s@)[i],
{
    let mut done: Vec<Vec<char>> = Vec::new();
    let mut cur: Vec<char> = Vec::new();
    let mut i: usize = 0;
    while i < s.len()
        invariant
            i <= s@.len(),
            done@.len() + 1 == split_lf(s@.subrange(0, i as int)).len(),
            forall|k: int| 0 <= k < done@.len() ==> #[trigger] done@[k]@ == split_lf(
                s@.subrange(0, i as int),
            )[k],
            cur@ == split_lf(s@.subrange(0, i as int)).last(),
        decreases s@.len() - i,
    {
        let c = s[i];
        let ghost prefix = s@.subrange(0, i as int);
        assert(s@.subrange(0, i + 1).drop_last() =~= prefix);
        if c == '\n' {
            let mut fresh: Vec<char> = Vec::new();
            core::mem::swap(&mut fresh, &mut cur);
            done.push(fresh);
        } else {
            cur.push(c);
        }
        i = i + 1;
    }
    assert(s@.subrange(0, s@.len() as int) =~= s@);
    done.push(cur);
    done
}

/// Appends characters.
fn push_chars(out: &mut String, cs: &Vec<char>)
    ensures
        final(out)@ == old(out)@ + cs@,
{
    let mut i: usize = 0;
    while i < cs.len()
        invariant
            i <= cs@.len(),
            out@ == old(out)@ + cs@.subrange(0, i as int),
        decreases cs@.len() - i,
    {
        push_char(out, cs[i]);
        i = i + 1;
        assert(out@ =~= old(out)@ + cs@.subrange(0, i as int));
    }
    assert(cs@.subrange(0, cs@.len() as int) =~= cs@);
}

/// A line without the carriage return that ended it, if any.
fn strip_cr_exec(l: &Vec<char>) -> (r: Vec<char>)
    ensures
        r@ == strip_cr(l@),
{
    let mut r = l.clone();
    if r.len() > 0 && r[r.len() - 1] == '\r' {
        r.pop();
    }
    r
}

/// Writer wrapper which prints a log level in front of every line of text.
pub struct DecoratedLog {
    /// The level of the message.
    pub log_level: String,
    /// Whether the output is at the start of a line.
    pub at_line_start: bool,
    /// The source file of the message.
    pub file: String,
    /// The source line of the message.
    pub line: u32,
}

impl DecoratedLog {
    /// A decorated log for a message, starting at the start of a line.
    pub fn write(log_level: String, file: String, line: u32) -> (d: DecoratedLog)
        ensures
            d.at_line_start,
            d.log_level == log_level,
            d.file == file,
            d.line == line,
    {
        DecoratedLog { log_level, at_line_start: true, file, line }
    }

    /// The text to write for the piece `s` of a message, given the elapsed
    /// time since the last log line already written as text. Afterwards the
    /// output is at the start of a line exactly if `s` ended with a line
    /// feed.
    pub fn write_str(&mut self, s: &str, time: &str) -> (out: String)
        ensures
            out@ == decorated_text(
                old(self).at_line_start,
                header_text(time@, old(self).log_level@, old(self).file@, old(self).line),
                old(self).log_level@,
                s@,
            ),
            final(self).at_line_start == ends_with_lf(s@),
            final(self).log_level == old(self).log_level,
            final(self).file == old(self).file,
            final(self).line == old(self).line,
    {
        let chars = chars_of(s);
        let pieces = split_at_lf(&chars);
        let ghost p = split_lf(s@);
        let ghost ls = text_lines(s@);
        let n = pieces.len();
        proof {
            lemma_split_lf_nonempty(s@);
        }
        let mut out = String::new();
        if self.at_line_start {
            let h = header(time, self.log_level.as_str(), self.file.as_str(), self.line);
            push_str(&mut out, h.as_str());
            self.at_line_start = false;
        }
        let ghost start = out@;
        let last_nonempty = pieces[n - 1].len() > 0;
        let num_lines = if last_nonempty {
            n
        } else {
            n - 1
        };
        assert(num_lines == ls.len());
        let mut i: usize = 0;
        while i < num_lines
            invariant
                n >= 1,
                n == p.len(),
                num_lines == ls.len(),
                pieces@.len() == n,
                forall|k: int| 0 <= k < n ==> #[trigger] pieces@[k]@ == p[k],
                p == split_lf(s@),
                ls == text_lines(s@),
                i <= num_lines,
                out@ == start + lines_prefix_text(ls, i as int, self.log_level@),
            decreases num_lines - i,
        {
            let line = if i < n - 1 {
                strip_cr_exec(&pieces[i])
            } else {
                pieces[i].clone()
            };
            proof {
                lemma_line_at(s@, i as int);
                lemma_lines_prefix_step(ls, i as int, self.log_level@);
            }
            if i > 0 {
                push_char(&mut out, '\n');
                push_str(&mut out, self.log_level.as_str());
                push_char(&mut out, ':');
                push_char(&mut out, ' ');
            }
            push_chars(&mut out, &line);
            i = i + 1;
            assert(out@ =~= start + lines_prefix_text(ls, i as int, self.log_level@));
        }
        proof {
            lemma_lines_prefix_all(ls, self.log_level@);
        }
        let ends = chars.len() > 0 && chars[chars.len() - 1] == '\n';
        if ends {
            push_char(&mut out, '\n');
            self.at_line_start = true;
        }
        assert(out@ =~= decorated_text(
            old(self).at_line_start,
            header_text(time@, old(self).log_level@, old(self).file@, old(self).line),
            old(self).log_level@,
            s@,
        ));
        out
    }
}

/// The text of the first `i` lines: the first line as it is, the others
/// each behind a line feed and the level.
pub open spec fn lines_prefix_text(ls: Seq<Seq<char>>, i: int, level: Seq<char>) -> Seq<char> {
    if i <= 0 {
        Seq::empty()
    } else {
        ls[0] + continuation_text(ls.subrange(1, i), level)
    }
}

proof fn lemma_lines_prefix_step(ls: Seq<Seq<char>>, i: int, level: Seq<char>)
    requires
        0 <= i < ls.len(),
    ensures
        lines_prefix_text(ls, i + 1, level) == lines_prefix_text(ls, i, level) + if i == 0 {
            ls[0]
        } else {
            seq!['\n'] + level + seq![':', ' '] + ls[i]
        },
{
    if i == 0 {
        assert(ls.subrange(1, 1) =~= Seq::<Seq<char>>::empty());
        assert(lines_prefix_text(ls, 1, level) =~= ls[0]);
    } else {
        assert(ls.subrange(1, i + 1).drop_last() =~= ls.subrange(1, i));
        assert(lines_prefix_text(ls, i + 1, level) =~= lines_prefix_text(ls, i, level) + (seq![
            '\n',
        ] + level + seq![':', ' '] + ls[i]));
    }
}

proof fn lemma_lines_prefix_all(ls: Seq<Seq<char>>, level: Seq<char>)
    ensures
        lines_prefix_text(ls, ls.len() as int, level) == (if ls.len() > 0 {
            ls[0]
        } else {
            Seq::empty()
        }) + continuation_text(
            if ls.len() > 0 {
                ls.subrange(1, ls.len() as int)
            } else {
                Seq::empty()
            },
            level,
        ),
{
    if ls.len() == 0 {
        assert(continuation_text(Seq::<Seq<char>>::empty(), level) =~= Seq::<char>::empty());
        assert(lines_prefix_text(ls, 0, level) =~= Seq::<char>::empty() + Seq::<char>::empty());
    }
}

/// Line `i` of `s` is piece `i` between line feeds, without its carriage
/// return unless it is the last piece.
proof fn lemma_line_at(s: Seq<char>, i: int)
    requires
        0 <= i < text_lines(s).len(),
    ensures
        split_lf(s).len() >= 1,
        i < split_lf(s).len(),
        text_lines(s)[i] == if i < split_lf(s).len() - 1 {
            strip_cr(split_lf(s)[i])
        } else {
            split_lf(s)[i]
        },
{
    lemma_split_lf_nonempty(s);
}

/// There is always at least one piece between line feeds.
proof fn lemma_split_lf_nonempty(s: Seq<char>)
    ensures
        split_lf(s).len() >= 1,
    decreases s.len(),
{
    if s.len() > 0 {
        lemma_split_lf_nonempty(s.drop_last());
    }
}

} // verus!
