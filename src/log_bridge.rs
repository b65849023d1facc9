use vstd::prelude::*;

verus! {

/// Native log levels, in the order the native layer numbers them.
pub const COMPEL_LOG_MSG: u32 = 0;
pub const COMPEL_LOG_ERROR: u32 = 1;
pub const COMPEL_LOG_WARN: u32 = 2;
pub const COMPEL_LOG_INFO: u32 = 3;
pub const COMPEL_LOG_DEBUG: u32 = 4;

pub const NEWLINE: u8 = 10;
pub const CARRIAGE_RETURN: u8 = 13;

/// Severity of a forwarded log record.
#[derive(Clone, Copy, Debug, PartialEq, Eq, Structural)]
pub enum LogLevel {
    Error,
    Warn,
    Info,
    Debug,
    Trace,
}

/// The sink level for a message of native level `native`; a message that
/// must always be shown goes out as an error, an unknown level as trace.
pub open spec fn level_of(native: u32) -> LogLevel {
    if native == COMPEL_LOG_DEBUG {
        LogLevel::Debug
    } else if native == COMPEL_LOG_INFO {
        LogLevel::Info
    } else if native == COMPEL_LOG_WARN {
        LogLevel::Warn
    } else if native == COMPEL_LOG_ERROR || native == COMPEL_LOG_MSG {
        LogLevel::Error
    } else {
        LogLevel::Trace
    }
}

pub fn level_for(native: u32) -> (r: LogLevel)
    ensures
        r == level_of(native),
{
    if native == COMPEL_LOG_DEBUG {
        LogLevel::Debug
    } else if native == COMPEL_LOG_INFO {
        LogLevel::Info
    } else if native == COMPEL_LOG_WARN {
        LogLevel::Warn
    } else if native == COMPEL_LOG_ERROR || native == COMPEL_LOG_MSG {
        LogLevel::Error
    } else {
        LogLevel::Trace
    }
}

/// The bytes `"pie: "` that the parasite puts before its log text.
pub open spec fn pie_prefix() -> Seq<u8> {
    seq![112u8, 105u8, 101u8, 58u8, 32u8]
}

/// `s` with every leading repetition of the parasite's prefix removed.
pub open spec fn trim_pie(s: Seq<u8>) -> Seq<u8>
    decreases s.len(),
{
    if s.len() >= 5 && s.take(5) == pie_prefix() {
        trim_pie(s.skip(5))
    } else {
        s
    }
}

fn has_prefix_at(line: &Vec<u8>, i: usize) -> (r: bool)
    requires
        i <= line@.len(),
    ensures
        r == (line@.skip(i as int).len() >= 5 && line@.skip(i as int).take(5) == pie_prefix()),
{
    if line.len() - i < 5 {
        return false;
    }
    let r = line[i] == 112u8 && line[i + 1] == 105u8 && line[i + 2] == 101u8 && line[i + 3] == 58u8
        && line[i + 4] == 32u8;
    proof {
        if r {
            assert(line@.skip(i as int).take(5) =~= pie_prefix());
        } else {
            assert(line@.skip(i as int).take(5)[0] == line@[i as int]);
            assert(line@.skip(i as int).take(5)[1] == line@[i + 1]);
            assert(line@.skip(i as int).take(5)[2] == line@[i + 2]);
            assert(line@.skip(i as int).take(5)[3] == line@[i + 3]);
            assert(line@.skip(i as int).take(5)[4] == line@[i + 4]);
        }
    }
    r
}

/// The text of a parasite log line, with its prefix removed.
pub fn pie_text(line: &Vec<u8>) -> (r: Vec<u8>)
    ensures
        r@ == trim_pie(line@),
{
    let mut i: usize = 0;
    proof {
        assert(line@.skip(0) =~= line@);
    }
    let n = line.len();
    let mut more = has_prefix_at(line, 0);
    while more
        invariant
            n == line@.len(),
            i <= line@.len(),
            trim_pie(line@.skip(i as int)) == trim_pie(line@),
            more == (line@.skip(i as int).len() >= 5 && line@.skip(i as int).take(5)
                == pie_prefix()),
        decreases line@.len() - i,
    {
        proof {
            assert(line@.skip(i as int).skip(5) =~= line@.skip(i + 5));
        }
        i = i + 5;
        more = has_prefix_at(line, i);
    }
    let mut r: Vec<u8> = Vec::new();
    let mut j: usize = i;
    while j < line.len()
        invariant
            i <= j <= line@.len(),
            r@ =~= line@.subrange(i as int, j as int),
        decreases line@.len() - j,
    {
        r.push(line[j]);
        j = j + 1;
    }
    proof {
        assert(r@ =~= line@.skip(i as int));
    }
    r
}

/// A complete line as a record: its trailing carriage return, if any, is
/// dropped along with the newline.
pub open spec fn line_record(raw: Seq<u8>) -> Seq<u8> {
    if raw.len() > 0 && raw.last() == CARRIAGE_RETURN {
        raw.drop_last()
    } else {
        raw
    }
}

/// Reading `input` with `pending` bytes of an unfinished line already held:
/// the records of the lines completed, and the bytes of the line left open.
pub open spec fn run(pending: Seq<u8>, input: Seq<u8>) -> (Seq<Seq<u8>>, Seq<u8>)
    decreases input.len(),
{
    if input.len() == 0 {
        (seq![], pending)
    } else {
        let (records, open_line) = run(pending, input.drop_last());
        if input.last() == NEWLINE {
            (records.push(line_record(open_line)), seq![])
        } else {
            (records, open_line.push(input.last()))
        }
    }
}

pub open spec fn no_newline(s: Seq<u8>) -> bool {
    forall|j: int| 0 <= j < s.len() ==> s[j] != NEWLINE
}

/// Each line of `lines` followed by a newline, one after the other.
pub open spec fn terminated(lines: Seq<Seq<u8>>) -> Seq<u8>
    decreases lines.len(),
{
    if lines.len() == 0 {
        seq![]
    } else {
        terminated(lines.drop_last()) + lines.last().push(NEWLINE)
    }
}

pub open spec fn views(lines: Seq<Vec<u8>>) -> Seq<Seq<u8>> {
    lines.map_values(|l: Vec<u8>| l@)
}

proof fn lemma_run_open(p: Seq<u8>, s: Seq<u8>, t: Seq<u8>)
    requires
        no_newline(t),
    ensures
        run(p, s + t) == (run(p, s).0, run(p, s).1 + t),
    decreases t.len(),
{
    if t.len() == 0 {
        assert(s + t =~= s);
        assert(run(p, s).1 + t =~= run(p, s).1);
    } else {
        let u = t.drop_last();
        assert((s + t).drop_last() =~= s + u);
        assert((s + t).last() == t.last());
        assert(t.last() == t[t.len() - 1]);
        lemma_run_open(p, s, u);
        assert(run(p, s).1 + u + seq![t.last()] =~= run(p, s).1 + t);
        assert((run(p, s).1 + u).push(t.last()) =~= run(p, s).1 + t);
    }
}

/// Lines written with a newline after each, and no newline inside any, are
/// read back as exactly as many records, in the order written, each the line
/// itself less a trailing carriage return; nothing is left open.
pub proof fn lemma_lines_drained(lines: Seq<Seq<u8>>)
    requires
        forall|k: int| 0 <= k < lines.len() ==> no_newline(#[trigger] lines[k]),
    ensures
        run(seq![], terminated(lines)) == (lines.map_values(|l: Seq<u8>| line_record(l)), Seq::<
            u8,
        >::empty()),
        run(seq![], terminated(lines)).0.len() == lines.len(),
    decreases lines.len(),
{
    if lines.len() == 0 {
        assert(lines.map_values(|l: Seq<u8>| line_record(l)) =~= seq![]);
    } else {
        let init = lines.drop_last();
        let last = lines.last();
        assert forall|k: int| 0 <= k < init.len() implies no_newline(#[trigger] init[k]) by {
            assert(init[k] == lines[k]);
        }
        lemma_lines_drained(init);
        assert(no_newline(lines[lines.len() - 1]));
        let s = terminated(init);
        let full = terminated(lines);
        assert(full == s + last.push(NEWLINE));
        assert(full.drop_last() =~= s + last);
        assert(full.last() == NEWLINE);
        lemma_run_open(seq![], s, last);
        assert(Seq::<u8>::empty() + last =~= last);
        assert(lines.map_values(|l: Seq<u8>| line_record(l)) =~= init.map_values(
            |l: Seq<u8>| line_record(l),
        ).push(line_record(last)));
    }
}

/// The reading end of a log pipe: splits the bytes read into line records,
/// holding an unfinished line until its newline arrives.
pub struct LineReader {
    open_line: Vec<u8>,
}

impl View for LineReader {
    type V = Seq<u8>;

    closed spec fn view(&self) -> Seq<u8> {
        self.open_line@
    }
}

impl LineReader {
    pub fn new() -> (r: LineReader)
        ensures
            r@ == Seq::<u8>::empty(),
    {
        LineReader { open_line: Vec::new() }
    }

    /// The records of the lines that `chunk` completes, in order.
    pub fn feed(&mut self, chunk: &Vec<u8>) -> (records: Vec<Vec<u8>>)
        ensures
            (views(records@), final(self)@) == run(old(self)@, chunk@),
    {
        let mut records: Vec<Vec<u8>> = Vec::new();
        let mut i: usize = 0;
        proof {
            assert(chunk@.take(0) =~= Seq::<u8>::empty());
            assert(views(records@) =~= seq![]);
        }
        while i < chunk.len()
            invariant
                i <= chunk@.len(),
                (views(records@), self@) == run(old(self)@, chunk@.take(i as int)),
            decreases chunk@.len() - i,
        {
            let b = chunk[i];
            proof {
                assert(chunk@.take(i + 1).drop_last() =~= chunk@.take(i as int));
                assert(chunk@.take(i + 1).last() == b);
            }
            if b == NEWLINE {
                let mut line: Vec<u8> = Vec::new();
                std::mem::swap(&mut line, &mut self.open_line);
                let n = line.len();
                if n > 0 && line[n - 1] == CARRIAGE_RETURN {
                    line.pop();
                }
                proof {
                    assert(line@ =~= line_record(run(old(self)@, chunk@.take(i as int)).1));
                }
                let ghost before = records@;
                records.push(line);
                proof {
                    assert(views(records@) =~= views(before).push(line@));
                }
            } else {
                self.open_line.push(b);
            }
            i = i + 1;
        }
        proof {
            assert(chunk@.take(chunk@.len() as int) =~= chunk@);
        }
        records
    }

    /// At end of stream: the unfinished line, if any bytes of it were read.
    pub fn finish(&mut self) -> (r: Option<Vec<u8>>)
        ensures
            final(self)@ == Seq::<u8>::empty(),
            match r {
                Some(line) => old(self)@.len() > 0 && line@ == old(self)@,
                None => old(self)@.len() == 0,
            },
    {
        let mut line: Vec<u8> = Vec::new();
        std::mem::swap(&mut line, &mut self.open_line);
        if line.len() > 0 {
            Some(line)
        } else {
            None
        }
    }
}

} // verus!
