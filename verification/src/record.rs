//! Line records: a sequence of text fields as one text.
//!
//! Each field stands on a line of its own, ended by a line feed. Inside a
//! field a backslash is written as two backslashes and a line feed as a
//! backslash and the letter `n`, so a field may hold any text. Every
//! sequence of fields has exactly one text, and a text that is not the text
//! of some sequence of fields is refused.

use vstd::prelude::*;
use vstd::string::*;

verus! {

/// `String::push` of std appends one character to the string.
pub assume_specification[ String::push ](s: &mut String, ch: char)
    ensures
        final(s)@ == old(s)@.push(ch),
;

/// How one character of a field is written.
pub open spec fn escape_char(c: char) -> Seq<char> {
    if c == '\\' {
        seq!['\\', '\\']
    } else if c == '\n' {
        seq!['\\', 'n']
    } else {
        seq![c]
    }
}

/// How a field is written: its characters, each as [`escape_char`] has it.
pub open spec fn escaped(field: Seq<char>) -> Seq<char>
    decreases field.len(),
{
    if field.len() == 0 {
        Seq::empty()
    } else {
        escaped(field.drop_last()) + escape_char(field.last())
    }
}

/// The text of a sequence of fields: each field escaped and ended by a line feed.
pub open spec fn lines(fields: Seq<Seq<char>>) -> Seq<char>
    decreases fields.len(),
{
    if fields.len() == 0 {
        Seq::empty()
    } else {
        lines(fields.drop_last()) + escaped(fields.last()).push('\n')
    }
}

/// What a reader knows after a prefix of a text.
pub ghost struct Scan {
    /// The fields that are complete.
    pub done: Seq<Seq<char>>,
    /// The field under way, unescaped.
    pub current: Seq<char>,
    /// Whether the last character was a backslash that opens an escape.
    pub escaping: bool,
    /// Whether the prefix holds an escape that does not exist.
    pub bad: bool,
}

/// The reader before the first character.
pub open spec fn scan_start() -> Scan {
    Scan { done: Seq::empty(), current: Seq::empty(), escaping: false, bad: false }
}

/// The reader after one more character.
pub open spec fn feed(scan: Scan, c: char) -> Scan {
    if scan.bad {
        scan
    } else if scan.escaping {
        if c == '\\' {
            Scan { current: scan.current.push('\\'), escaping: false, ..scan }
        } else if c == 'n' {
            Scan { current: scan.current.push('\n'), escaping: false, ..scan }
        } else {
            Scan { bad: true, ..scan }
        }
    } else if c == '\\' {
        Scan { escaping: true, ..scan }
    } else if c == '\n' {
        Scan { done: scan.done.push(scan.current), current: Seq::empty(), ..scan }
    } else {
        Scan { current: scan.current.push(c), ..scan }
    }
}

/// The reader after all of `text`, having started as `scan`.
pub open spec fn scan_from(scan: Scan, text: Seq<char>) -> Scan
    decreases text.len(),
{
    if text.len() == 0 {
        scan
    } else {
        feed(scan_from(scan, text.drop_last()), text.last())
    }
}

/// Whether a reader stands at the end of a complete record.
pub open spec fn complete(scan: Scan) -> bool {
    !scan.bad && !scan.escaping && scan.current.len() == 0
}

/// The fields that `text` holds, or `None` where it is not the text of any
/// sequence of fields.
pub open spec fn parsed(text: Seq<char>) -> Option<Seq<Seq<char>>> {
    let scan = scan_from(scan_start(), text);
    if complete(scan) {
        Some(scan.done)
    } else {
        None
    }
}

/// The characters of each string of a sequence.
pub open spec fn texts(fields: Seq<String>) -> Seq<Seq<char>> {
    Seq::new(fields.len(), |i: int| fields[i]@)
}

/// Reading a text in two parts is reading it whole.
pub proof fn scan_splits(scan: Scan, a: Seq<char>, b: Seq<char>)
    ensures
        scan_from(scan, a + b) == scan_from(scan_from(scan, a), b),
    decreases b.len(),
{
    if b.len() == 0 {
        assert(a + b =~= a);
    } else {
        assert((a + b).drop_last() =~= a + b.drop_last());
        assert((a + b).last() == b.last());
        scan_splits(scan, a, b.drop_last());
    }
}

/// Reading one escaped character adds that character to the field under way.
proof fn scan_escaped_char(scan: Scan, c: char)
    requires
        !scan.bad,
        !scan.escaping,
    ensures
        scan_from(scan, escape_char(c)) == (Scan { current: scan.current.push(c), ..scan }),
{
    let e = escape_char(c);
    if e.len() == 2 {
        assert(e.drop_last() =~= seq![e[0]]);
        assert(e.drop_last().drop_last() =~= Seq::<char>::empty());
        assert(scan_from(scan, e.drop_last().drop_last()) == scan);
        assert(scan_from(scan, e.drop_last()) == feed(scan, e[0]));
    } else {
        assert(e.drop_last() =~= Seq::<char>::empty());
        assert(scan_from(scan, e.drop_last()) == scan);
    }
}

/// Reading an escaped field adds the field to the field under way.
pub proof fn scan_escaped(scan: Scan, field: Seq<char>)
    requires
        !scan.bad,
        !scan.escaping,
    ensures
        scan_from(scan, escaped(field)) == (Scan { current: scan.current + field, ..scan }),
    decreases field.len(),
{
    if field.len() == 0 {
        assert(scan.current + field =~= scan.current);
    } else {
        let front = field.drop_last();
        scan_escaped(scan, front);
        scan_splits(scan, escaped(front), escape_char(field.last()));
        let mid = Scan { current: scan.current + front, ..scan };
        scan_escaped_char(mid, field.last());
        assert((scan.current + front).push(field.last()) =~= scan.current + field);
    }
}

/// Reading the text of a sequence of fields gives back those fields.
pub proof fn scan_lines(fields: Seq<Seq<char>>)
    ensures
        scan_from(scan_start(), lines(fields)) == (Scan { done: fields, ..scan_start() }),
    decreases fields.len(),
{
    if fields.len() == 0 {
        assert(fields =~= Seq::<Seq<char>>::empty());
    } else {
        let front = fields.drop_last();
        let line = escaped(fields.last()).push('\n');
        scan_lines(front);
        scan_splits(scan_start(), lines(front), line);
        let before = Scan { done: front, ..scan_start() };
        assert(line.drop_last() =~= escaped(fields.last()));
        scan_escaped(before, fields.last());
        assert(Seq::<char>::empty() + fields.last() =~= fields.last());
        assert(front.push(fields.last()) =~= fields);
    }
}

/// The text of a sequence of fields parses to exactly those fields.
pub proof fn parse_inverts_lines(fields: Seq<Seq<char>>)
    ensures
        parsed(lines(fields)) == Some(fields),
{
    scan_lines(fields);
}

/// What a reader that has not gone wrong has read is the text of its
/// complete fields, then the field under way, escaped, then the backslash of
/// an escape that is open.
pub proof fn scan_is_exact(text: Seq<char>)
    requires
        !scan_from(scan_start(), text).bad,
    ensures
        ({
            let scan = scan_from(scan_start(), text);
            text == lines(scan.done) + escaped(scan.current) + (if scan.escaping {
                seq!['\\']
            } else {
                Seq::<char>::empty()
            })
        }),
    decreases text.len(),
{
    let scan = scan_from(scan_start(), text);
    let none = Seq::<char>::empty();
    if text.len() == 0 {
        assert(text =~= lines(scan.done) + escaped(scan.current) + none);
    } else {
        let front = text.drop_last();
        let c = text.last();
        let prev = scan_from(scan_start(), front);
        scan_is_exact(front);
        assert(text =~= front.push(c));
        if prev.escaping {
            assert(scan.current.drop_last() =~= prev.current);
            assert(text =~= lines(scan.done) + escaped(scan.current) + none);
        } else if c == '\\' {
            assert(text =~= lines(scan.done) + escaped(scan.current) + seq!['\\']);
        } else if c == '\n' {
            assert(scan.done.drop_last() =~= prev.done);
            assert(escaped(scan.current) =~= none);
            assert(text =~= lines(scan.done) + escaped(scan.current) + none);
        } else {
            assert(scan.current.drop_last() =~= prev.current);
            assert(text =~= lines(scan.done) + escaped(scan.current) + none);
        }
    }
}

/// A text that parses is the text of the fields it parses to: no two texts
/// hold the same fields.
pub proof fn lines_inverts_parse(text: Seq<char>)
    requires
        parsed(text) is Some,
    ensures
        lines(parsed(text)->Some_0) == text,
{
    scan_is_exact(text);
    let scan = scan_from(scan_start(), text);
    assert(escaped(scan.current) =~= Seq::<char>::empty());
    assert(lines(scan.done) + Seq::<char>::empty() + Seq::<char>::empty() =~= lines(scan.done));
}

/// Writes one field with its escapes.
pub fn escape(field: &str) -> (out: String)
    ensures
        out@ == escaped(field@),
{
    let mut out = String::new();
    let n = field.unicode_len();
    let mut i: usize = 0;
    while i < n
        invariant
            i <= n,
            n == field@.len(),
            out@ == escaped(field@.subrange(0, i as int)),
        decreases n - i,
    {
        let c = field.get_char(i);
        proof {
            let upto = field@.subrange(0, i + 1);
            assert(upto.drop_last() =~= field@.subrange(0, i as int));
            assert(upto.last() == c);
        }
        if c == '\\' {
            out.push('\\');
            out.push('\\');
            assert(out@ =~= escaped(field@.subrange(0, i as int)) + seq!['\\', '\\']);
        } else if c == '\n' {
            out.push('\\');
            out.push('n');
            assert(out@ =~= escaped(field@.subrange(0, i as int)) + seq!['\\', 'n']);
        } else {
            out.push(c);
            assert(out@ =~= escaped(field@.subrange(0, i as int)) + seq![c]);
        }
        i = i + 1;
    }
    assert(field@.subrange(0, i as int) =~= field@);
    out
}

/// Writes a sequence of fields as one text.
pub fn write_lines(fields: &Vec<String>) -> (text: String)
    ensures
        text@ == lines(texts(fields@)),
{
    let mut text = String::new();
    let mut i: usize = 0;
    while i < fields.len()
        invariant
            i <= fields.len(),
            text@ == lines(texts(fields@).subrange(0, i as int)),
        decreases fields.len() - i,
    {
        proof {
            let upto = texts(fields@).subrange(0, i + 1);
            assert(upto.drop_last() =~= texts(fields@).subrange(0, i as int));
            assert(upto.last() == fields@[i as int]@);
        }
        let line = escape(fields[i].as_str());
        text.append(line.as_str());
        text.push('\n');
        assert(text@ =~= lines(texts(fields@).subrange(0, i as int)) + escaped(
            fields@[i as int]@,
        ).push('\n'));
        i = i + 1;
    }
    assert(texts(fields@).subrange(0, i as int) =~= texts(fields@));
    text
}

/// Reads a text back into its fields; `None` where the text is not the text
/// of any sequence of fields: it ends within a line or within an escape, or
/// holds a backslash that neither a backslash nor the letter `n` follows.
pub fn read_lines(text: &str) -> (r: Option<Vec<String>>)
    ensures
        match r {
            Some(fields) => parsed(text@) == Some(texts(fields@)),
            None => parsed(text@) is None,
        },
{
    let n = text.unicode_len();
    let mut done: Vec<String> = Vec::new();
    let mut current = String::new();
    let mut escaping = false;
    let mut i: usize = 0;
    assert(texts(done@) =~= Seq::<Seq<char>>::empty());
    assert(text@.subrange(0, 0) =~= Seq::<char>::empty());
    while i < n
        invariant
            i <= n,
            n == text@.len(),
            scan_from(scan_start(), text@.subrange(0, i as int)) == (Scan {
                done: texts(done@),
                current: current@,
                escaping,
                bad: false,
            }),
        decreases n - i,
    {
        let c = text.get_char(i);
        proof {
            let upto = text@.subrange(0, i + 1);
            assert(upto.drop_last() =~= text@.subrange(0, i as int));
            assert(upto.last() == c);
        }
        if escaping {
            if c == '\\' {
                current.push('\\');
            } else if c == 'n' {
                current.push('\n');
            } else {
                proof {
                    bad_stays_bad(
                        text@.subrange(0, i + 1),
                        text@.subrange(i + 1, text@.len() as int),
                    );
                    assert(text@.subrange(0, i + 1) + text@.subrange(i + 1, text@.len() as int)
                        =~= text@);
                }
                return None;
            }
            escaping = false;
        } else if c == '\\' {
            escaping = true;
        } else if c == '\n' {
            let ghost before = texts(done@);
            let ghost line = current@;
            done.push(current);
            current = String::new();
            assert(texts(done@) =~= before.push(line));
        } else {
            current.push(c);
        }
        i = i + 1;
    }
    assert(text@.subrange(0, i as int) =~= text@);
    if escaping || current.unicode_len() > 0 {
        None
    } else {
        Some(done)
    }
}

/// A reader that has gone wrong stays wrong, whatever follows.
proof fn bad_stays_bad(a: Seq<char>, b: Seq<char>)
    requires
        scan_from(scan_start(), a).bad,
    ensures
        scan_from(scan_start(), a + b).bad,
    decreases b.len(),
{
    if b.len() == 0 {
        assert(a + b =~= a);
    } else {
        assert((a + b).drop_last() =~= a + b.drop_last());
        bad_stays_bad(a, b.drop_last());
    }
}

} // verus!
