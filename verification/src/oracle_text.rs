//! Text handling for exporting oracle text: whitespace normalization,
//! reminder lines, parse input and CSV fields.

use vstd::prelude::*;
use crate::text::{push_str, same_text, string_of};

verus! {

/// Whether `c` is white space (the Unicode `White_Space` property).
pub open spec fn is_ws(c: char) -> bool {
    let n = c as int;
    ||| 9 <= n <= 13
    ||| n == 32
    ||| n == 0x85
    ||| n == 0xa0
    ||| n == 0x1680
    ||| 0x2000 <= n <= 0x200a
    ||| n == 0x2028
    ||| n == 0x2029
    ||| n == 0x202f
    ||| n == 0x205f
    ||| n == 0x3000
}

/// Whether `c` is white space.
pub fn is_whitespace(c: char) -> (b: bool)
    ensures
        b == is_ws(c),
{
    let n = c as u32;
    (9 <= n && n <= 13) || n == 32 || n == 0x85 || n == 0xa0 || n == 0x1680 || (0x2000 <= n && n <= 0x200a)
        || n == 0x2028 || n == 0x2029 || n == 0x202f || n == 0x205f || n == 0x3000
}

/// Every character is white space.
pub open spec fn all_ws(s: Seq<char>) -> bool {
    forall|i: int| 0 <= i < s.len() ==> is_ws(#[trigger] s[i])
}

/// Normalizing `s`: the text so far, and whether a space is owed before the
/// next word (a run of white space was seen after some word).
pub open spec fn normalize_state(s: Seq<char>) -> (Seq<char>, bool)
    decreases s.len(),
{
    if s.len() == 0 {
        (Seq::empty(), false)
    } else {
        let (out, pending) = normalize_state(s.drop_last());
        let c = s.last();
        if is_ws(c) {
            (out, pending || out.len() > 0)
        } else if pending {
            (out + seq![' ', c], false)
        } else {
            (out.push(c), false)
        }
    }
}

/// The words of `s`, separated by single spaces, without white space at either end.
pub open spec fn normalized(s: Seq<char>) -> Seq<char> {
    normalize_state(s).0
}

/// Collapses runs of white space into single spaces and trims both ends.
pub fn normalize_line_for_comparison(text: &str) -> (r: String)
    ensures
        r@ == normalized(text@),
{
    let n = text.unicode_len();
    let mut out = String::new();
    let mut started = false;
    let mut pending = false;
    let mut i: usize = 0;
    while i < n
        invariant
            n == text@.len(),
            i <= n,
            (out@, pending) == normalize_state(text@.subrange(0, i as int)),
            started == (out@.len() > 0),
        decreases n - i,
    {
        assert(text@.subrange(0, i + 1).drop_last() == text@.subrange(0, i as int));
        let c = text.get_char(i);
        if is_whitespace(c) {
            if started {
                pending = true;
            }
        } else {
            if pending {
                push_str(&mut out, " ");
                proof {
                    reveal_strlit(" ");
                }
            }
            let piece = text.substring_char(i, i + 1);
            push_str(&mut out, piece);
            proof {
                assert(piece@ =~= seq![c]);
            }
            pending = false;
            started = true;
        }
        i = i + 1;
    }
    assert(text@.subrange(0, n as int) == text@);
    out
}

/// Whether `s` holds a comma, a double quote, a line feed or a carriage return.
pub open spec fn needs_quoting(s: Seq<char>) -> bool {
    exists|i: int| 0 <= i < s.len() && (s[i] == ',' || s[i] == '"' || s[i] == '\n' || s[i] == '\r')
}

/// `s` with every double quote doubled.
pub open spec fn doubled_quotes(s: Seq<char>) -> Seq<char>
    decreases s.len(),
{
    if s.len() == 0 {
        s
    } else if s.last() == '"' {
        doubled_quotes(s.drop_last()) + seq!['"', '"']
    } else {
        doubled_quotes(s.drop_last()).push(s.last())
    }
}

/// A CSV field: quoted, with quotes doubled, when it holds a separator, a
/// quote or a line break; as it is otherwise.
pub open spec fn csv_field(s: Seq<char>) -> Seq<char> {
    if needs_quoting(s) {
        seq!['"'] + doubled_quotes(s) + seq!['"']
    } else {
        s
    }
}

/// Escapes a value for a CSV field.
pub fn csv_escape(value: &str) -> (r: String)
    ensures
        r@ == csv_field(value@),
{
    proof {
        reveal_strlit("\"");
        reveal_strlit("\"\"");
    }
    let n = value.unicode_len();
    let mut quote = false;
    let mut i: usize = 0;
    while i < n
        invariant
            n == value@.len(),
            i <= n,
            quote == exists|j: int|
                0 <= j < i && (value@[j] == ',' || value@[j] == '"' || value@[j] == '\n' || value@[j] == '\r'),
        decreases n - i,
    {
        let c = value.get_char(i);
        if c == ',' || c == '"' || c == '\n' || c == '\r' {
            quote = true;
        }
        i = i + 1;
    }
    if !quote {
        return string_of(value);
    }
    let mut out = string_of("\"");
    let mut k: usize = 0;
    while k < n
        invariant
            n == value@.len(),
            k <= n,
            out@ == seq!['"'] + doubled_quotes(value@.subrange(0, k as int)),
        decreases n - k,
    {
        assert(value@.subrange(0, k + 1).drop_last() == value@.subrange(0, k as int));
        let c = value.get_char(k);
        if c == '"' {
            proof {
                reveal_strlit("\"\"");
            }
            push_str(&mut out, "\"\"");
            assert(out@ == seq!['"'] + doubled_quotes(value@.subrange(0, k + 1)));
        } else {
            let piece = value.substring_char(k, k + 1);
            push_str(&mut out, piece);
            assert(piece@ =~= seq![c]);
            assert(out@ =~= seq!['"'] + doubled_quotes(value@.subrange(0, k + 1)));
        }
        k = k + 1;
    }
    assert(value@.subrange(0, n as int) == value@);
    push_str(&mut out, "\"");
    out
}

/// One row of an exported table.
#[derive(Debug, Clone)]
pub struct CsvRow {
    pub name: String,
    pub oracle_text: String,
    pub compiled_text: String,
}

/// The line of a row: its three fields quoted as needed, separated by
/// commas, and a line feed.
pub open spec fn csv_line(row: CsvRow) -> Seq<char> {
    csv_field(row.name@) + seq![','] + csv_field(row.oracle_text@) + seq![','] + csv_field(row.compiled_text@)
        + seq!['\n']
}

/// The lines of the rows, in order.
pub open spec fn csv_lines(rows: Seq<CsvRow>) -> Seq<char>
    decreases rows.len(),
{
    if rows.len() == 0 {
        Seq::empty()
    } else {
        csv_lines(rows.drop_last()) + csv_line(rows.last())
    }
}

/// The header line of an exported table.
pub open spec fn csv_header() -> Seq<char> {
    "name,oracle_text,compiled_text\n"@
}

/// The text of an exported table: the header line, then one line per row.
pub fn csv_text(rows: &[CsvRow]) -> (out: String)
    ensures
        out@ == csv_header() + csv_lines(rows@),
{
    let mut out = string_of("name,oracle_text,compiled_text\n");
    let mut i: usize = 0;
    while i < rows.len()
        invariant
            i <= rows@.len(),
            out@ == csv_header() + csv_lines(rows@.subrange(0, i as int)),
        decreases rows.len() - i,
    {
        proof {
            reveal_strlit(",");
            reveal_strlit("\n");
        }
        let row = &rows[i];
        let ghost before = out@;
        let name = csv_escape(row.name.as_str());
        push_str(&mut out, name.as_str());
        push_str(&mut out, ",");
        let oracle = csv_escape(row.oracle_text.as_str());
        push_str(&mut out, oracle.as_str());
        push_str(&mut out, ",");
        let compiled = csv_escape(row.compiled_text.as_str());
        push_str(&mut out, compiled.as_str());
        push_str(&mut out, "\n");
        assert(rows@.subrange(0, i + 1).drop_last() == rows@.subrange(0, i as int));
        assert(out@ =~= before + csv_line(rows@[i as int]));
        i = i + 1;
    }
    assert(rows@.subrange(0, rows@.len() as int) == rows@);
    out
}

/// The lines joined by line feeds.
pub open spec fn join_lines(lines: Seq<Seq<char>>) -> Seq<char>
    decreases lines.len(),
{
    if lines.len() == 0 {
        Seq::empty()
    } else if lines.len() == 1 {
        lines[0]
    } else {
        join_lines(lines.drop_last()) + seq!['\n'] + lines.last()
    }
}

/// The parse input: the metadata lines, then the oracle text unless it is
/// blank, joined by line feeds.
pub open spec fn parse_input_text(metadata: Seq<String>, oracle: Seq<char>) -> Seq<char> {
    let lines = metadata.map_values(|l: String| l@);
    join_lines(if all_ws(oracle) { lines } else { lines.push(oracle) })
}

/// Builds the text handed to the parser from metadata lines and oracle text.
pub fn build_parse_input(metadata_lines: &[String], oracle_text: &str) -> (r: String)
    ensures
        r@ == parse_input_text(metadata_lines@, oracle_text@),
{
    proof {
        reveal_strlit("\n");
    }
    let ghost lines = metadata_lines@.map_values(|l: String| l@);
    let mut out = String::new();
    let mut i: usize = 0;
    while i < metadata_lines.len()
        invariant
            i <= metadata_lines@.len(),
            lines == metadata_lines@.map_values(|l: String| l@),
            out@ == join_lines(lines.subrange(0, i as int)),
        decreases metadata_lines.len() - i,
    {
        assert(lines.subrange(0, i + 1).drop_last() == lines.subrange(0, i as int));
        if i > 0 {
            proof {
                reveal_strlit("\n");
            }
            push_str(&mut out, "\n");
        }
        push_str(&mut out, metadata_lines[i].as_str());
        proof {
            if i == 0 {
                assert(join_lines(lines.subrange(0, 1)) == lines[0]);
            }
        }
        i = i + 1;
    }
    assert(lines.subrange(0, lines.len() as int) == lines);
    let n = oracle_text.unicode_len();
    let mut blank = true;
    let mut k: usize = 0;
    while k < n
        invariant
            n == oracle_text@.len(),
            k <= n,
            blank == forall|j: int| 0 <= j < k ==> is_ws(#[trigger] oracle_text@[j]),
        decreases n - k,
    {
        if !is_whitespace(oracle_text.get_char(k)) {
            blank = false;
        }
        k = k + 1;
    }
    if !blank {
        if metadata_lines.len() > 0 {
            push_str(&mut out, "\n");
        }
        push_str(&mut out, oracle_text);
        proof {
            assert(lines.push(oracle_text@).drop_last() == lines);
            if lines.len() == 0 {
                assert(join_lines(lines.push(oracle_text@)) == oracle_text@);
            }
        }
    }
    out
}

/// `s` split at line feeds (a text without line feeds is one line).
pub open spec fn split_lines(s: Seq<char>) -> Seq<Seq<char>>
    decreases s.len(),
{
    if s.len() == 0 {
        seq![Seq::empty()]
    } else {
        let prev = split_lines(s.drop_last());
        if s.last() == '\n' {
            prev.push(Seq::empty())
        } else {
            prev.update(prev.len() - 1, prev.last().push(s.last()))
        }
    }
}

/// `s` without leading white space.
pub open spec fn trim_start(s: Seq<char>) -> Seq<char>
    decreases s.len(),
{
    if s.len() > 0 && is_ws(s[0]) {
        trim_start(s.subrange(1, s.len() as int))
    } else {
        s
    }
}

/// `s` without trailing white space.
pub open spec fn trim_end(s: Seq<char>) -> Seq<char>
    decreases s.len(),
{
    if s.len() > 0 && is_ws(s.last()) {
        trim_end(s.drop_last())
    } else {
        s
    }
}

/// `s` without white space at either end.
pub open spec fn trim(s: Seq<char>) -> Seq<char> {
    trim_end(trim_start(s))
}

/// `s` without leading `(`.
pub open spec fn strip_open(s: Seq<char>) -> Seq<char>
    decreases s.len(),
{
    if s.len() > 0 && s[0] == '(' {
        strip_open(s.subrange(1, s.len() as int))
    } else {
        s
    }
}

/// `s` without trailing `)`.
pub open spec fn strip_close(s: Seq<char>) -> Seq<char>
    decreases s.len(),
{
    if s.len() > 0 && s.last() == ')' {
        strip_close(s.drop_last())
    } else {
        s
    }
}

/// The comparison form of a line that is all parenthesized (reminder text),
/// if its inside is not blank.
pub open spec fn reminder_of(line: Seq<char>) -> Option<Seq<char>> {
    let t = trim(line);
    if t.len() > 0 && t[0] == '(' && t.last() == ')' {
        let inner = trim(strip_close(strip_open(t)));
        if inner.len() > 0 {
            Some(normalized(inner))
        } else {
            None
        }
    } else {
        None
    }
}

/// The reminder forms of the lines.
pub open spec fn reminders(lines: Seq<Seq<char>>) -> Set<Seq<char>>
    decreases lines.len(),
{
    if lines.len() == 0 {
        Set::empty()
    } else {
        let prev = reminders(lines.drop_last());
        match reminder_of(lines.last()) {
            Some(x) => prev.insert(x),
            None => prev,
        }
    }
}

/// The index of the first character of `v[a..b]` that is not white space (or `b`).
fn skip_ws_front(v: &Vec<char>, a: usize, b: usize) -> (lo: usize)
    requires
        a <= b <= v@.len(),
    ensures
        a <= lo <= b,
        trim_start(v@.subrange(a as int, b as int)) == v@.subrange(lo as int, b as int),
{
    let mut lo = a;
    while lo < b && is_whitespace(v[lo])
        invariant
            a <= lo <= b,
            b <= v@.len(),
            trim_start(v@.subrange(a as int, b as int)) == trim_start(v@.subrange(lo as int, b as int)),
        decreases b - lo,
    {
        assert(v@.subrange(lo as int, b as int).subrange(1, (b - lo) as int) == v@.subrange(lo + 1, b as int));
        lo = lo + 1;
    }
    lo
}

/// The end of `v[a..b]` without trailing white space.
fn skip_ws_back(v: &Vec<char>, a: usize, b: usize) -> (hi: usize)
    requires
        a <= b <= v@.len(),
    ensures
        a <= hi <= b,
        trim_end(v@.subrange(a as int, b as int)) == v@.subrange(a as int, hi as int),
{
    let mut hi = b;
    while hi > a && is_whitespace(v[hi - 1])
        invariant
            a <= hi <= b,
            b <= v@.len(),
            trim_end(v@.subrange(a as int, b as int)) == trim_end(v@.subrange(a as int, hi as int)),
        decreases hi - a,
    {
        assert(v@.subrange(a as int, hi as int).drop_last() == v@.subrange(a as int, hi - 1));
        hi = hi - 1;
    }
    hi
}

/// The index of the first character of `v[a..b]` that is not `(` (or `b`).
fn skip_open(v: &Vec<char>, a: usize, b: usize) -> (lo: usize)
    requires
        a <= b <= v@.len(),
    ensures
        a <= lo <= b,
        strip_open(v@.subrange(a as int, b as int)) == v@.subrange(lo as int, b as int),
{
    let mut lo = a;
    while lo < b && v[lo] == '('
        invariant
            a <= lo <= b,
            b <= v@.len(),
            strip_open(v@.subrange(a as int, b as int)) == strip_open(v@.subrange(lo as int, b as int)),
        decreases b - lo,
    {
        assert(v@.subrange(lo as int, b as int).subrange(1, (b - lo) as int) == v@.subrange(lo + 1, b as int));
        lo = lo + 1;
    }
    lo
}

/// The end of `v[a..b]` without trailing `)`.
fn skip_close(v: &Vec<char>, a: usize, b: usize) -> (hi: usize)
    requires
        a <= b <= v@.len(),
    ensures
        a <= hi <= b,
        strip_close(v@.subrange(a as int, b as int)) == v@.subrange(a as int, hi as int),
{
    let mut hi = b;
    while hi > a && v[hi - 1] == ')'
        invariant
            a <= hi <= b,
            b <= v@.len(),
            strip_close(v@.subrange(a as int, b as int)) == strip_close(v@.subrange(a as int, hi as int)),
        decreases hi - a,
    {
        assert(v@.subrange(a as int, hi as int).drop_last() == v@.subrange(a as int, hi - 1));
        hi = hi - 1;
    }
    hi
}

/// The characters of `text`.
fn chars_of(text: &str) -> (v: Vec<char>)
    ensures
        v@ == text@,
{
    let n = text.unicode_len();
    let mut v: Vec<char> = Vec::new();
    let mut i: usize = 0;
    while i < n
        invariant
            n == text@.len(),
            i <= n,
            v@ == text@.subrange(0, i as int),
        decreases n - i,
    {
        v.push(text.get_char(i));
        i = i + 1;
    }
    assert(text@.subrange(0, n as int) == text@);
    v
}

/// `text` without white space at either end.
pub fn trim_text(text: &str) -> (r: String)
    ensures
        r@ == trim(text@),
{
    let v = chars_of(text);
    let n = v.len();
    assert(v@.subrange(0, n as int) == v@);
    let lo = skip_ws_front(&v, 0, n);
    let hi = skip_ws_back(&v, lo, n);
    let t = text.substring_char(lo, hi);
    string_of(t)
}

/// The reminder form of line `v[a..b]` of `text`, if it has one.
fn reminder_line(text: &str, v: &Vec<char>, a: usize, b: usize) -> (r: Option<String>)
    requires
        v@ == text@,
        a <= b <= v@.len(),
    ensures
        match reminder_of(v@.subrange(a as int, b as int)) {
            Some(x) => r matches Some(t) && t@ == x,
            None => r is None,
        },
{
    let line = Ghost(v@.subrange(a as int, b as int));
    let lo = skip_ws_front(v, a, b);
    let hi = skip_ws_back(v, lo, b);
    assert(trim(line@) == v@.subrange(lo as int, hi as int));
    if !(lo < hi && v[lo] == '(' && v[hi - 1] == ')') {
        return None;
    }
    let lo2 = skip_open(v, lo, hi);
    let hi2 = skip_close(v, lo2, hi);
    let lo3 = skip_ws_front(v, lo2, hi2);
    let hi3 = skip_ws_back(v, lo3, hi2);
    if lo3 >= hi3 {
        return None;
    }
    let inner = text.substring_char(lo3, hi3);
    Some(normalize_line_for_comparison(inner))
}

/// The lines of the oracle text that are all reminder text, in comparison
/// form, each once.
pub fn reminder_equivalent_lines_from_oracle(oracle_text: &str) -> (r: Vec<String>)
    ensures
        forall|x: Seq<char>|
            (exists|k: int| 0 <= k < r@.len() && #[trigger] r@[k]@ == x) <==> reminders(split_lines(oracle_text@)).contains(
                x,
            ),
        forall|k: int, l: int| 0 <= k < l < r@.len() ==> r@[k]@ != r@[l]@,
{
    let n = oracle_text.unicode_len();
    let mut v: Vec<char> = Vec::new();
    let mut i: usize = 0;
    while i < n
        invariant
            n == oracle_text@.len(),
            i <= n,
            v@ == oracle_text@.subrange(0, i as int),
        decreases n - i,
    {
        v.push(oracle_text.get_char(i));
        i = i + 1;
    }
    assert(oracle_text@.subrange(0, n as int) == oracle_text@);
    let mut r: Vec<String> = Vec::new();
    let ghost mut done: Seq<Seq<char>> = Seq::empty();
    let mut start: usize = 0;
    let mut j: usize = 0;
    proof {
        assert(v@.subrange(0, 0) =~= Seq::<char>::empty());
        assert(split_lines(v@.subrange(0, 0)) =~~= done.push(v@.subrange(0, 0)));
    }
    while j < n
        invariant
            n == v@.len(),
            v@ == oracle_text@,
            start <= j <= n,
            split_lines(v@.subrange(0, j as int)) == done.push(v@.subrange(start as int, j as int)),
            forall|x: Seq<char>|
                (exists|k: int| 0 <= k < r@.len() && #[trigger] r@[k]@ == x) <==> reminders(done).contains(x),
            forall|k: int, l: int| 0 <= k < l < r@.len() ==> r@[k]@ != r@[l]@,
        decreases n - j,
    {
        assert(v@.subrange(0, j + 1).drop_last() == v@.subrange(0, j as int));
        if v[j] == '\n' {
            let ghost piece = v@.subrange(start as int, j as int);
            let found = reminder_line(oracle_text, &v, start, j);
            add_reminder(&mut r, found, Ghost(done), Ghost(piece));
            proof {
                assert(done.push(piece).drop_last() == done);
                done = done.push(piece);
                assert(v@.subrange(j + 1, j + 1) == Seq::<char>::empty());
            }
            start = j + 1;
        } else {
            proof {
                assert(v@.subrange(start as int, j + 1) == v@.subrange(start as int, j as int).push(v@[j as int]));
            }
        }
        j = j + 1;
    }
    assert(v@.subrange(0, n as int) == v@);
    let ghost piece = v@.subrange(start as int, n as int);
    let found = reminder_line(oracle_text, &v, start, n);
    add_reminder(&mut r, found, Ghost(done), Ghost(piece));
    proof {
        assert(done.push(piece).drop_last() == done);
    }
    r
}

/// Adds the reminder form of one more line, unless it is already there.
fn add_reminder(r: &mut Vec<String>, found: Option<String>, done: Ghost<Seq<Seq<char>>>, piece: Ghost<Seq<char>>)
    requires
        match reminder_of(piece@) {
            Some(x) => found matches Some(t) && t@ == x,
            None => found is None,
        },
        forall|x: Seq<char>|
            (exists|k: int| 0 <= k < old(r)@.len() && #[trigger] old(r)@[k]@ == x) <==> reminders(done@).contains(x),
        forall|k: int, l: int| 0 <= k < l < old(r)@.len() ==> old(r)@[k]@ != old(r)@[l]@,
    ensures
        forall|x: Seq<char>|
            (exists|k: int| 0 <= k < final(r)@.len() && #[trigger] final(r)@[k]@ == x) <==> reminders(
                done@.push(piece@),
            ).contains(x),
        forall|k: int, l: int| 0 <= k < l < final(r)@.len() ==> final(r)@[k]@ != final(r)@[l]@,
{
    proof {
        assert(done@.push(piece@).drop_last() =~= done@);
        assert(done@.push(piece@).last() == piece@);
        assert(reminders(done@.push(piece@)) == match reminder_of(piece@) {
            Some(x) => reminders(done@).insert(x),
            None => reminders(done@),
        });
    }
    match found {
        None => {},
        Some(t) => {
            let mut seen = false;
            let mut k: usize = 0;
            while k < r.len()
                invariant
                    k <= r@.len(),
                    seen == exists|m: int| 0 <= m < k && #[trigger] r@[m]@ == t@,
                decreases r.len() - k,
            {
                if same_text(&r[k], t.as_str()) {
                    seen = true;
                }
                k = k + 1;
            }
            if !seen {
                let ghost before = r@;
                r.push(t);
                proof {
                    assert forall|x: Seq<char>|
                        (exists|m: int| 0 <= m < r@.len() && #[trigger] r@[m]@ == x) implies reminders(
                            done@.push(piece@),
                        ).contains(x) by {
                        let m = choose|m: int| 0 <= m < r@.len() && #[trigger] r@[m]@ == x;
                        if m < before.len() {
                            assert(before[m]@ == x);
                        } else {
                            assert(x == t@);
                        }
                    }
                    assert forall|x: Seq<char>|
                        reminders(done@.push(piece@)).contains(x) implies (exists|m: int|
                            0 <= m < r@.len() && #[trigger] r@[m]@ == x) by {
                        if x == t@ {
                            assert(r@[before.len() as int]@ == x);
                        } else {
                            let m = choose|m: int| 0 <= m < before.len() && #[trigger] before[m]@ == x;
                            assert(r@[m]@ == x);
                        }
                    }
                }
            }
        },
    }
}

/// Words separated by single spaces: the only white space is the space
/// character, never at either end and never twice in a row.
pub open spec fn tidy(o: Seq<char>) -> bool {
    &&& forall|i: int| 0 <= i < o.len() && is_ws(#[trigger] o[i]) ==> o[i] == ' '
    &&& o.len() > 0 ==> o[0] != ' ' && o.last() != ' '
    &&& forall|i: int| 0 <= i < o.len() - 1 ==> !(#[trigger] o[i] == ' ' && o[i + 1] == ' ')
}

/// The state of normalization is always tidy text, and a space is owed only
/// after some word.
pub proof fn lemma_normalize_state_tidy(s: Seq<char>)
    ensures
        tidy(normalize_state(s).0),
        normalize_state(s).1 ==> normalize_state(s).0.len() > 0,
    decreases s.len(),
{
    if s.len() > 0 {
        lemma_normalize_state_tidy(s.drop_last());
        let (o, p) = normalize_state(s.drop_last());
        let c = s.last();
        if !is_ws(c) {
            assert(c != ' ');
            if p {
                let n = o + seq![' ', c];
                assert forall|i: int| 0 <= i < n.len() - 1 implies !(#[trigger] n[i] == ' ' && n[i + 1] == ' ') by {
                    if i < o.len() - 1 {
                        assert(n[i] == o[i] && n[i + 1] == o[i + 1]);
                    } else if i == o.len() - 1 {
                        assert(n[i] == o.last());
                    }
                }
                assert forall|i: int| 0 <= i < n.len() && is_ws(#[trigger] n[i]) implies n[i] == ' ' by {
                    if i < o.len() {
                        assert(n[i] == o[i]);
                    }
                }
            } else {
                let n = o.push(c);
                assert forall|i: int| 0 <= i < n.len() - 1 implies !(#[trigger] n[i] == ' ' && n[i + 1] == ' ') by {
                    if i < o.len() - 1 {
                        assert(n[i] == o[i] && n[i + 1] == o[i + 1]);
                    }
                }
                assert forall|i: int| 0 <= i < n.len() && is_ws(#[trigger] n[i]) implies n[i] == ' ' by {
                    if i < o.len() {
                        assert(n[i] == o[i]);
                    }
                }
            }
        }
    }
}

/// Normalized text is words separated by single spaces (see `tidy`).
pub proof fn law_normalized_is_tidy(s: Seq<char>)
    ensures
        tidy(normalized(s)),
{
    lemma_normalize_state_tidy(s);
}

} // verus!
