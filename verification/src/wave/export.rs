//! The text of an exported session: a header line with the column names,
//! then one line per tick, fields separated by commas.
//!
//! Values are written by the caller, who knows their type; flags are
//! written as 1 and 0, marks and channel numbers in decimal.

use vstd::prelude::*;
use vstd::string::StringExecFns;
use crate::texts;
use crate::wave::record::{Row, RowView};

verus! {

/// The text of one decimal digit.
pub open spec fn digit_text(d: nat) -> Seq<char> {
    if d == 0 {
        "0"@
    } else if d == 1 {
        "1"@
    } else if d == 2 {
        "2"@
    } else if d == 3 {
        "3"@
    } else if d == 4 {
        "4"@
    } else if d == 5 {
        "5"@
    } else if d == 6 {
        "6"@
    } else if d == 7 {
        "7"@
    } else if d == 8 {
        "8"@
    } else {
        "9"@
    }
}

/// The decimal text of `n`, without leading zeros.
pub open spec fn decimal(n: nat) -> Seq<char>
    decreases n,
{
    if n < 10 {
        digit_text(n)
    } else {
        decimal(n / 10) + digit_text(n % 10)
    }
}

/// The names of the value columns of the first `n` channels, each
/// followed by a comma.
pub open spec fn channel_names(n: nat) -> Seq<char>
    decreases n,
{
    if n == 0 {
        Seq::empty()
    } else {
        channel_names((n - 1) as nat) + "channel-"@ + decimal((n - 1) as nat) + ","@
    }
}

/// The names of the status columns of the first `n` channels, each
/// followed by a comma.
pub open spec fn status_names(n: nat) -> Seq<char>
    decreases n,
{
    if n == 0 {
        Seq::empty()
    } else {
        status_names((n - 1) as nat) + "status ch-"@ + decimal((n - 1) as nat) + ","@
    }
}

/// The header line of a session of `n` channels.
pub open spec fn header_text(n: nat) -> Seq<char> {
    channel_names(n) + status_names(n) + "mark"@ + "\n"@
}

/// The text of a health flag.
pub open spec fn flag_text(healthy: bool) -> Seq<char> {
    if healthy {
        "1"@
    } else {
        "0"@
    }
}

/// The first `n` fields, each followed by a comma.
pub open spec fn fields_text(fields: Seq<Seq<char>>, n: nat) -> Seq<char>
    decreases n,
{
    if n == 0 {
        Seq::empty()
    } else {
        fields_text(fields, (n - 1) as nat) + fields[n - 1] + ","@
    }
}

/// The first `n` flags, each followed by a comma.
pub open spec fn flags_text(flags: Seq<bool>, n: nat) -> Seq<char>
    decreases n,
{
    if n == 0 {
        Seq::empty()
    } else {
        flags_text(flags, (n - 1) as nat) + flag_text(flags[n - 1]) + ","@
    }
}

/// The line of one tick: the values as the caller wrote them, the flags,
/// the mark, and a line feed.
pub open spec fn row_text(values: Seq<Seq<char>>, status: Seq<bool>, mark: u8) -> Seq<char> {
    fields_text(values, values.len()) + flags_text(status, status.len()) + decimal(mark as nat)
        + "\n"@
}

fn digit_str(d: usize) -> (text: &'static str)
    requires
        d < 10,
    ensures
        text@ == digit_text(d as nat),
{
    if d == 0 {
        "0"
    } else if d == 1 {
        "1"
    } else if d == 2 {
        "2"
    } else if d == 3 {
        "3"
    } else if d == 4 {
        "4"
    } else if d == 5 {
        "5"
    } else if d == 6 {
        "6"
    } else if d == 7 {
        "7"
    } else if d == 8 {
        "8"
    } else {
        "9"
    }
}

/// Writes `n` in decimal.
pub fn decimal_text(n: usize) -> (text: String)
    ensures
        text@ == decimal(n as nat),
    decreases n,
{
    if n < 10 {
        String::from_str(digit_str(n))
    } else {
        let mut text: String = decimal_text(n / 10);
        text.append(digit_str(n % 10));
        text
    }
}

/// Writes the header line of a session of `channels` channels.
pub fn header_line(channels: usize) -> (line: String)
    ensures
        line@ == header_text(channels as nat),
{
    let mut line: String = String::new();
    let mut i: usize = 0;
    while i < channels
        invariant
            i <= channels,
            line@ == channel_names(i as nat),
        decreases channels - i,
    {
        let number: String = decimal_text(i);
        line.append("channel-");
        line.append(number.as_str());
        line.append(",");
        i += 1;
    }
    let mut k: usize = 0;
    while k < channels
        invariant
            k <= channels,
            line@ == channel_names(channels as nat) + status_names(k as nat),
        decreases channels - k,
    {
        let number: String = decimal_text(k);
        line.append("status ch-");
        line.append(number.as_str());
        line.append(",");
        k += 1;
        assert(line@ =~= channel_names(channels as nat) + status_names(k as nat));
    }
    line.append("mark");
    line.append("\n");
    line
}

/// Writes the line of one tick from the values as the caller wrote them,
/// the health flags and the mark.
pub fn data_line(values: &Vec<String>, status: &Vec<bool>, mark: u8) -> (line: String)
    ensures
        line@ == row_text(texts(values@), status@, mark),
{
    let ghost fields = texts(values@);
    let mut line: String = String::new();
    let n: usize = values.len();
    let mut i: usize = 0;
    while i < n
        invariant
            i <= n,
            n == values@.len(),
            fields == texts(values@),
            line@ == fields_text(fields, i as nat),
        decreases n - i,
    {
        line.append(values[i].as_str());
        line.append(",");
        i += 1;
    }
    let m: usize = status.len();
    let mut k: usize = 0;
    while k < m
        invariant
            k <= m,
            m == status@.len(),
            line@ == fields_text(fields, fields.len()) + flags_text(status@, k as nat),
        decreases m - k,
    {
        line.append(if status[k] { "1" } else { "0" });
        line.append(",");
        k += 1;
        assert(line@ =~= fields_text(fields, fields.len()) + flags_text(status@, k as nat));
    }
    let number: String = decimal_text(mark as usize);
    line.append(number.as_str());
    line.append("\n");
    line
}

/// `line` is the line of `row` with its values written by `render`.
pub open spec fn is_line_of<T, F: Fn(T) -> String>(
    render: F,
    row: RowView<T>,
    line: Seq<char>,
) -> bool {
    exists|written: Vec<String>|
        {
            &&& written@.len() == row.values.len()
            &&& forall|i: int|
                0 <= i < row.values.len() ==> call_ensures(
                    render,
                    (row.values[i],),
                    #[trigger] written@[i],
                )
            &&& line == #[trigger] row_text(texts(written@), row.status, row.mark)
        }
}

/// Writes every value with `render`.
pub fn render_values<T: Copy, F: Fn(T) -> String>(values: &Vec<T>, render: &F) -> (written: Vec<
    String,
>)
    requires
        forall|x: T| call_requires(*render, (x,)),
    ensures
        written@.len() == values@.len(),
        forall|i: int|
            0 <= i < values@.len() ==> call_ensures(*render, (values@[i],), #[trigger] written@[i]),
{
    let n: usize = values.len();
    let mut written: Vec<String> = Vec::new();
    let mut i: usize = 0;
    while i < n
        invariant
            i <= n,
            n == values@.len(),
            written@.len() == i,
            forall|x: T| call_requires(*render, (x,)),
            forall|j: int|
                0 <= j < i ==> call_ensures(*render, (values@[j],), #[trigger] written@[j]),
        decreases n - i,
    {
        written.push(render(values[i]));
        i += 1;
    }
    written
}

/// Writes a session for export: the header line, then one line per row in
/// the order of the ticks, the values written by `render`.
pub fn session_lines<T: Copy, F: Fn(T) -> String>(
    channels: usize,
    rows: &Vec<Row<T>>,
    render: &F,
) -> (lines: Vec<String>)
    requires
        forall|x: T| call_requires(*render, (x,)),
    ensures
        lines@.len() == rows@.len() + 1,
        lines@[0]@ == header_text(channels as nat),
        forall|j: int|
            0 <= j < rows@.len() ==> is_line_of(*render, rows@[j]@, (#[trigger] lines@[j + 1])@),
{
    let n: usize = rows.len();
    let mut lines: Vec<String> = Vec::new();
    lines.push(header_line(channels));
    let mut j: usize = 0;
    while j < n
        invariant
            j <= n,
            n == rows@.len(),
            lines@.len() == j + 1,
            lines@[0]@ == header_text(channels as nat),
            forall|x: T| call_requires(*render, (x,)),
            forall|k: int|
                0 <= k < j ==> is_line_of(*render, rows@[k]@, (#[trigger] lines@[k + 1])@),
        decreases n - j,
    {
        let written: Vec<String> = render_values(&rows[j].values, render);
        let line: String = data_line(&written, &rows[j].status, rows[j].mark);
        assert(is_line_of(*render, rows@[j as int]@, line@)) by {
            let row = rows@[j as int]@;
            assert(line@ == row_text(texts(written@), row.status, row.mark));
        }
        lines.push(line);
        j += 1;
    }
    lines
}

} // verus!
