//! Byte buffers as text: a run of hex digits, or one of two classic dumps.

use vstd::prelude::*;
use vstd::slice::slice_subrange;
use crate::document::BytesFormat;
use crate::text::push_char;

verus! {

/// The lowercase hex digit for `n`, where `n < 16`.
pub open spec fn hex_digit(n: int) -> char {
    if n < 10 {
        ((48 + n) as u8) as char
    } else {
        ((87 + n) as u8) as char
    }
}

/// The two hex digits of a byte, high nibble first.
pub open spec fn hex_byte(b: u8) -> Seq<char> {
    seq![hex_digit(b as int / 16), hex_digit(b as int % 16)]
}

/// `n` in lowercase hex, padded with zeros on the left to at least `width`
/// digits.
pub open spec fn hex_padded(n: nat, width: nat) -> Seq<char>
    decreases n, width,
{
    if n < 16 && width <= 1 {
        seq![hex_digit(n as int)]
    } else {
        let rest = if width > 0 {
            (width - 1) as nat
        } else {
            0
        };
        hex_padded(n / 16, rest).push(hex_digit(n as int % 16))
    }
}

/// Whether a byte is shown as itself in the text column of a dump: the
/// printable ASCII range, space to tilde.
pub open spec fn is_printable(b: u8) -> bool {
    0x20 <= b <= 0x7e
}

/// What the text column of a dump shows for a byte: the byte itself where it
/// is printable, a dot otherwise.
pub open spec fn ascii_cell(b: u8) -> char {
    if is_printable(b) {
        b as char
    } else {
        '.'
    }
}

/// The text column for the bytes of one line.
pub open spec fn ascii_column(chunk: Seq<u8>) -> Seq<char> {
    Seq::new(chunk.len(), |i: int| ascii_cell(chunk[i]))
}

/// A buffer as one run of hex digits, two per byte, no separators.
pub open spec fn hexstr_text(data: Seq<u8>) -> Seq<char> {
    Seq::new(
        2 * data.len(),
        |i: int|
            if i % 2 == 0 {
                hex_digit(data[i / 2] as int / 16)
            } else {
                hex_digit(data[i / 2] as int % 16)
            },
    )
}

/// How many dump lines `len` bytes take, sixteen bytes to a line.
pub open spec fn row_count(len: nat) -> nat {
    (len + 15) / 16
}

/// The bytes shown on line `row` of a dump.
pub open spec fn row_bytes(data: Seq<u8>, row: int) -> Seq<u8> {
    let end = if 16 * row + 16 <= data.len() {
        16 * row + 16
    } else {
        data.len() as int
    };
    data.subrange(16 * row, end)
}

/// The hex column for byte `j` of a line: two digits, or two blanks where the
/// line has no such byte.
pub open spec fn dump_cell(chunk: Seq<u8>, j: int) -> Seq<char> {
    if j < chunk.len() {
        hex_byte(chunk[j])
    } else {
        seq![' ', ' ']
    }
}

/// What follows hex column `j`: in an xxd dump a blank after every second
/// byte, in a hexdump a blank after every byte and one more after the eighth.
/// (Here and below, `Xxd` stands for the xxd layout and every other format
/// for the hexdump layout; only `Hexdump` and `Xxd` are ever rendered so.)
pub open spec fn dump_gap(format: BytesFormat, j: int) -> Seq<char> {
    match format {
        BytesFormat::Xxd => if j % 2 == 1 {
            seq![' ']
        } else {
            Seq::empty()
        },
        _ => if j == 7 {
            seq![' ', ' ']
        } else {
            seq![' ']
        },
    }
}

/// The first `upto` hex columns of a line, each with its gap.
pub open spec fn dump_cells(format: BytesFormat, chunk: Seq<u8>, upto: nat) -> Seq<char>
    decreases upto,
{
    if upto == 0 {
        Seq::empty()
    } else {
        let j = upto - 1;
        dump_cells(format, chunk, j as nat) + dump_cell(chunk, j) + dump_gap(format, j)
    }
}

/// One line of a dump, for the bytes `chunk` that start at `offset`.
///
/// Hexdump: `00000010  68 69 0a ...  |hi.|`. Xxd: `00000010: 6869 0a...  hi.`.
pub open spec fn dump_line(format: BytesFormat, offset: nat, chunk: Seq<u8>) -> Seq<char> {
    match format {
        BytesFormat::Xxd => hex_padded(offset, 8) + seq![':', ' '] + dump_cells(format, chunk, 16)
            + seq![' '] + ascii_column(chunk),
        _ => hex_padded(offset, 8) + seq![' ', ' '] + dump_cells(format, chunk, 16) + seq![
            ' ',
            '|',
        ] + ascii_column(chunk) + seq!['|'],
    }
}

/// The lines of a dump, one for every sixteen bytes begun.
pub open spec fn dump_lines(format: BytesFormat, data: Seq<u8>) -> Seq<Seq<char>> {
    Seq::new(
        row_count(data.len()),
        |row: int| dump_line(format, (16 * row) as nat, row_bytes(data, row)),
    )
}

/// Lines joined by line feeds, with none after the last.
pub open spec fn join_lines(lines: Seq<Seq<char>>) -> Seq<char>
    decreases lines.len(),
{
    if lines.len() == 0 {
        Seq::empty()
    } else if lines.len() == 1 {
        lines[0]
    } else {
        join_lines(lines.drop_last()) + seq!['\n'] + lines.last()
    }
}

/// A whole dump as text.
pub open spec fn dump_text(format: BytesFormat, data: Seq<u8>) -> Seq<char> {
    join_lines(dump_lines(format, data))
}

/// What a buffer is rendered as under `format`: nothing in the standard
/// format, which leaves the bytes to the output format.
pub open spec fn rendered(data: Seq<u8>, format: BytesFormat) -> Option<Seq<char>> {
    match format {
        BytesFormat::Standard => None,
        BytesFormat::HexStr => Some(hexstr_text(data)),
        BytesFormat::Hexdump => Some(dump_text(format, data)),
        BytesFormat::Xxd => Some(dump_text(format, data)),
    }
}

fn hex_digit_of(n: u8) -> (c: char)
    requires
        n < 16,
    ensures
        c == hex_digit(n as int),
{
    if n < 10 {
        (48 + n) as char
    } else {
        (87 + n) as char
    }
}

fn push_hex_byte(out: &mut String, b: u8)
    ensures
        final(out)@ == old(out)@ + hex_byte(b),
{
    push_char(out, hex_digit_of(b / 16));
    push_char(out, hex_digit_of(b % 16));
    assert(out@ =~= old(out)@ + hex_byte(b));
}

fn push_hex_padded(out: &mut String, n: usize, width: usize)
    ensures
        final(out)@ == old(out)@ + hex_padded(n as nat, width as nat),
    decreases n, width,
{
    if n < 16 && width <= 1 {
        push_char(out, hex_digit_of(n as u8));
        assert(out@ =~= old(out)@ + hex_padded(n as nat, width as nat));
    } else {
        let rest: usize = if width == 0 {
            0
        } else {
            width - 1
        };
        push_hex_padded(out, n / 16, rest);
        push_char(out, hex_digit_of((n % 16) as u8));
        assert(out@ =~= old(out)@ + hex_padded(n as nat, width as nat));
    }
}

fn ascii_cell_of(b: u8) -> (c: char)
    ensures
        c == ascii_cell(b),
{
    if 0x20 <= b && b <= 0x7e {
        b as char
    } else {
        '.'
    }
}

/// Renders a buffer as one run of lowercase hex digits.
pub fn hexstr(data: &[u8]) -> (r: String)
    ensures
        r@ == hexstr_text(data@),
{
    let mut out = String::new();
    let mut i: usize = 0;
    while i < data.len()
        invariant
            i <= data.len(),
            out@ == hexstr_text(data@.subrange(0, i as int)),
        decreases data.len() - i,
    {
        push_hex_byte(&mut out, data[i]);
        i += 1;
        assert(out@ =~= hexstr_text(data@.subrange(0, i as int)));
    }
    assert(data@.subrange(0, i as int) =~= data@);
    out
}

fn push_dump_cells(out: &mut String, format: BytesFormat, chunk: &[u8])
    ensures
        final(out)@ == old(out)@ + dump_cells(format, chunk@, 16),
{
    let mut j: usize = 0;
    while j < 16
        invariant
            j <= 16,
            out@ == old(out)@ + dump_cells(format, chunk@, j as nat),
        decreases 16 - j,
    {
        let ghost before = out@;
        if j < chunk.len() {
            push_hex_byte(out, chunk[j]);
        } else {
            push_char(out, ' ');
            push_char(out, ' ');
        }
        assert(out@ =~= before + dump_cell(chunk@, j as int));
        match format {
            BytesFormat::Xxd => {
                if j % 2 == 1 {
                    push_char(out, ' ');
                }
            },
            _ => {
                push_char(out, ' ');
                if j == 7 {
                    push_char(out, ' ');
                }
            },
        }
        assert(out@ =~= before + dump_cell(chunk@, j as int) + dump_gap(format, j as int));
        j += 1;
        assert(out@ =~= old(out)@ + dump_cells(format, chunk@, j as nat));
    }
}

fn push_ascii_column(out: &mut String, chunk: &[u8])
    ensures
        final(out)@ == old(out)@ + ascii_column(chunk@),
{
    let mut j: usize = 0;
    while j < chunk.len()
        invariant
            j <= chunk.len(),
            out@ == old(out)@ + ascii_column(chunk@.subrange(0, j as int)),
        decreases chunk.len() - j,
    {
        push_char(out, ascii_cell_of(chunk[j]));
        j += 1;
        assert(out@ =~= old(out)@ + ascii_column(chunk@.subrange(0, j as int)));
    }
    assert(chunk@.subrange(0, j as int) =~= chunk@);
}

fn push_dump_line(out: &mut String, format: BytesFormat, offset: usize, chunk: &[u8])
    ensures
        final(out)@ == old(out)@ + dump_line(format, offset as nat, chunk@),
{
    push_hex_padded(out, offset, 8);
    match format {
        BytesFormat::Xxd => {
            push_char(out, ':');
            push_char(out, ' ');
            push_dump_cells(out, format, chunk);
            push_char(out, ' ');
            push_ascii_column(out, chunk);
            assert(out@ =~= old(out)@ + dump_line(format, offset as nat, chunk@));
        },
        _ => {
            push_char(out, ' ');
            push_char(out, ' ');
            push_dump_cells(out, format, chunk);
            push_char(out, ' ');
            push_char(out, '|');
            push_ascii_column(out, chunk);
            push_char(out, '|');
            assert(out@ =~= old(out)@ + dump_line(format, offset as nat, chunk@));
        },
    }
}

/// Renders a buffer as a dump in the layout of `format`, one line for every
/// sixteen bytes begun. An empty buffer gives empty text.
fn dump(data: &[u8], format: BytesFormat) -> (r: String)
    ensures
        r@ == dump_text(format, data@),
{
    let mut out = String::new();
    let rows: usize = if data.len() % 16 == 0 {
        data.len() / 16
    } else {
        data.len() / 16 + 1
    };
    let ghost lines = dump_lines(format, data@);
    assert(rows == lines.len());
    assert(join_lines(lines.take(0)) =~= Seq::<char>::empty());
    let mut row: usize = 0;
    while row < rows
        invariant
            row <= rows,
            rows == lines.len(),
            rows == row_count(data@.len()),
            data@.len() <= usize::MAX,
            lines == dump_lines(format, data@),
            out@ == join_lines(lines.take(row as int)),
        decreases rows - row,
    {
        assert(row * 16 < data@.len());
        let start: usize = row * 16;
        let end: usize = if data.len() - start >= 16 {
            start + 16
        } else {
            data.len()
        };
        if row > 0 {
            push_char(&mut out, '\n');
        }
        let chunk = slice_subrange(data, start, end);
        assert(chunk@ == row_bytes(data@, row as int));
        push_dump_line(&mut out, format, start, chunk);
        proof {
            let grown = lines.take(row + 1);
            assert(grown.drop_last() =~= lines.take(row as int));
            assert(grown.last() == lines[row as int]);
            assert(lines[row as int] == dump_line(format, start as nat, chunk@));
            assert(out@ =~= join_lines(grown));
        }
        row += 1;
    }
    assert(lines.take(row as int) =~= lines);
    out
}

/// Renders a buffer as `hexdump -vC` prints it.
pub fn hexdump(data: &[u8]) -> (r: String)
    ensures
        r@ == dump_text(BytesFormat::Hexdump, data@),
{
    dump(data, BytesFormat::Hexdump)
}

/// Renders a buffer as `xxd` prints it.
pub fn xxd(data: &[u8]) -> (r: String)
    ensures
        r@ == dump_text(BytesFormat::Xxd, data@),
{
    dump(data, BytesFormat::Xxd)
}

/// Renders a buffer as text in the given format. The standard format has no
/// text form: it gives `None`, and the bytes stay bytes.
pub fn to_string(data: &[u8], format: BytesFormat) -> (r: Option<String>)
    ensures
        r is Some == rendered(data@, format) is Some,
        r matches Some(text) ==> rendered(data@, format) == Some(text@),
{
    match format {
        BytesFormat::Standard => None,
        BytesFormat::HexStr => Some(hexstr(data)),
        BytesFormat::Hexdump => Some(hexdump(data)),
        BytesFormat::Xxd => Some(xxd(data)),
    }
}

/// How many line feeds `text` holds.
pub open spec fn line_feeds(text: Seq<char>) -> nat
    decreases text.len(),
{
    if text.len() == 0 {
        0
    } else {
        line_feeds(text.drop_last()) + if text.last() == '\n' {
            1nat
        } else {
            0nat
        }
    }
}

/// How many lines `text` has: none where it is empty, else one more than it
/// has line feeds.
pub open spec fn line_count(text: Seq<char>) -> nat {
    if text.len() == 0 {
        0
    } else {
        line_feeds(text) + 1
    }
}

/// Text without a line feed in it.
pub open spec fn is_one_line(text: Seq<char>) -> bool {
    forall|i: int| 0 <= i < text.len() ==> text[i] != '\n'
}

proof fn lemma_line_feeds_concat(a: Seq<char>, b: Seq<char>)
    ensures
        line_feeds(a + b) == line_feeds(a) + line_feeds(b),
    decreases b.len(),
{
    if b.len() == 0 {
        assert(a + b =~= a);
    } else {
        assert((a + b).drop_last() =~= a + b.drop_last());
        assert((a + b).last() == b.last());
        lemma_line_feeds_concat(a, b.drop_last());
    }
}

proof fn lemma_one_line_has_no_feed(text: Seq<char>)
    requires
        is_one_line(text),
    ensures
        line_feeds(text) == 0,
    decreases text.len(),
{
    if text.len() > 0 {
        lemma_one_line_has_no_feed(text.drop_last());
    }
}

proof fn lemma_hex_padded_one_line(n: nat, width: nat)
    ensures
        is_one_line(hex_padded(n, width)),
        hex_padded(n, width).len() >= 1,
    decreases n, width,
{
    if n < 16 && width <= 1 {
    } else {
        let rest = if width > 0 {
            (width - 1) as nat
        } else {
            0
        };
        lemma_hex_padded_one_line(n / 16, rest);
    }
}

proof fn lemma_dump_cells_one_line(format: BytesFormat, chunk: Seq<u8>, upto: nat)
    ensures
        is_one_line(dump_cells(format, chunk, upto)),
    decreases upto,
{
    if upto > 0 {
        lemma_dump_cells_one_line(format, chunk, (upto - 1) as nat);
    }
}

proof fn lemma_dump_line_one_line(format: BytesFormat, offset: nat, chunk: Seq<u8>)
    ensures
        is_one_line(dump_line(format, offset, chunk)),
        dump_line(format, offset, chunk).len() >= 1,
{
    lemma_hex_padded_one_line(offset, 8);
    lemma_dump_cells_one_line(format, chunk, 16);
}

proof fn lemma_join_line_count(lines: Seq<Seq<char>>)
    requires
        forall|i: int| 0 <= i < lines.len() ==> is_one_line(#[trigger] lines[i]) && lines[i].len() >= 1,
    ensures
        line_count(join_lines(lines)) == lines.len(),
        lines.len() > 0 ==> join_lines(lines).len() > 0,
    decreases lines.len(),
{
    if lines.len() == 0 {
    } else if lines.len() == 1 {
        lemma_one_line_has_no_feed(lines[0]);
    } else {
        let head = lines.drop_last();
        assert forall|i: int| 0 <= i < head.len() implies is_one_line(#[trigger] head[i])
            && head[i].len() >= 1 by {
            assert(head[i] == lines[i]);
        }
        lemma_join_line_count(head);
        let feed = seq!['\n'];
        assert(line_feeds(feed) == 1) by {
            assert(feed.drop_last() =~= Seq::<char>::empty());
            reveal_with_fuel(line_feeds, 2);
        }
        lemma_one_line_has_no_feed(lines.last());
        lemma_line_feeds_concat(join_lines(head), feed);
        lemma_line_feeds_concat(join_lines(head) + feed, lines.last());
    }
}

/// A dump has exactly one line for every sixteen bytes begun: as many lines
/// as `len / 16` rounded up. This holds in both layouts, of the lines and of
/// the text they are joined to, whatever the length of the buffer.
pub proof fn lemma_dump_line_count(format: BytesFormat, data: Seq<u8>)
    ensures
        dump_lines(format, data).len() == (data.len() + 15) / 16,
        line_count(dump_text(format, data)) == (data.len() + 15) / 16,
{
    let lines = dump_lines(format, data);
    assert forall|i: int| 0 <= i < lines.len() implies is_one_line(#[trigger] lines[i])
        && lines[i].len() >= 1 by {
        lemma_dump_line_one_line(format, (16 * i) as nat, row_bytes(data, i));
    }
    lemma_join_line_count(lines);
}

/// Where the text column of a dump line shows byte `col` of the line: the
/// column ends the line, before the closing bar in a hexdump.
pub open spec fn text_column_at(format: BytesFormat, line: Seq<char>, chunk: Seq<u8>, col: int) -> int {
    match format {
        BytesFormat::Xxd => line.len() - chunk.len() + col,
        _ => line.len() - 1 - chunk.len() + col,
    }
}

/// The text column of a dump shows every byte of the buffer in its place, in
/// both layouts: the byte itself where it is printable ASCII, a dot where it
/// is not.
pub proof fn lemma_dump_text_column(format: BytesFormat, data: Seq<u8>, i: int)
    requires
        0 <= i < data.len(),
    ensures
        i / 16 < dump_lines(format, data).len(),
        i % 16 < row_bytes(data, i / 16).len(),
        ({
            let line = dump_lines(format, data)[i / 16];
            let at = text_column_at(format, line, row_bytes(data, i / 16), i % 16);
            0 <= at < line.len() && line[at] == ascii_cell(data[i])
        }),
        is_printable(data[i]) ==> ascii_cell(data[i]) == data[i] as char,
        !is_printable(data[i]) ==> ascii_cell(data[i]) == '.',
{
    let row = i / 16;
    let chunk = row_bytes(data, row);
    assert(chunk[i % 16] == data[i]);
}

} // verus!
