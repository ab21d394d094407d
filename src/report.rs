//! Image memory accounting: the size of each loaded image in decimal
//! megabytes, rounded to three places, and their total, as log lines.
use vstd::prelude::*;

verus! {

/// Why no report could be made.
#[derive(Debug, PartialEq, Eq)]
pub enum ReportError {
    /// The entry of this name is an image whose buffer could not be found.
    MissingBuffer(String),
}

/// Fonts are not images: their entries are left out of the report.
pub open spec fn is_font_name(name: Seq<char>) -> bool {
    name == "heading_font"@ || name == "body_font"@
}

/// The character for a decimal digit.
pub open spec fn digit_char(d: nat) -> char {
    "0123456789"@[d as int]
}

/// Decimal digits of `n`, without leading zeros.
pub open spec fn decimal(n: nat) -> Seq<char>
    decreases n,
{
    if n < 10 {
        seq![digit_char(n)]
    } else {
        decimal(n / 10) + seq![digit_char(n % 10)]
    }
}

/// A size in thousandths of a decimal megabyte, rounded half up.
pub open spec fn millis(bytes: nat) -> nat {
    (bytes + 500) / 1000
}

/// `bytes` as decimal megabytes with three places: `2.500` for 2,500,000.
pub open spec fn megabytes_text(bytes: nat) -> Seq<char> {
    let m = millis(bytes);
    let f = m % 1000;
    decimal(m / 1000) + "."@ + seq![digit_char(f / 100), digit_char((f / 10) % 10), digit_char(f % 10)]
}

/// The line reporting one image: `<name>: <size>MB`.
pub open spec fn size_line(name: Seq<char>, bytes: nat) -> Seq<char> {
    name + ": "@ + megabytes_text(bytes) + "MB"@
}

/// The closing line: `Total: <size>MB`.
pub open spec fn total_line(bytes: nat) -> Seq<char> {
    "Total: "@ + megabytes_text(bytes) + "MB"@
}

/// The entry is an image whose buffer is missing.
pub open spec fn is_missing(e: (String, Option<usize>)) -> bool {
    !is_font_name(e.0@) && e.1 is None
}

/// The size the entry counts for: its buffer length, or nothing for a font.
pub open spec fn counted_bytes(e: (String, Option<usize>)) -> nat {
    if is_font_name(e.0@) {
        0
    } else {
        match e.1 {
            Some(b) => b as nat,
            None => 0,
        }
    }
}

/// One line per image entry, in table order.
pub open spec fn size_lines(s: Seq<(String, Option<usize>)>) -> Seq<Seq<char>>
    decreases s.len(),
{
    if s.len() == 0 {
        Seq::empty()
    } else {
        let e = s.last();
        let p = size_lines(s.drop_last());
        if is_font_name(e.0@) {
            p
        } else {
            p.push(size_line(e.0@, counted_bytes(e)))
        }
    }
}

/// Bytes of all image entries.
pub open spec fn total_bytes(s: Seq<(String, Option<usize>)>) -> nat
    decreases s.len(),
{
    if s.len() == 0 {
        0
    } else {
        total_bytes(s.drop_last()) + counted_bytes(s.last())
    }
}

/// The whole report: a line per image, then the total.
pub open spec fn report_lines(s: Seq<(String, Option<usize>)>) -> Seq<Seq<char>> {
    size_lines(s).push(total_line(total_bytes(s)))
}

/// `i` is the first image entry of `s` whose buffer is missing.
pub open spec fn first_missing(s: Seq<(String, Option<usize>)>, i: int) -> bool {
    &&& 0 <= i < s.len()
    &&& is_missing(s[i])
    &&& forall|j: int| 0 <= j < i ==> !is_missing(#[trigger] s[j])
}

fn digit_str(d: u128) -> (r: &'static str)
    requires
        d < 10,
    ensures
        r@ == seq![digit_char(d as nat)],
{
    proof {
        reveal_strlit("0123456789");
        reveal_strlit("0");
        reveal_strlit("1");
        reveal_strlit("2");
        reveal_strlit("3");
        reveal_strlit("4");
        reveal_strlit("5");
        reveal_strlit("6");
        reveal_strlit("7");
        reveal_strlit("8");
        reveal_strlit("9");
    }
    let r = if d == 0 {
        "0"
    } else if d == 1 {
        "1"
    } else if d == 2 {
        "2"
    } else if d == 3 {
        "3"
    } else if d == 4 {
        "4"
    } else if d == 5 {
        "5"
    } else if d == 6 {
        "6"
    } else if d == 7 {
        "7"
    } else if d == 8 {
        "8"
    } else {
        "9"
    };
    assert(r@ =~= seq![digit_char(d as nat)]);
    r
}

/// Appends the decimal digits of `n` to `s`.
fn push_decimal(s: &mut String, n: u128)
    ensures
        final(s)@ == old(s)@ + decimal(n as nat),
    decreases n,
{
    if n >= 10 {
        push_decimal(s, n / 10);
    }
    s.append(digit_str(n % 10));
    assert(final(s)@ =~= old(s)@ + decimal(n as nat));
}

/// Appends `bytes` as decimal megabytes with three places to `s`.
fn push_megabytes(s: &mut String, bytes: u128)
    requires
        bytes <= 0xffff_ffff_ffff_ffff_0000_0000_0000_0000u128,
    ensures
        final(s)@ == old(s)@ + megabytes_text(bytes as nat),
{
    let m = (bytes + 500) / 1000;
    let f = m % 1000;
    push_decimal(s, m / 1000);
    s.append(".");
    s.append(digit_str(f / 100));
    s.append(digit_str((f / 10) % 10));
    s.append(digit_str(f % 10));
    assert(final(s)@ =~= old(s)@ + megabytes_text(bytes as nat));
}

fn is_font(name: &String) -> (r: bool)
    ensures
        r == is_font_name(name@),
{
    *name == String::from_str("heading_font") || *name == String::from_str("body_font")
}

/// Views of a list of lines.
pub open spec fn lines_view(v: Seq<String>) -> Seq<Seq<char>> {
    v.map_values(|l: String| l@)
}

fn size_line_of(name: &String, bytes: u128) -> (r: String)
    requires
        bytes <= 0xffff_ffff_ffff_ffff_0000_0000_0000_0000u128,
    ensures
        r@ == size_line(name@, bytes as nat),
{
    let mut line = name.clone();
    line.append(": ");
    push_megabytes(&mut line, bytes);
    line.append("MB");
    line
}

fn total_line_of(bytes: u128) -> (r: String)
    requires
        bytes <= 0xffff_ffff_ffff_ffff_0000_0000_0000_0000u128,
    ensures
        r@ == total_line(bytes as nat),
{
    let mut line = String::from_str("Total: ");
    push_megabytes(&mut line, bytes);
    line.append("MB");
    line
}

/// Reports the memory that the images of a handle table take. Each entry
/// gives a logical name and the byte length of its decoded buffer, or `None`
/// where no buffer backs it. Font entries are skipped; each other entry gives
/// the line `<name>: <size>MB`, in table order, and the report closes with
/// `Total: <size>MB` over all of them. Sizes are decimal megabytes rounded to
/// three places. An image entry without a buffer makes the whole report fail,
/// naming the first such entry.
pub fn memory_report(sizes: &Vec<(String, Option<usize>)>) -> (r: Result<Vec<String>, ReportError>)
    ensures
        r is Ok <==> forall|i: int| 0 <= i < sizes@.len() ==> !is_missing(#[trigger] sizes@[i]),
        match r {
            Ok(lines) => lines_view(lines@) == report_lines(sizes@),
            Err(ReportError::MissingBuffer(name)) => exists|i: int|
                first_missing(sizes@, i) && name@ == (#[trigger] sizes@[i]).0@,
        },
{
    let mut lines: Vec<String> = Vec::new();
    let mut total: u128 = 0;
    let mut i: usize = 0;
    while i < sizes.len()
        invariant
            i <= sizes@.len(),
            lines_view(lines@) == size_lines(sizes@.subrange(0, i as int)),
            total as nat == total_bytes(sizes@.subrange(0, i as int)),
            total <= i * 0x1_0000_0000_0000_0000,
            forall|j: int| 0 <= j < i ==> !is_missing(#[trigger] sizes@[j]),
        decreases sizes@.len() - i,
    {
        let ghost pre = sizes@.subrange(0, i as int);
        let ghost next = sizes@.subrange(0, i as int + 1);
        assert(next.drop_last() =~= pre);
        let name = &sizes[i].0;
        if !is_font(name) {
            match sizes[i].1 {
                None => {
                    assert(first_missing(sizes@, i as int));
                    return Err(ReportError::MissingBuffer(name.clone()));
                },
                Some(b) => {
                    proof {
                        assert((i + 1) * 0x1_0000_0000_0000_0000 == i * 0x1_0000_0000_0000_0000
                            + 0x1_0000_0000_0000_0000) by (nonlinear_arith);
                    }
                    let line = size_line_of(name, b as u128);
                    lines.push(line);
                    total = total + b as u128;
                    assert(lines_view(lines@) =~= size_lines(next));
                },
            }
        } else {
            assert(lines_view(lines@) =~= size_lines(next));
        }
        i = i + 1;
    }
    assert(sizes@.subrange(0, i as int) =~= sizes@);
    let closing = total_line_of(total);
    lines.push(closing);
    assert(lines_view(lines@) =~= report_lines(sizes@));
    Ok(lines)
}

/// Lines made for a prefix of a table stay, in place, in the lines made for
/// a longer prefix.
pub proof fn lemma_size_lines_prefix(s: Seq<(String, Option<usize>)>, n: int, m: int)
    requires
        0 <= n <= m <= s.len(),
    ensures
        size_lines(s.subrange(0, n)).len() <= size_lines(s.subrange(0, m)).len(),
        forall|k: int|
            0 <= k < size_lines(s.subrange(0, n)).len() ==> #[trigger] size_lines(s.subrange(0, m))[k]
                == size_lines(s.subrange(0, n))[k],
    decreases m - n,
{
    if n < m {
        lemma_size_lines_prefix(s, n, m - 1);
        assert(s.subrange(0, m).drop_last() =~= s.subrange(0, m - 1));
    }
}

/// While a table holds no font, its k-th entry gives its k-th line.
pub proof fn lemma_size_lines_without_fonts(s: Seq<(String, Option<usize>)>, n: int)
    requires
        0 <= n <= s.len(),
        forall|k: int| 0 <= k < n ==> !is_font_name((#[trigger] s[k]).0@),
    ensures
        size_lines(s.subrange(0, n)).len() == n,
        forall|k: int|
            0 <= k < n ==> #[trigger] size_lines(s.subrange(0, n))[k] == size_line(
                s[k].0@,
                counted_bytes(s[k]),
            ),
    decreases n,
{
    if n > 0 {
        lemma_size_lines_without_fonts(s, n - 1);
        assert(s.subrange(0, n).drop_last() =~= s.subrange(0, n - 1));
    }
}

} // verus!
