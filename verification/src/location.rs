//! Source files, source locations and file inclusions, and the text by
//! which a source location describes itself.

use vstd::prelude::*;

verus! {

/// A source file of a translation unit, known by the handle libclang gave it.
#[derive(Clone, Copy, Debug, PartialEq, Eq, Structural)]
pub struct CXFile {
    pub handle: usize,
}

/// A location in the source, as libclang packs it: two handles and a number.
#[derive(Clone, Copy, Debug, PartialEq, Eq, Structural)]
pub struct CXSourceLocation {
    pub ptr_data0: usize,
    pub ptr_data1: usize,
    pub int_data: u32,
}

/// Where a source location lies once macro expansions are accounted for.
#[derive(Clone, Copy, Debug, PartialEq, Eq, Structural)]
pub struct Expansion {
    pub file: CXFile,
    pub line: usize,
    pub column: usize,
    pub offset: usize,
}

/// A file inclusion as libclang reports it.
#[derive(Clone, Copy, Debug, PartialEq, Eq, Structural)]
pub struct RawFileInclusion {
    pub included_file: CXFile,
    pub location: CXSourceLocation,
    pub depth: usize,
}

/// A file inclusion as this library hands it out: the included file, the
/// location of the inclusion directive, and the depth of the inclusion.
#[derive(Clone, Copy, Debug, PartialEq, Eq, Structural)]
pub struct FileInclusion {
    pub included_file: CXFile,
    pub location: CXSourceLocation,
    pub depth: usize,
}

/// The decimal digit `d` as a character.
pub open spec fn digit_char(d: nat) -> char {
    (d + 48) as char
}

/// The decimal notation of `n`, without leading zeros.
pub open spec fn decimal(n: nat) -> Seq<char>
    decreases n,
{
    if n < 10 {
        seq![digit_char(n)]
    } else {
        decimal(n / 10).push(digit_char(n % 10))
    }
}

/// The text that describes a source location in file `filename` at `line`
/// and `column`.
pub open spec fn location_text(filename: Seq<char>, line: nat, column: nat) -> Seq<char> {
    "<source_location file "@ + filename + ", line "@ + decimal(line) + ", column "@ + decimal(
        column,
    ) + ">"@
}

/// The file inclusion that `fu` describes.
pub open spec fn file_inclusion_of(fu: RawFileInclusion) -> FileInclusion {
    FileInclusion { included_file: fu.included_file, location: fu.location, depth: fu.depth }
}

/// The number that a run of decimal digit characters spells, each
/// character standing for its distance from '0'.
pub open spec fn digits_value(s: Seq<char>) -> int
    decreases s.len(),
{
    if s.len() == 0 {
        0
    } else {
        digits_value(s.drop_last()) * 10 + (s.last() as int - '0' as int)
    }
}

proof fn lemma_digit_char_value(d: nat)
    requires
        d < 10,
    ensures
        digit_char(d) as int == d + 48,
        '0' <= digit_char(d) <= '9',
{
}

/// The decimal notation of `n` is a non-empty run of the characters '0'
/// to '9', without a leading '0' unless it is "0" itself, and read back as
/// base-10 digits it gives `n`.
pub proof fn lemma_decimal_reads_back(n: nat)
    ensures
        decimal(n).len() >= 1,
        n >= 10 ==> decimal(n).len() >= 2,
        forall|i: int| 0 <= i < decimal(n).len() ==> '0' <= #[trigger] decimal(n)[i] <= '9',
        decimal(n).len() > 1 ==> decimal(n)[0] != '0',
        digits_value(decimal(n)) == n,
    decreases n,
{
    if n < 10 {
        lemma_digit_char_value(n);
        assert(decimal(n).drop_last() =~= Seq::<char>::empty());
        assert(decimal(n).last() == digit_char(n));
        assert('0' as int == 48);
        assert(digits_value(decimal(n)) == digits_value(decimal(n).drop_last()) * 10 + (
        decimal(n).last() as int - '0' as int));
    } else {
        lemma_decimal_reads_back(n / 10);
        lemma_digit_char_value(n % 10);
        let d = decimal(n);
        assert(d.drop_last() =~= decimal(n / 10));
        assert(d.last() == digit_char(n % 10));
        assert forall|i: int| 0 <= i < d.len() implies '0' <= #[trigger] d[i] <= '9' by {
            if i < d.len() - 1 {
                assert(d[i] == decimal(n / 10)[i]);
            }
        }
        let m = n / 10;
        if m < 10 {
            lemma_digit_char_value(m);
            assert(decimal(m) =~= seq![digit_char(m)]);
            assert(decimal(m)[0] != '0');
        }
        assert('0' as int == 48);
        assert(digits_value(d) == digits_value(d.drop_last()) * 10 + (d.last() as int - '0' as int));
        assert(d[0] == decimal(n / 10)[0]);
    }
}

/// The text of a location is laid out as "<source_location file ", the
/// file name, ", line ", the digits of the line, ", column ", the digits of
/// the column and ">": the file name, line and column read back from their
/// places in the text.
pub proof fn lemma_location_text_layout(filename: Seq<char>, line: nat, column: nat)
    ensures
        ({
            let t = location_text(filename, line, column);
            let a: int = 22 + filename.len() as int;
            let b: int = a + 7 + decimal(line).len();
            let e: int = b + 9 + decimal(column).len();
            &&& t.len() == e + 1
            &&& t.subrange(0, 22) == "<source_location file "@
            &&& t.subrange(22, a) == filename
            &&& t.subrange(a, a + 7) == ", line "@
            &&& digits_value(t.subrange(a + 7, b)) == line
            &&& t.subrange(b, b + 9) == ", column "@
            &&& digits_value(t.subrange(b + 9, e)) == column
            &&& t[e] == '>'
        }),
{
    reveal_strlit("<source_location file ");
    reveal_strlit(", line ");
    reveal_strlit(", column ");
    reveal_strlit(">");
    lemma_decimal_reads_back(line);
    lemma_decimal_reads_back(column);
    let t = location_text(filename, line, column);
    let a: int = 22 + filename.len() as int;
    let b: int = a + 7 + decimal(line).len();
    let e: int = b + 9 + decimal(column).len();
    assert(t.subrange(0, 22) =~= "<source_location file "@);
    assert(t.subrange(22, a) =~= filename);
    assert(t.subrange(a, a + 7) =~= ", line "@);
    assert(t.subrange(a + 7, b) =~= decimal(line));
    assert(t.subrange(b, b + 9) =~= ", column "@);
    assert(t.subrange(b + 9, e) =~= decimal(column));
}

/// Each file inclusion keeps what libclang reported: the included file,
/// the location of the directive and the depth, whatever their values.
pub proof fn lemma_file_inclusion_keeps_report(fu: RawFileInclusion)
    ensures
        file_inclusion_of(fu).included_file == fu.included_file,
        file_inclusion_of(fu).included_file.handle == fu.included_file.handle,
        file_inclusion_of(fu).location == fu.location,
        file_inclusion_of(fu).depth == fu.depth,
{
}

/// Appends `c` to `s` with std's `String::push`, which the standard library
/// documents as appending the given char to the end of the string.
#[verifier::external_body]
fn push_char(s: &mut String, c: char)
    ensures
        final(s)@ == old(s)@.push(c),
{
    s.push(c);
}

fn digit(d: usize) -> (c: char)
    requires
        d < 10,
    ensures
        c == digit_char(d as nat),
{
    match d {
        0 => '0',
        1 => '1',
        2 => '2',
        3 => '3',
        4 => '4',
        5 => '5',
        6 => '6',
        7 => '7',
        8 => '8',
        _ => '9',
    }
}

/// Appends the decimal notation of `n` to `s`.
fn push_decimal(s: &mut String, n: usize)
    ensures
        final(s)@ == old(s)@ + decimal(n as nat),
    decreases n,
{
    if n >= 10 {
        push_decimal(s, n / 10);
        let ghost mid = s@;
        push_char(s, digit(n % 10));
        assert(s@ =~= old(s)@ + decimal(n as nat)) by {
            assert(mid.push(digit_char((n % 10) as nat)) =~= old(s)@ + decimal((n / 10) as nat).push(
                digit_char((n % 10) as nat),
            ));
        }
    } else {
        push_char(s, digit(n));
        assert(s@ =~= old(s)@ + decimal(n as nat));
    }
}

impl Expansion {
    /// The expansion of a location to `line`, `column` and byte `offset` of `file`.
    pub fn new(file: CXFile, line: u32, column: u32, offset: u32) -> (e: Expansion)
        ensures
            e.file == file,
            e.line == line,
            e.column == column,
            e.offset == offset,
    {
        Expansion { file, line: line as usize, column: column as usize, offset: offset as usize }
    }

    /// The text that describes this location, given the name of its file:
    /// `<source_location file NAME, line LINE, column COLUMN>`.
    pub fn to_str(&self, filename: &str) -> (r: String)
        ensures
            r@ == location_text(filename@, self.line as nat, self.column as nat),
    {
        let mut s = String::from_str("<source_location file ");
        s.append(filename);
        s.append(", line ");
        push_decimal(&mut s, self.line);
        s.append(", column ");
        push_decimal(&mut s, self.column);
        s.append(">");
        s
    }
}

/// The file inclusion that libclang's record `fu` describes.
pub fn new_file_inclusion(fu: RawFileInclusion) -> (r: FileInclusion)
    ensures
        r == file_inclusion_of(fu),
        r.included_file == fu.included_file,
        r.location == fu.location,
        r.depth == fu.depth,
{
    FileInclusion { included_file: fu.included_file, location: fu.location, depth: fu.depth }
}

/// The file inclusions that libclang's records describe, in the same order.
pub fn file_inclusions(raw: &Vec<RawFileInclusion>) -> (r: Vec<FileInclusion>)
    ensures
        r@.len() == raw@.len(),
        forall|i: int| 0 <= i < raw@.len() ==> #[trigger] r@[i] == file_inclusion_of(raw@[i]),
        forall|i: int|
            0 <= i < raw@.len() ==> {
                &&& (#[trigger] r@[i]).included_file == raw@[i].included_file
                &&& r@[i].location == raw@[i].location
                &&& r@[i].depth == raw@[i].depth
            },
{
    let mut r: Vec<FileInclusion> = Vec::new();
    let n = raw.len();
    for i in 0..n
        invariant
            n == raw@.len(),
            r@.len() == i,
            forall|j: int| 0 <= j < i ==> #[trigger] r@[j] == file_inclusion_of(raw@[j]),
    {
        r.push(new_file_inclusion(raw[i]));
    }
    r
}

} // verus!
