//! Recovery of the responding server's region and address from the raw
//! bytes of an HTTP response.
//!
//! The header block is everything before the first blank line. Its first
//! line (the status line) is skipped. Every other line is split at its
//! first colon into a name and a value; a line whose lower-cased name
//! contains `region` or `ip_address` sets that field to the trimmed value,
//! the last such line winning. Lines without a colon are skipped.
use vstd::prelude::*;

verus! {

/// The text that `String::from_utf8_lossy` makes of some bytes.
pub uninterp spec fn lossy_of(b: Seq<u8>) -> Seq<char>;

/// The text that `str::to_lowercase` makes of some text.
pub uninterp spec fn lower_of(s: Seq<char>) -> Seq<char>;

/// The characters that `char::is_whitespace` accepts: those with the
/// Unicode property White_Space.
pub open spec fn is_white(c: char) -> bool {
    let u = c as u32;
    (0x9 <= u <= 0xd) || u == 0x20 || u == 0x85 || u == 0xa0 || u == 0x1680 || (0x2000 <= u
        <= 0x200a) || u == 0x2028 || u == 0x2029 || u == 0x202f || u == 0x205f || u == 0x3000
}

/// `s` without its leading white space.
pub open spec fn trim_start_of(s: Seq<char>) -> Seq<char>
    decreases s.len(),
{
    if s.len() > 0 && is_white(s[0]) {
        trim_start_of(s.drop_first())
    } else {
        s
    }
}

/// `s` without its trailing white space.
pub open spec fn trim_end_of(s: Seq<char>) -> Seq<char>
    decreases s.len(),
{
    if s.len() > 0 && is_white(s.last()) {
        trim_end_of(s.drop_last())
    } else {
        s
    }
}

/// `s` without its leading and trailing white space.
pub open spec fn trim_of(s: Seq<char>) -> Seq<char> {
    trim_end_of(trim_start_of(s))
}

/// Relies on `String::from_utf8_lossy`: the text is a function of the bytes alone.
#[verifier::external_body]
fn lossy_text(b: &[u8]) -> (r: String)
    ensures
        r@ == lossy_of(b@),
{
    String::from_utf8_lossy(b).into_owned()
}

/// Relies on `str::to_lowercase`: the result is a function of the text alone.
#[verifier::external_body]
fn lowercase_chars(s: &str) -> (r: Vec<char>)
    ensures
        r@ == lower_of(s@),
{
    s.to_lowercase().chars().collect()
}

/// Relies on `str::trim`: it removes leading and trailing white space, as
/// `char::is_whitespace` defines it.
#[verifier::external_body]
fn trim_text(s: &str) -> (r: &str)
    ensures
        r@ == trim_of(s@),
{
    s.trim()
}

/// The placeholder for a field whose value could not be found.
pub open spec fn unknown() -> Seq<char> {
    seq!['u', 'n', 'k', 'n', 'o', 'w', 'n']
}

/// The key that marks a region header.
pub open spec fn region_key() -> Seq<char> {
    seq!['r', 'e', 'g', 'i', 'o', 'n']
}

/// The key that marks an address header.
pub open spec fn ip_key() -> Seq<char> {
    seq!['i', 'p', '_', 'a', 'd', 'd', 'r', 'e', 's', 's']
}

/// `needle` occurs in `hay` starting at `i`.
pub open spec fn occurs_at(hay: Seq<char>, needle: Seq<char>, i: int) -> bool {
    0 <= i && i + needle.len() <= hay.len() && hay.subrange(i, i + needle.len()) == needle
}

/// `needle` occurs somewhere in `hay`.
pub open spec fn contains(hay: Seq<char>, needle: Seq<char>) -> bool {
    exists|i: int| #[trigger] occurs_at(hay, needle, i)
}

/// A carriage return and a line feed stand at `i`.
pub open spec fn crlf_at(b: Seq<u8>, i: int) -> bool {
    0 <= i && i + 1 < b.len() && b[i] == 13 && b[i + 1] == 10
}

/// The first position from `i` on where a line break stands, or the length.
pub open spec fn next_crlf(b: Seq<u8>, i: int) -> int
    decreases b.len() - i,
{
    if i < 0 || i + 1 >= b.len() {
        b.len() as int
    } else if crlf_at(b, i) {
        i
    } else {
        next_crlf(b, i + 1)
    }
}

/// Two line breaks in a row stand at `i`.
pub open spec fn blank_at(b: Seq<u8>, i: int) -> bool {
    crlf_at(b, i) && crlf_at(b, i + 2)
}

/// The first position from `i` on where a blank line starts, or the length.
pub open spec fn header_end(b: Seq<u8>, i: int) -> int
    decreases b.len() - i,
{
    if i < 0 || i + 3 >= b.len() {
        b.len() as int
    } else if blank_at(b, i) {
        i
    } else {
        header_end(b, i + 1)
    }
}

/// The first position from `i` on of a colon, or the length.
pub open spec fn colon_at(line: Seq<u8>, i: int) -> int
    decreases line.len() - i,
{
    if i < 0 || i >= line.len() {
        line.len() as int
    } else if line[i] == 58 {
        i
    } else {
        colon_at(line, i + 1)
    }
}

/// The lower-cased name of a header line: its text before the first colon.
pub open spec fn header_name(line: Seq<u8>) -> Seq<char> {
    lower_of(lossy_of(line.subrange(0, colon_at(line, 0))))
}

/// The trimmed value of a header line: its text after the first colon.
pub open spec fn header_value(line: Seq<u8>) -> Seq<char> {
    trim_of(lossy_of(line.subrange(colon_at(line, 0) + 1, line.len() as int)))
}

/// The region and address found so far, after one more header line: a
/// line with a colon whose name contains a key sets that key's field to
/// its value; any other line changes nothing.
pub open spec fn step(
    acc: (Option<Seq<char>>, Option<Seq<char>>),
    line: Seq<u8>,
) -> (Option<Seq<char>>, Option<Seq<char>>) {
    if colon_at(line, 0) < line.len() {
        let name = header_name(line);
        let v = Some(header_value(line));
        (
            if contains(name, region_key()) { v } else { acc.0 },
            if contains(name, ip_key()) { v } else { acc.1 },
        )
    } else {
        acc
    }
}

/// The region and address after the lines of `blk` that start at `start`.
pub open spec fn scan(
    blk: Seq<u8>,
    start: int,
    acc: (Option<Seq<char>>, Option<Seq<char>>),
) -> (Option<Seq<char>>, Option<Seq<char>>)
    decreases blk.len() - start,
    via scan_decreases
{
    if start < 0 || start > blk.len() {
        acc
    } else {
        let e = next_crlf(blk, start);
        let acc2 = step(acc, blk.subrange(start, e));
        if e < blk.len() {
            scan(blk, e + 2, acc2)
        } else {
            acc2
        }
    }
}

#[via_fn]
proof fn scan_decreases(
    blk: Seq<u8>,
    start: int,
    acc: (Option<Seq<char>>, Option<Seq<char>>),
) {
    if 0 <= start <= blk.len() {
        lemma_next_crlf(blk, start);
    }
}

/// A line break found from `i` on lies between `i` and the end, and is one.
pub proof fn lemma_next_crlf(b: Seq<u8>, i: int)
    requires
        0 <= i <= b.len(),
    ensures
        i <= next_crlf(b, i) <= b.len(),
        next_crlf(b, i) < b.len() ==> crlf_at(b, next_crlf(b, i)),
    decreases b.len() - i,
{
    if i + 1 < b.len() && !crlf_at(b, i) {
        lemma_next_crlf(b, i + 1);
    }
}

/// A colon found from `i` on lies between `i` and the end.
proof fn lemma_colon_at(line: Seq<u8>, i: int)
    requires
        0 <= i <= line.len(),
    ensures
        i <= colon_at(line, i) <= line.len(),
    decreases line.len() - i,
{
    if i < line.len() && line[i] != 58 {
        lemma_colon_at(line, i + 1);
    }
}

/// A blank line found from `i` on lies between `i` and the end.
proof fn lemma_header_end(b: Seq<u8>, i: int)
    requires
        0 <= i <= b.len(),
    ensures
        i <= header_end(b, i) <= b.len(),
    decreases b.len() - i,
{
    if i + 3 < b.len() && !blank_at(b, i) {
        lemma_header_end(b, i + 1);
    }
}

/// A region or address, once found, is kept by the lines that follow: a
/// field comes out as the placeholder only where no header line gave it.
pub proof fn found_value_is_kept(
    blk: Seq<u8>,
    start: int,
    acc: (Option<Seq<char>>, Option<Seq<char>>),
)
    ensures
        acc.0 is Some ==> scan(blk, start, acc).0 is Some,
        acc.1 is Some ==> scan(blk, start, acc).1 is Some,
    decreases blk.len() - start,
{
    if 0 <= start <= blk.len() {
        lemma_next_crlf(blk, start);
        let e = next_crlf(blk, start);
        if e < blk.len() {
            found_value_is_kept(blk, e + 2, step(acc, blk.subrange(start, e)));
        }
    }
}

/// The region and address that the response's header lines give, if any.
pub open spec fn diagnostics(response: Seq<u8>) -> (Option<Seq<char>>, Option<Seq<char>>) {
    let blk = response.subrange(0, header_end(response, 0));
    let s = next_crlf(blk, 0);
    if s < blk.len() {
        scan(blk, s + 2, (None, None))
    } else {
        (None, None)
    }
}

/// A found value, or the placeholder.
pub open spec fn or_unknown(v: Option<Seq<char>>) -> Seq<char> {
    match v {
        Some(t) => t,
        None => unknown(),
    }
}

/// The text an optional string holds, if any.
pub open spec fn text_of(v: Option<String>) -> Option<Seq<char>> {
    match v {
        Some(s) => Some(s@),
        None => None,
    }
}

/// The region and address reported by the responding server.
pub struct Diagnostics {
    pub response_region: String,
    pub ip_address: String,
}

/// Whether `needle` occurs in `hay`.
pub fn contains_chars(hay: &Vec<char>, needle: &Vec<char>) -> (r: bool)
    ensures
        r == contains(hay@, needle@),
{
    if needle.len() > hay.len() {
        assert forall|i: int| !occurs_at(hay@, needle@, i) by {}
        return false;
    }
    let last = hay.len() - needle.len();
    let mut i: usize = 0;
    while i <= last
        invariant
            last == hay.len() - needle.len(),
            needle.len() <= hay.len(),
            i <= last + 1,
            forall|k: int| 0 <= k < i ==> !#[trigger] occurs_at(hay@, needle@, k),
        decreases last + 1 - i,
    {
        let mut j: usize = 0;
        let mut same = true;
        while same && j < needle.len()
            invariant
                i <= last,
                last == hay.len() - needle.len(),
                j <= needle.len(),
                same ==> forall|t: int| 0 <= t < j ==> hay@[i + t] == needle@[t],
                !same ==> exists|t: int| 0 <= t < needle.len() && hay@[i + t] != needle@[t],
            decreases needle.len() - j + (if same { 1int } else { 0int }),
        {
            if hay[i + j] != needle[j] {
                same = false;
            } else {
                j = j + 1;
            }
        }
        if same {
            assert(j == needle.len());
            assert(hay@.subrange(i as int, i + needle.len()) =~= needle@);
            assert(occurs_at(hay@, needle@, i as int));
            return true;
        }
        proof {
            let t = choose|t: int| 0 <= t < needle.len() && hay@[i + t] != needle@[t];
            assert(hay@.subrange(i as int, i + needle.len())[t] != needle@[t]);
        }
        i = i + 1;
    }
    assert forall|k: int| !occurs_at(hay@, needle@, k) by {
        if 0 <= k && k + needle.len() <= hay.len() {
            assert(k < i);
        }
    }
    false
}

/// Which of the two fields a header line feeds, given its lower-cased name
/// (the text before its first colon): the region where the name contains
/// `region`, the address where it contains `ip_address`.
pub fn header_targets(lowered: &Vec<char>) -> (r: (bool, bool))
    ensures
        r.0 == contains(lowered@, region_key()),
        r.1 == contains(lowered@, ip_key()),
{
    let region = vec!['r', 'e', 'g', 'i', 'o', 'n'];
    let ip = vec!['i', 'p', '_', 'a', 'd', 'd', 'r', 'e', 's', 's'];
    assert(region@ =~= region_key());
    assert(ip@ =~= ip_key());
    (contains_chars(lowered, &region), contains_chars(lowered, &ip))
}

/// The bytes of `b` from `from` up to `to`.
fn copy_range(b: &[u8], from: usize, to: usize) -> (r: Vec<u8>)
    requires
        from <= to <= b@.len(),
    ensures
        r@ == b@.subrange(from as int, to as int),
{
    let mut r: Vec<u8> = Vec::new();
    let mut i: usize = from;
    while i < to
        invariant
            from <= i <= to,
            to <= b@.len(),
            r@ == b@.subrange(from as int, i as int),
        decreases to - i,
    {
        r.push(b[i]);
        i = i + 1;
        assert(r@ =~= b@.subrange(from as int, i as int));
    }
    r
}

/// The position of the first line break in `b` from `from` on, or its length.
fn find_crlf(b: &Vec<u8>, from: usize) -> (r: usize)
    requires
        from <= b@.len(),
    ensures
        r == next_crlf(b@, from as int),
{
    let mut i: usize = from;
    while b.len() - i > 1
        invariant
            from <= i <= b@.len(),
            next_crlf(b@, i as int) == next_crlf(b@, from as int),
        decreases b.len() - i,
    {
        if b[i] == 13 && b[i + 1] == 10 {
            return i;
        }
        i = i + 1;
    }
    b.len()
}

/// The position of the first blank line in `b`, or its length.
fn find_header_end(b: &[u8]) -> (r: usize)
    ensures
        r == header_end(b@, 0),
{
    let mut i: usize = 0;
    while b.len() - i > 3
        invariant
            i <= b@.len(),
            header_end(b@, i as int) == header_end(b@, 0),
        decreases b.len() - i,
    {
        if b[i] == 13 && b[i + 1] == 10 && b[i + 2] == 13 && b[i + 3] == 10 {
            return i;
        }
        i = i + 1;
    }
    b.len()
}

/// The position of the first colon in `line`, or its length.
fn find_colon(line: &Vec<u8>) -> (r: usize)
    ensures
        r == colon_at(line@, 0),
{
    let mut i: usize = 0;
    while i < line.len()
        invariant
            i <= line@.len(),
            colon_at(line@, i as int) == colon_at(line@, 0),
        decreases line.len() - i,
    {
        if line[i] == 58 {
            return i;
        }
        i = i + 1;
    }
    line.len()
}

/// Feeds one header line into the region and address found so far.
fn apply_line(line: &Vec<u8>, region: &mut Option<String>, ip: &mut Option<String>)
    ensures
        (text_of(*final(region)), text_of(*final(ip))) == step(
            (text_of(*old(region)), text_of(*old(ip))),
            line@,
        ),
{
    let c = find_colon(line);
    proof {
        lemma_colon_at(line@, 0);
    }
    if c < line.len() {
        let name = copy_range(line.as_slice(), 0, c);
        let name_text = lossy_text(name.as_slice());
        let lowered = lowercase_chars(name_text.as_str());
        let (is_region, is_ip) = header_targets(&lowered);
        if is_region || is_ip {
            let raw = copy_range(line.as_slice(), c + 1, line.len());
            let value_text = lossy_text(raw.as_slice());
            let value = String::from_str(trim_text(value_text.as_str()));
            if is_region {
                *region = Some(value.clone());
            }
            if is_ip {
                *ip = Some(value);
            }
        }
    }
}

/// The region and address that the header lines of `response` report, each
/// `unknown` where no line gives it.
pub fn extract_diagnostics(response: &[u8]) -> (r: Diagnostics)
    ensures
        r.response_region@ == or_unknown(diagnostics(response@).0),
        r.ip_address@ == or_unknown(diagnostics(response@).1),
{
    let end = find_header_end(response);
    proof {
        lemma_header_end(response@, 0);
    }
    let blk = copy_range(response, 0, end);
    let ghost target = diagnostics(response@);
    let mut region: Option<String> = None;
    let mut ip: Option<String> = None;
    let status_end = find_crlf(&blk, 0);
    proof {
        lemma_next_crlf(blk@, 0);
    }
    if status_end < blk.len() {
        let mut pos: usize = status_end + 2;
        let mut done = false;
        while !done
            invariant
                pos <= blk@.len(),
                target == scan(blk@, status_end + 2, (None, None)),
                done ==> (text_of(region), text_of(ip)) == target,
                !done ==> scan(blk@, pos as int, (text_of(region), text_of(ip))) == target,
            decreases blk@.len() - pos + (if done { 0int } else { 1int }),
        {
            let e = find_crlf(&blk, pos);
            proof {
                lemma_next_crlf(blk@, pos as int);
            }
            let line = copy_range(blk.as_slice(), pos, e);
            apply_line(&line, &mut region, &mut ip);
            if e < blk.len() {
                pos = e + 2;
            } else {
                done = true;
            }
        }
    }
    let response_region = match region {
        Some(v) => v,
        None => unknown_text(),
    };
    let ip_address = match ip {
        Some(v) => v,
        None => unknown_text(),
    };
    Diagnostics { response_region, ip_address }
}

/// The placeholder text `unknown`.
pub fn unknown_text() -> (r: String)
    ensures
        r@ == unknown(),
{
    let r = String::from_str("unknown");
    proof {
        reveal_strlit("unknown");
    }
    assert(r@ =~= unknown());
    r
}

} // verus!
