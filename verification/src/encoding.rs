//! Content codings, compression levels, and the reading of a coding's name.

use vstd::prelude::*;
use vstd::string::StrSliceExecFns;

verus! {

/// A content coding that a header can name.
#[derive(Clone, Copy, Debug, PartialEq, Eq, Structural)]
pub enum Encoding {
    Gzip,
    Deflate,
    Brotli,
    Zstd,
    /// No coding: the body goes out as it is.
    Identity,
}

impl Encoding {
    /// Whether the coding is one of the algorithms that this library can
    /// apply: Brotli, Gzip or Deflate.
    pub open spec fn is_algorithm(self) -> bool {
        self == Encoding::Brotli || self == Encoding::Gzip || self == Encoding::Deflate
    }

    /// Whether the coding is one of the algorithms that this library can
    /// apply.
    pub fn compresses(&self) -> (r: bool)
        ensures
            r == self.is_algorithm(),
    {
        match self {
            Encoding::Brotli => true,
            Encoding::Gzip => true,
            Encoding::Deflate => true,
            _ => false,
        }
    }
}

/// How hard an encoder works.
#[derive(Clone, Copy, Debug, PartialEq, Eq, Structural)]
pub enum Level {
    /// The quickest setting, with the largest output.
    Fastest,
    /// The slowest setting, with the smallest output.
    Best,
    /// The setting that the algorithm itself picks.
    Default,
    /// A quality in the algorithm's own scale; the encoder clamps it to its maximum.
    Precise(u32),
}

/// The name under which a coding appears in a header.
pub open spec fn token(encoding: Encoding) -> Seq<char> {
    match encoding {
        Encoding::Gzip => "gzip"@,
        Encoding::Deflate => "deflate"@,
        Encoding::Brotli => "br"@,
        Encoding::Zstd => "zstd"@,
        Encoding::Identity => "identity"@,
    }
}

/// Whether a character is white space (the Unicode property `White_Space`).
pub open spec fn is_space(c: char) -> bool {
    ||| '\u{9}' <= c <= '\u{D}'
    ||| c == ' '
    ||| c == '\u{85}'
    ||| c == '\u{A0}'
    ||| c == '\u{1680}'
    ||| '\u{2000}' <= c <= '\u{200A}'
    ||| c == '\u{2028}'
    ||| c == '\u{2029}'
    ||| c == '\u{202F}'
    ||| c == '\u{205F}'
    ||| c == '\u{3000}'
}

/// `s` without its leading white space.
pub open spec fn trim_start(s: Seq<char>) -> Seq<char>
    decreases s.len(),
{
    if s.len() > 0 && is_space(s[0]) {
        trim_start(s.drop_first())
    } else {
        s
    }
}

/// `s` without its trailing white space.
pub open spec fn trim_end(s: Seq<char>) -> Seq<char>
    decreases s.len(),
{
    if s.len() > 0 && is_space(s.last()) {
        trim_end(s.drop_last())
    } else {
        s
    }
}

/// `s` without the white space around it.
pub open spec fn trimmed(s: Seq<char>) -> Seq<char> {
    trim_end(trim_start(s))
}

/// The coding that a header value names: the value, with the white space
/// around it set aside, is exactly one of the five names, in lower case.
pub open spec fn recognized(value: Seq<char>) -> Option<Encoding> {
    let t = trimmed(value);
    if t == token(Encoding::Gzip) {
        Some(Encoding::Gzip)
    } else if t == token(Encoding::Deflate) {
        Some(Encoding::Deflate)
    } else if t == token(Encoding::Brotli) {
        Some(Encoding::Brotli)
    } else if t == token(Encoding::Zstd) {
        Some(Encoding::Zstd)
    } else if t == token(Encoding::Identity) {
        Some(Encoding::Identity)
    } else {
        None
    }
}

/// The coding that a list of header values declares: that of the last value
/// that names one.
pub open spec fn last_recognized(values: Seq<Seq<char>>) -> Option<Encoding>
    decreases values.len(),
{
    if values.len() == 0 {
        None
    } else {
        match recognized(values.last()) {
            Some(encoding) => Some(encoding),
            None => last_recognized(values.drop_last()),
        }
    }
}

/// The views of a list of strings.
pub open spec fn texts(values: Seq<String>) -> Seq<Seq<char>> {
    Seq::new(values.len(), |i: int| values[i]@)
}

fn is_space_char(c: char) -> (r: bool)
    ensures
        r == is_space(c),
{
    ('\u{9}' <= c && c <= '\u{D}') || c == ' ' || c == '\u{85}' || c == '\u{A0}' || c
        == '\u{1680}' || ('\u{2000}' <= c && c <= '\u{200A}') || c == '\u{2028}' || c
        == '\u{2029}' || c == '\u{202F}' || c == '\u{205F}' || c == '\u{3000}'
}

/// Trimming at the front drops exactly the leading run of white space.
proof fn lemma_trim_start(s: Seq<char>, start: int)
    requires
        0 <= start <= s.len(),
        forall|i: int| 0 <= i < start ==> is_space(s[i]),
        start < s.len() ==> !is_space(s[start]),
    ensures
        trim_start(s) == s.subrange(start, s.len() as int),
    decreases start,
{
    if start == 0 {
        assert(s.subrange(0, s.len() as int) =~= s);
    } else {
        let rest = s.drop_first();
        assert forall|i: int| 0 <= i < start - 1 implies is_space(rest[i]) by {
            assert(rest[i] == s[i + 1]);
        }
        lemma_trim_start(rest, start - 1);
        assert(rest.subrange(start - 1, rest.len() as int) =~= s.subrange(start, s.len() as int));
    }
}

/// Trimming at the back drops exactly the trailing run of white space.
proof fn lemma_trim_end(s: Seq<char>, end: int)
    requires
        0 <= end <= s.len(),
        forall|i: int| end <= i < s.len() ==> is_space(s[i]),
        end > 0 ==> !is_space(s[end - 1]),
    ensures
        trim_end(s) == s.subrange(0, end),
    decreases s.len() - end,
{
    if end == s.len() {
        assert(s.subrange(0, end) =~= s);
    } else {
        let rest = s.drop_last();
        lemma_trim_end(rest, end);
        assert(rest.subrange(0, end) =~= s.subrange(0, end));
    }
}

/// Where the trimmed part of `value` begins and ends.
fn trim_bounds(value: &str) -> (r: (usize, usize))
    ensures
        r.0 <= r.1 <= value@.len(),
        trimmed(value@) == value@.subrange(r.0 as int, r.1 as int),
{
    let n = value.unicode_len();
    let mut start: usize = 0;
    while start < n && is_space_char(value.get_char(start))
        invariant
            start <= n,
            n == value@.len(),
            forall|i: int| 0 <= i < start ==> is_space(value@[i]),
        decreases n - start,
    {
        start += 1;
    }
    let mut end: usize = n;
    while end > start && is_space_char(value.get_char(end - 1))
        invariant
            start <= end <= n,
            n == value@.len(),
            forall|i: int| end <= i < n ==> is_space(value@[i]),
        decreases end,
    {
        end -= 1;
    }
    proof {
        let s = value@;
        let front = s.subrange(start as int, n as int);
        lemma_trim_start(s, start as int);
        assert forall|i: int| end - start <= i < front.len() implies is_space(front[i]) by {
            assert(front[i] == s[i + start]);
        }
        if end > start {
            assert(front[end - start - 1] == s[end - 1]);
        }
        lemma_trim_end(front, end - start);
        assert(front.subrange(0, end - start) =~= s.subrange(start as int, end as int));
    }
    (start, end)
}

/// Whether the part of `value` from `start` to `end` spells `word`.
fn spells(value: &str, start: usize, end: usize, word: &str) -> (r: bool)
    requires
        start <= end <= value@.len(),
    ensures
        r == (value@.subrange(start as int, end as int) == word@),
{
    let len = word.unicode_len();
    if end - start != len {
        return false;
    }
    let mut i: usize = 0;
    while i < len
        invariant
            i <= len,
            len == word@.len(),
            len == end - start,
            start <= end <= value@.len(),
            forall|j: int| 0 <= j < i ==> value@[start + j] == word@[j],
        decreases len - i,
    {
        if value.get_char(start + i) != word.get_char(i) {
            assert(value@.subrange(start as int, end as int)[i as int] != word@[i as int]);
            return false;
        }
        i += 1;
    }
    assert(value@.subrange(start as int, end as int) =~= word@);
    true
}

/// Reads the coding that a header value names, if it names one.
pub fn recognize(value: &str) -> (r: Option<Encoding>)
    ensures
        r == recognized(value@),
{
    let (start, end) = trim_bounds(value);
    if spells(value, start, end, "gzip") {
        Some(Encoding::Gzip)
    } else if spells(value, start, end, "deflate") {
        Some(Encoding::Deflate)
    } else if spells(value, start, end, "br") {
        Some(Encoding::Brotli)
    } else if spells(value, start, end, "zstd") {
        Some(Encoding::Zstd)
    } else if spells(value, start, end, "identity") {
        Some(Encoding::Identity)
    } else {
        None
    }
}

/// Reads the coding that a list of header values declares: that of the last
/// value that names one.
pub fn last_known(values: &Vec<String>) -> (r: Option<Encoding>)
    ensures
        r == last_recognized(texts(values@)),
{
    let ghost all = texts(values@);
    let mut found: Option<Encoding> = None;
    let mut i: usize = 0;
    while i < values.len()
        invariant
            i <= values.len(),
            all == texts(values@),
            found == last_recognized(all.take(i as int)),
        decreases values.len() - i,
    {
        let here = recognize(values[i].as_str());
        proof {
            let next = all.take(i + 1);
            assert(next.last() == values@[i as int]@);
            assert(next.drop_last() =~= all.take(i as int));
        }
        if here.is_some() {
            found = here;
        }
        i += 1;
    }
    assert(all.take(i as int) =~= all);
    found
}

/// Every coding's own name reads back as that coding.
pub proof fn token_is_recognized(encoding: Encoding)
    ensures
        recognized(token(encoding)) == Some(encoding),
{
    reveal_strlit("gzip");
    reveal_strlit("deflate");
    reveal_strlit("br");
    reveal_strlit("zstd");
    reveal_strlit("identity");
    let t = token(encoding);
    assert(t.len() > 0 && !is_space(t[0]) && !is_space(t.last()));
    assert(trim_start(t) == t);
    assert(trim_end(t) == t);
    assert("gzip"@.len() == 4 && "deflate"@.len() == 7 && "br"@.len() == 2 && "zstd"@.len() == 4
        && "identity"@.len() == 8);
    assert("gzip"@[0] == 'g' && "zstd"@[0] == 'z');
}

} // verus!
