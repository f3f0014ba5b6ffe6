use vstd::prelude::*;

verus! {

/// The codepoints of `s` in `[begin, end)`, with both bounds clamped to the
/// length of `s`.
pub open spec fn clamped_slice(s: Seq<char>, begin: int, end: int) -> Seq<char> {
    let b = if begin < s.len() { begin } else { s.len() as int };
    let e = if end < s.len() { end } else { s.len() as int };
    s.subrange(b, e)
}

/// Relies on `utf8_slice::len`: the number of codepoints of `s`.
#[verifier::external_body]
fn codepoint_len(s: &str) -> (r: usize)
    ensures
        r == s@.len(),
{
    utf8_slice::len(s)
}

/// Relies on `utf8_slice::slice`: the codepoints in `[begin, end)`, clamped to
/// the length of `s`, or the empty text when `end < begin`.
#[verifier::external_body]
fn codepoint_slice(s: &str, begin: usize, end: usize) -> (r: &str)
    ensures
        begin <= end ==> r@ == clamped_slice(s@, begin as int, end as int),
        end < begin ==> r@.len() == 0,
{
    utf8_slice::slice(s, begin, end)
}

/// Slice bounds with `begin > end`.
#[derive(Debug, Clone, Copy, PartialEq, Eq)]
pub struct IndexError {
    pub begin: usize,
    pub end: usize,
}

/// A read-only text addressed by codepoint offsets.
pub struct ReadonlyString {
    pub string: String,
    pub length: usize,
}

impl View for ReadonlyString {
    type V = Seq<char>;

    open spec fn view(&self) -> Seq<char> {
        self.string@
    }
}

impl ReadonlyString {
    /// The cached length is the number of codepoints.
    pub open spec fn wf(&self) -> bool {
        self.length == self.string@.len()
    }

    pub fn new(str: &str) -> (r: Self)
        ensures
            r.wf(),
            r@ == str@,
            r.length == str@.len(),
    {
        let length = codepoint_len(str);
        ReadonlyString { string: str.to_owned(), length }
    }

    /// The codepoints in `[begin, end)`, clamped to the length; an error when
    /// `begin > end`.
    pub fn slice(&self, begin: usize, end: usize) -> (r: Result<&str, IndexError>)
        ensures
            begin <= end ==> (r matches Ok(t) && t@ == clamped_slice(self@, begin as int, end as int)),
            end < begin ==> r == Err::<&str, IndexError>(IndexError { begin, end }),
    {
        if end < begin {
            Err(IndexError { begin, end })
        } else {
            Ok(codepoint_slice(self.string.as_str(), begin, end))
        }
    }
}

} // verus!
