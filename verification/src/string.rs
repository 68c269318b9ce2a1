//! String related types

use vstd::prelude::*;
use vstd::string::*;
use vstd::utf8::{decode_utf8, encode_utf8, is_char_boundary};

verus! {

/// `str::eq` compares two strings character by character.
#[verifier::external_body]
pub(crate) fn str_equal(a: &str, b: &str) -> (r: bool)
    ensures
        r == (a@ == b@),
{
    a == b
}

/// `String::truncate` shortens the string to `new_len` bytes and does nothing
/// where the string is no longer than that. The standard library panics where
/// `new_len` does not lie on a character boundary.
pub assume_specification[ String::truncate ](s: &mut String, new_len: usize)
    requires
        new_len < encode_utf8(old(s)@).len() ==> is_char_boundary(encode_utf8(old(s)@), new_len as int),
    ensures
        final(s)@ == truncated(old(s)@, new_len as int),
;

/// Calls `String::retain` with `is_no_newline` as the test: the characters
/// for which it is true stay, in their order.
#[verifier::external_body]
fn remove_newlines(s: &mut String)
    ensures
        final(s)@ == old(s)@.filter(|c: char| !spec_is_newline(c)),
{
    s.retain(is_no_newline)
}

/// Whether `c` is neither a carriage return nor a line feed.
fn is_no_newline(c: char) -> (b: bool)
    ensures
        b == !spec_is_newline(c),
{
    !is_newline(c)
}

/// The string with the characters `chars` after `String::truncate` to
/// `new_len` bytes.
pub open spec fn truncated(chars: Seq<char>, new_len: int) -> Seq<char> {
    if 0 <= new_len < encode_utf8(chars).len() {
        decode_utf8(encode_utf8(chars).subrange(0, new_len))
    } else {
        chars
    }
}

/// Carriage return or line feed.
pub open spec fn spec_is_newline(c: char) -> bool {
    c == '\r' || c == '\n'
}

/// Whether `c` is a carriage return or a line feed.
#[verifier::when_used_as_spec(spec_is_newline)]
pub fn is_newline(c: char) -> (b: bool)
    ensures
        b == spec_is_newline(c),
{
    c == '\r' || c == '\n'
}

/// <https://infra.spec.whatwg.org/#ascii-whitespace>: tab, line feed, form
/// feed, carriage return or space.
pub open spec fn spec_is_ascii_whitespace(c: char) -> bool {
    c == '\t' || c == '\n' || c == '\x0C' || c == '\r' || c == ' '
}

/// Whether `c` is ASCII whitespace.
#[verifier::when_used_as_spec(spec_is_ascii_whitespace)]
pub fn is_ascii_whitespace(c: char) -> (b: bool)
    ensures
        b == spec_is_ascii_whitespace(c),
{
    c == '\t' || c == '\n' || c == '\x0C' || c == '\r' || c == ' '
}

/// `s` without the ASCII whitespace at its start.
pub open spec fn without_leading_whitespace(s: Seq<char>) -> Seq<char>
    decreases s.len(),
{
    if s.len() > 0 && spec_is_ascii_whitespace(s.first()) {
        without_leading_whitespace(s.drop_first())
    } else {
        s
    }
}

/// `s` without the ASCII whitespace at its end.
pub open spec fn without_trailing_whitespace(s: Seq<char>) -> Seq<char>
    decreases s.len(),
{
    if s.len() > 0 && spec_is_ascii_whitespace(s.last()) {
        without_trailing_whitespace(s.drop_last())
    } else {
        s
    }
}

/// `s` without the ASCII whitespace at its start and at its end.
pub open spec fn stripped(s: Seq<char>) -> Seq<char> {
    without_leading_whitespace(without_trailing_whitespace(s))
}

/// Where the last `s.len() - end` characters are whitespace and the one
/// before them is not, stripping the end leaves the first `end` characters.
proof fn lemma_without_trailing(s: Seq<char>, end: int)
    requires
        0 <= end <= s.len(),
        forall|j: int| end <= j < s.len() ==> spec_is_ascii_whitespace(#[trigger] s[j]),
        end > 0 ==> !spec_is_ascii_whitespace(s[end - 1]),
    ensures
        without_trailing_whitespace(s) == s.subrange(0, end),
    decreases s.len() - end,
{
    if end == s.len() {
        assert(s.subrange(0, end) == s);
    } else {
        lemma_without_trailing(s.drop_last(), end);
        assert(s.drop_last().subrange(0, end) == s.subrange(0, end));
    }
}

/// Where the first `start` characters are whitespace and the next one is not,
/// stripping the start leaves what follows them.
proof fn lemma_without_leading(s: Seq<char>, start: int)
    requires
        0 <= start <= s.len(),
        forall|j: int| 0 <= j < start ==> spec_is_ascii_whitespace(#[trigger] s[j]),
        start < s.len() ==> !spec_is_ascii_whitespace(s[start]),
    ensures
        without_leading_whitespace(s) == s.subrange(start, s.len() as int),
    decreases start,
{
    if start == 0 {
        assert(s.subrange(0, s.len() as int) == s);
    } else {
        let rest = s.drop_first();
        assert forall|j: int| 0 <= j < start - 1 implies spec_is_ascii_whitespace(
            #[trigger] rest[j],
        ) by {
            assert(rest[j] == s[j + 1]);
        }
        lemma_without_leading(rest, start - 1);
        assert(rest.subrange(start - 1, rest.len() as int) == s.subrange(start, s.len() as int));
    }
}

/// The characters of a string, one by one.
pub fn chars_of(s: &str) -> (chars: Vec<char>)
    ensures
        chars@ == s@,
{
    let mut chars: Vec<char> = Vec::new();
    for c in it: s.chars()
        invariant
            it.seq() == s@,
            chars@ == s@.take(it.index() as int),
    {
        chars.push(c);
        assert(s@.take(it.index() + 1) =~= s@.take(it.index() as int).push(c));
    }
    assert(s@.take(s@.len() as int) =~= s@);
    chars
}

/// Whether `chars` ends with `suffix`.
pub fn ends_with(chars: &Vec<char>, suffix: &Vec<char>) -> (b: bool)
    ensures
        b == suffix@.is_suffix_of(chars@),
{
    let n = chars.len();
    let m = suffix.len();
    if m > n {
        return false;
    }
    let mut i: usize = 0;
    while i < m
        invariant
            m <= n,
            n == chars@.len(),
            m == suffix@.len(),
            i <= m,
            forall|j: int| 0 <= j < i ==> chars@[n - m + j] == suffix@[j],
        decreases m - i,
    {
        if chars[n - m + i] != suffix[i] {
            assert(chars@.subrange(n - m, n as int)[i as int] != suffix@[i as int]);
            return false;
        }
        i = i + 1;
    }
    assert(chars@.subrange(n - m, n as int) =~= suffix@);
    true
}

/// Whether `chars` starts with `prefix`.
pub fn starts_with(chars: &Vec<char>, prefix: &Vec<char>) -> (b: bool)
    ensures
        b == prefix@.is_prefix_of(chars@),
{
    let n = chars.len();
    let m = prefix.len();
    if m > n {
        return false;
    }
    let mut i: usize = 0;
    while i < m
        invariant
            m <= n,
            n == chars@.len(),
            m == prefix@.len(),
            i <= m,
            forall|j: int| 0 <= j < i ==> chars@[j] == prefix@[j],
        decreases m - i,
    {
        if chars[i] != prefix[i] {
            assert(chars@.subrange(0, m as int)[i as int] != prefix@[i as int]);
            return false;
        }
        i = i + 1;
    }
    assert(chars@.subrange(0, m as int) =~= prefix@);
    true
}

/// The place of the last `c` in `chars`, if there is one.
pub open spec fn last_index_of(chars: Seq<char>, c: char) -> Option<int>
    decreases chars.len(),
{
    if chars.len() == 0 {
        None
    } else if chars.last() == c {
        Some(chars.len() - 1)
    } else {
        last_index_of(chars.drop_last(), c)
    }
}

/// The place of the last `c` among the first `end` characters of `chars`,
/// if there is one.
pub fn find_last(chars: &Vec<char>, end: usize, c: char) -> (place: Option<usize>)
    requires
        end <= chars@.len(),
    ensures
        match place {
            Some(i) => last_index_of(chars@.subrange(0, end as int), c) == Some(i as int) && i
                < end,
            None => last_index_of(chars@.subrange(0, end as int), c) is None,
        },
{
    let mut i: usize = end;
    while i > 0
        invariant
            i <= end <= chars@.len(),
            last_index_of(chars@.subrange(0, end as int), c) == last_index_of(
                chars@.subrange(0, i as int),
                c,
            ),
        decreases i,
    {
        let ghost prefix = chars@.subrange(0, i as int);
        assert(prefix.last() == chars@[i - 1]);
        if chars[i - 1] == c {
            return Some(i - 1);
        }
        assert(prefix.drop_last() =~= chars@.subrange(0, i - 1));
        i = i - 1;
    }
    None
}

/// `chars` without the characters `c` at its start.
pub open spec fn without_leading(chars: Seq<char>, c: char) -> Seq<char>
    decreases chars.len(),
{
    if chars.len() > 0 && chars.first() == c {
        without_leading(chars.drop_first(), c)
    } else {
        chars
    }
}

/// The place of the first character from `start` on that is not `c`; the
/// length of `chars` where there is none.
pub fn skip_leading(chars: &Vec<char>, start: usize, c: char) -> (place: usize)
    requires
        start <= chars@.len(),
    ensures
        start <= place <= chars@.len(),
        without_leading(chars@.skip(start as int), c) == chars@.skip(place as int),
{
    let mut i: usize = start;
    while i < chars.len() && chars[i] == c
        invariant
            start <= i <= chars@.len(),
            without_leading(chars@.skip(start as int), c) == without_leading(
                chars@.skip(i as int),
                c,
            ),
        decreases chars@.len() - i,
    {
        assert(chars@.skip(i as int).first() == chars@[i as int]);
        assert(chars@.skip(i as int).drop_first() =~= chars@.skip(i + 1));
        i = i + 1;
    }
    proof {
        if i < chars@.len() {
            assert(chars@.skip(i as int).first() == chars@[i as int]);
        }
    }
    i
}

/// A DOMString.
///
/// This type corresponds to the [`DOMString`] type in WebIDL.
///
/// [`DOMString`]: https://webidl.spec.whatwg.org/#idl-DOMString
#[derive(Debug, Hash)]
pub struct DOMString(String);

impl View for DOMString {
    type V = Seq<char>;

    /// The characters of the string.
    closed spec fn view(&self) -> Seq<char> {
        self.0@
    }
}

impl Clone for DOMString {
    fn clone(&self) -> (copy: Self)
        ensures
            copy@ == self@,
    {
        DOMString(self.0.clone())
    }
}

impl PartialEq for DOMString {
    fn eq(&self, other: &Self) -> (r: bool) {
        str_equal(self.0.as_str(), other.0.as_str())
    }
}

impl Eq for DOMString {

}

impl vstd::std_specs::cmp::PartialEqSpecImpl for DOMString {
    open spec fn obeys_eq_spec() -> bool {
        true
    }

    open spec fn eq_spec(&self, other: &Self) -> bool {
        self@ == other@
    }
}

impl Default for DOMString {
    fn default() -> (s: Self)
        ensures
            s@ == Seq::<char>::empty(),
    {
        DOMString(String::new())
    }
}

impl From<String> for DOMString {
    fn from(contents: String) -> (s: DOMString)
        ensures
            s@ == contents@,
    {
        DOMString(contents)
    }
}

impl vstd::std_specs::convert::FromSpecImpl<String> for DOMString {
    open spec fn obeys_from_spec() -> bool {
        true
    }

    closed spec fn from_spec(contents: String) -> DOMString {
        DOMString(contents)
    }
}

impl From<&str> for DOMString {
    fn from(contents: &str) -> (s: DOMString)
        ensures
            s@ == contents@,
    {
        DOMString(String::from_str(contents))
    }
}

impl vstd::std_specs::convert::FromSpecImpl<&str> for DOMString {
    /// A string is not fixed by its characters, so `from` is held to its own
    /// contract and not to `from_spec`.
    open spec fn obeys_from_spec() -> bool {
        false
    }

    /// Some `DOMString` with the characters of `contents`.
    open spec fn from_spec(contents: &str) -> DOMString {
        choose|s: DOMString| s@ == contents@
    }
}

impl DOMString {
    /// Creates a new `DOMString`.
    pub fn new() -> (s: DOMString)
        ensures
            s@ == Seq::<char>::empty(),
    {
        DOMString(String::new())
    }

    /// Creates a new `DOMString` from a `String`.
    pub fn from_string(s: String) -> (r: DOMString)
        ensures
            r@ == s@,
    {
        DOMString(s)
    }

    /// The string that the `DOMString` holds.
    pub fn into_string(self) -> (s: String)
        ensures
            s@ == self@,
    {
        self.0
    }

    /// Whether the `DOMString` holds the text `other`.
    pub fn eq_str(&self, other: &str) -> (b: bool)
        ensures
            b == (self@ == other@),
    {
        str_equal(self.0.as_str(), other)
    }

    /// Get the internal `&str` value of this [`DOMString`].
    pub fn str(&self) -> (s: &str)
        ensures
            s@ == self@,
    {
        self.0.as_str()
    }

    /// Appends a given string slice onto the end of this String.
    pub fn push_str(&mut self, string: &str)
        ensures
            final(self)@ == old(self)@ + string@,
    {
        self.0.append(string)
    }

    /// Clears this `DOMString`, removing all contents.
    pub fn clear(&mut self)
        ensures
            final(self)@ == Seq::<char>::empty(),
    {
        self.0 = String::new();
    }

    /// Shortens this String to the specified length in bytes. Nothing happens
    /// where the string is no longer than that.
    pub fn truncate(&mut self, new_len: usize)
        requires
            new_len < encode_utf8(old(self)@).len() ==> is_char_boundary(
                encode_utf8(old(self)@),
                new_len as int,
            ),
        ensures
            final(self)@ == truncated(old(self)@, new_len as int),
    {
        self.0.truncate(new_len);
    }

    /// Removes newline characters according to <https://infra.spec.whatwg.org/#strip-newlines>.
    pub fn strip_newlines(&mut self)
        ensures
            final(self)@ == old(self)@.filter(|c: char| !spec_is_newline(c)),
    {
        remove_newlines(&mut self.0);
    }

    /// Removes leading and trailing ASCII whitespaces according to
    /// <https://infra.spec.whatwg.org/#strip-leading-and-trailing-ascii-whitespace>.
    pub fn strip_leading_and_trailing_ascii_whitespace(&mut self)
        ensures
            final(self)@ == stripped(old(self)@),
    {
        let text = self.0.as_str();
        let len: usize = text.unicode_len();
        let mut first: usize = 0;
        let mut end: usize = 0;
        let mut i: usize = 0;
        for c in it: text.chars()
            invariant
                it.seq() == text@,
                len == text@.len(),
                i == it.index(),
                i <= len,
                first <= end <= i,
                forall|j: int| 0 <= j < first ==> spec_is_ascii_whitespace(#[trigger] text@[j]),
                forall|j: int| end <= j < i ==> spec_is_ascii_whitespace(#[trigger] text@[j]),
                end > 0 ==> !spec_is_ascii_whitespace(text@[first as int])
                    && !spec_is_ascii_whitespace(text@[end - 1]),
        {
            if !is_ascii_whitespace(c) {
                if end == 0 {
                    first = i;
                }
                end = i + 1;
            }
            i = i + 1;
        }
        proof {
            lemma_without_trailing(text@, end as int);
            if end > 0 {
                lemma_without_leading(text@.subrange(0, end as int), first as int);
                assert(text@.subrange(0, end as int).subrange(first as int, end as int)
                    == text@.subrange(first as int, end as int));
            } else {
                assert(text@.subrange(0, 0) == Seq::<char>::empty());
            }
        }
        let kept = String::from_str(text.substring_char(first, end));
        proof {
            if end == 0 {
                assert(text@.subrange(first as int, end as int) == Seq::<char>::empty());
            }
        }
        self.0 = kept;
    }
}

} // verus!
