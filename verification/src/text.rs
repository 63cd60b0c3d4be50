//! Small operations on text that the request pipeline is built from.

use vstd::prelude::*;
use vstd::string::StrSliceExecFns;
use vstd::string::StringExecFns;
use vstd::utf8::{decode_utf8, valid_utf8};

verus! {

/// `s` without the slashes at its end.
pub open spec fn without_trailing_slashes(s: Seq<char>) -> Seq<char>
    decreases s.len(),
{
    if s.len() > 0 && s.last() == '/' {
        without_trailing_slashes(s.drop_last())
    } else {
        s
    }
}

/// `s` without the slashes at its start.
pub open spec fn without_leading_slashes(s: Seq<char>) -> Seq<char>
    decreases s.len(),
{
    if s.len() > 0 && s.first() == '/' {
        without_leading_slashes(s.drop_first())
    } else {
        s
    }
}

/// Every item of `s` is a slash.
pub open spec fn all_slashes(s: Seq<char>) -> bool {
    forall|i: int| 0 <= i < s.len() ==> s[i] == '/'
}

/// What trimming the end keeps is the start of the text, it does not end in
/// a slash, and all that was dropped is slashes.
pub proof fn lemma_trailing_trim(s: Seq<char>)
    ensures
        without_trailing_slashes(s).len() <= s.len(),
        without_trailing_slashes(s) == s.subrange(0, without_trailing_slashes(s).len() as int),
        without_trailing_slashes(s).len() > 0 ==> without_trailing_slashes(s).last() != '/',
        all_slashes(s.subrange(without_trailing_slashes(s).len() as int, s.len() as int)),
    decreases s.len(),
{
    if s.len() > 0 && s.last() == '/' {
        let shorter = s.drop_last();
        lemma_trailing_trim(shorter);
        let kept = without_trailing_slashes(shorter);
        assert(kept == s.subrange(0, kept.len() as int));
        let dropped = s.subrange(kept.len() as int, s.len() as int);
        let dropped_before = shorter.subrange(kept.len() as int, shorter.len() as int);
        assert forall|i: int| 0 <= i < dropped.len() implies dropped[i] == '/' by {
            if i < dropped_before.len() {
                assert(dropped[i] == dropped_before[i]);
            }
        }
    } else {
        assert(s == s.subrange(0, s.len() as int));
    }
}

/// What trimming the start keeps is the end of the text, it does not start
/// with a slash, and all that was dropped is slashes.
pub proof fn lemma_leading_trim(s: Seq<char>)
    ensures
        without_leading_slashes(s).len() <= s.len(),
        without_leading_slashes(s) == s.subrange(
            s.len() - without_leading_slashes(s).len(),
            s.len() as int,
        ),
        without_leading_slashes(s).len() > 0 ==> without_leading_slashes(s).first() != '/',
        all_slashes(s.subrange(0, s.len() - without_leading_slashes(s).len())),
    decreases s.len(),
{
    if s.len() > 0 && s.first() == '/' {
        let shorter = s.drop_first();
        lemma_leading_trim(shorter);
        let kept = without_leading_slashes(shorter);
        let cut = s.len() - kept.len();
        assert(kept == s.subrange(cut, s.len() as int));
        let dropped = s.subrange(0, cut);
        let dropped_before = shorter.subrange(0, shorter.len() - kept.len());
        assert forall|i: int| 0 <= i < dropped.len() implies dropped[i] == '/' by {
            if i > 0 {
                assert(dropped[i] == dropped_before[i - 1]);
            }
        }
    } else {
        assert(s == s.subrange(0, s.len() as int));
    }
}

/// Trimming the end of a text that does not end in a slash changes nothing.
pub proof fn lemma_trailing_trim_of_trimmed(s: Seq<char>)
    ensures
        without_trailing_slashes(without_trailing_slashes(s)) == without_trailing_slashes(s),
    decreases s.len(),
{
    if s.len() > 0 && s.last() == '/' {
        lemma_trailing_trim_of_trimmed(s.drop_last());
    }
}

/// Trimming the start of a text that does not start with a slash changes
/// nothing.
pub proof fn lemma_leading_trim_of_trimmed(s: Seq<char>)
    ensures
        without_leading_slashes(without_leading_slashes(s)) == without_leading_slashes(s),
    decreases s.len(),
{
    if s.len() > 0 && s.first() == '/' {
        lemma_leading_trim_of_trimmed(s.drop_first());
    }
}

/// Cuts the slashes off the end of `s`.
pub fn trim_trailing_slashes(s: &str) -> (r: &str)
    ensures
        r@ == without_trailing_slashes(s@),
{
    let mut end: usize = s.unicode_len();
    assert(s@.subrange(0, end as int) == s@);
    while end > 0 && s.get_char(end - 1) == '/'
        invariant
            end <= s@.len(),
            without_trailing_slashes(s@) == without_trailing_slashes(s@.subrange(0, end as int)),
        decreases end,
    {
        proof {
            let current = s@.subrange(0, end as int);
            assert(current.last() == s@[end - 1]);
            assert(current.drop_last() == s@.subrange(0, end - 1));
        }
        end = end - 1;
    }
    proof {
        let current = s@.subrange(0, end as int);
        if end > 0 {
            assert(current.last() == s@[end - 1]);
        }
    }
    s.substring_char(0, end)
}

/// Cuts the slashes off the start of `s`.
pub fn trim_leading_slashes(s: &str) -> (r: &str)
    ensures
        r@ == without_leading_slashes(s@),
{
    let len: usize = s.unicode_len();
    let mut start: usize = 0;
    assert(s@.subrange(0, len as int) == s@);
    while start < len && s.get_char(start) == '/'
        invariant
            start <= len,
            len == s@.len(),
            without_leading_slashes(s@) == without_leading_slashes(
                s@.subrange(start as int, len as int),
            ),
        decreases len - start,
    {
        proof {
            let current = s@.subrange(start as int, len as int);
            assert(current.first() == s@[start as int]);
            assert(current.drop_first() == s@.subrange(start + 1, len as int));
        }
        start = start + 1;
    }
    proof {
        let current = s@.subrange(start as int, len as int);
        if start < len {
            assert(current.first() == s@[start as int]);
        }
    }
    s.substring_char(start, len)
}

/// The address of `path` under `base`: the two joined by exactly one slash,
/// whatever slashes `base` ends with and `path` starts with.
pub open spec fn joined(base: Seq<char>, path: Seq<char>) -> Seq<char> {
    without_trailing_slashes(base) + seq!['/'] + without_leading_slashes(path)
}

/// Joins `base` and `path` with a single slash.
pub fn join_url(base: &str, path: &str) -> (r: String)
    ensures
        r@ == joined(base@, path@),
{
    let mut url = String::from_str(trim_trailing_slashes(base));
    proof {
        reveal_strlit("/");
        assert("/"@ =~= seq!['/']);
    }
    url.append("/");
    url.append(trim_leading_slashes(path));
    url
}

/// A joined address has one slash at the seam and no other next to it:
/// what stands before it is the start of `base` and does not end in a
/// slash, what stands behind it is the end of `path` and does not start
/// with one.
pub proof fn lemma_join_has_one_seam_slash(base: Seq<char>, path: Seq<char>)
    ensures
        ({
            let head = without_trailing_slashes(base);
            let tail = without_leading_slashes(path);
            &&& joined(base, path).len() == head.len() + 1 + tail.len()
            &&& joined(base, path)[head.len() as int] == '/'
            &&& joined(base, path).subrange(0, head.len() as int) == head
            &&& joined(base, path).subrange(head.len() as int + 1, joined(base, path).len() as int)
                == tail
            &&& head == base.subrange(0, head.len() as int)
            &&& tail == path.subrange(path.len() - tail.len(), path.len() as int)
            &&& head.len() > 0 ==> head.last() != '/'
            &&& tail.len() > 0 ==> tail.first() != '/'
        }),
{
    lemma_trailing_trim(base);
    lemma_leading_trim(path);
    let head = without_trailing_slashes(base);
    let tail = without_leading_slashes(path);
    let whole = joined(base, path);
    assert(whole.subrange(0, head.len() as int) =~= head);
    assert(whole.subrange(head.len() as int + 1, whole.len() as int) =~= tail);
}

/// Slashes at the seam do not change the joined address.
pub proof fn lemma_join_ignores_seam_slashes(base: Seq<char>, path: Seq<char>)
    ensures
        joined(base.push('/'), path) == joined(base, path),
        joined(base, seq!['/'] + path) == joined(base, path),
{
    assert(base.push('/').drop_last() == base);
    assert((seq!['/'] + path).drop_first() == path);
}

/// Whether `c` may stand in the value of a request header: a tab, or any
/// character from the space on but the delete character.
pub open spec fn header_char_ok(c: char) -> bool {
    c == '\t' || (' ' <= c && c != '\x7f')
}

/// Whether `s` may be sent as the value of a request header.
pub open spec fn header_value_ok(s: Seq<char>) -> bool {
    forall|i: int| 0 <= i < s.len() ==> header_char_ok(#[trigger] s[i])
}

/// A value put together from two parts may be sent exactly when both
/// parts may.
pub proof fn lemma_header_value_of_parts(front: Seq<char>, back: Seq<char>)
    ensures
        header_value_ok(front + back) <==> header_value_ok(front) && header_value_ok(back),
{
    let whole = front + back;
    if header_value_ok(whole) {
        assert forall|i: int| 0 <= i < front.len() implies header_char_ok(#[trigger] front[i]) by {
            assert(whole[i] == front[i]);
        }
        assert forall|i: int| 0 <= i < back.len() implies header_char_ok(#[trigger] back[i]) by {
            assert(whole[front.len() + i] == back[i]);
        }
    }
    if header_value_ok(front) && header_value_ok(back) {
        assert forall|i: int| 0 <= i < whole.len() implies header_char_ok(#[trigger] whole[i]) by {
            if i < front.len() {
                assert(whole[i] == front[i]);
            } else {
                assert(whole[i] == back[i - front.len()]);
            }
        }
    }
}

/// Tests whether `s` may be sent as the value of a request header.
pub fn is_header_value(s: &str) -> (r: bool)
    ensures
        r == header_value_ok(s@),
{
    let len: usize = s.unicode_len();
    let mut i: usize = 0;
    while i < len
        invariant
            i <= len,
            len == s@.len(),
            forall|j: int| 0 <= j < i ==> header_char_ok(#[trigger] s@[j]),
        decreases len - i,
    {
        let c = s.get_char(i);
        if !(c == '\t' || (' ' <= c && c != '\x7f')) {
            return false;
        }
        i = i + 1;
    }
    true
}

/// Whether two texts hold the same characters.
pub fn same_text(a: &str, b: &str) -> (r: bool)
    ensures
        r == (a@ == b@),
{
    let left = String::from_str(a);
    let right = String::from_str(b);
    left == right
}

/// `std::str::from_utf8`: the text that `bytes` encode, where they are
/// well-formed UTF-8, and nothing where they are not.
#[verifier::external_body]
pub(crate) fn utf8_text(bytes: &[u8]) -> (r: Option<&str>)
    ensures
        match r {
            Some(text) => valid_utf8(bytes@) && text@ == decode_utf8(bytes@),
            None => !valid_utf8(bytes@),
        },
{
    std::str::from_utf8(bytes).ok()
}

/// What `String::from_utf8_lossy` makes of `bytes`: their text, with a
/// replacement character for each stretch that is not well-formed UTF-8.
pub uninterp spec fn lossy_text(bytes: Seq<u8>) -> Seq<char>;

/// `String::from_utf8_lossy`. Well-formed UTF-8 is decoded as it stands;
/// of other bytes the contract only names the result.
#[verifier::external_body]
fn decode_lossy(bytes: &[u8]) -> (text: String)
    ensures
        text@ == lossy_text(bytes@),
        valid_utf8(bytes@) ==> text@ == decode_utf8(bytes@),
{
    String::from_utf8_lossy(bytes).into_owned()
}

/// The text that `bytes` are shown as: the text they encode, where they
/// are well-formed UTF-8, and what a lossy reading makes of them otherwise.
pub open spec fn shown_text(bytes: Seq<u8>) -> Seq<char> {
    if valid_utf8(bytes) {
        decode_utf8(bytes)
    } else {
        lossy_text(bytes)
    }
}

/// Reads `bytes` as text for showing.
pub fn show_bytes(bytes: &[u8]) -> (text: String)
    ensures
        text@ == shown_text(bytes@),
{
    decode_lossy(bytes)
}

} // verus!
