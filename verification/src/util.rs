//! Conversions between the platform's wide-character buffers and strings.

use crate::error::{MigError, MigErrorKind, MigErrorView};
use vstd::prelude::*;
use vstd::string::StrSliceExecFns;

verus! {

/// The text that `String::from_utf16_lossy` decodes from a run of UTF-16 code
/// units, unpaired surrogates replaced.
pub uninterp spec fn utf16_lossy(units: Seq<u16>) -> Seq<char>;

/// The UTF-16 code units that `str::encode_utf16` yields for a text.
pub uninterp spec fn utf16_units(text: Seq<char>) -> Seq<u16>;

/// Index of the first zero unit of `buf`, or the length of `buf` if no unit is
/// zero.
pub open spec fn nul_position(buf: Seq<u16>) -> nat
    decreases buf.len(),
{
    if buf.len() == 0 || buf[0] == 0 {
        0
    } else {
        1 + nul_position(buf.drop_first())
    }
}

/// Whether `buf` holds a terminating zero unit.
pub open spec fn terminated(buf: Seq<u16>) -> bool {
    nul_position(buf) < buf.len()
}

/// The segments of a zero-separated list: each segment ends before a zero unit,
/// and the list ends at the first empty segment or where the terminator is
/// missing.
pub open spec fn split_list(buf: Seq<u16>) -> Seq<Seq<u16>>
    decreases buf.len(),
{
    let n = nul_position(buf) as int;
    if 0 < n < buf.len() {
        seq![buf.take(n)] + split_list(buf.skip(n + 1))
    } else {
        Seq::empty()
    }
}

/// Each segment decoded.
pub open spec fn decoded(segments: Seq<Seq<u16>>) -> Seq<Seq<char>> {
    Seq::new(segments.len(), |i: int| utf16_lossy(segments[i]))
}

/// `text` without `prefix` in front, where `prefix` is given, not empty and
/// stands there.
pub open spec fn clip_front(text: Seq<char>, prefix: Option<Seq<char>>) -> Seq<char> {
    match prefix {
        Some(p) => if p.len() > 0 && p.is_prefix_of(text) {
            text.skip(p.len() as int)
        } else {
            text
        },
        None => text,
    }
}

/// `text` without `suffix` at its end, where `suffix` is given, not empty and
/// stands there.
pub open spec fn clip_back(text: Seq<char>, suffix: Option<Seq<char>>) -> Seq<char> {
    match suffix {
        Some(s) => if s.len() > 0 && s.is_suffix_of(text) {
            text.take(text.len() - s.len())
        } else {
            text
        },
        None => text,
    }
}

/// The text of a pattern, where one is given.
pub open spec fn pattern_text(pattern: Option<&str>) -> Option<Seq<char>> {
    match pattern {
        Some(text) => Some(text@),
        None => None,
    }
}

/// What [`nul_position`] is: no unit before it is zero, and the unit at it is
/// zero unless it is the end of the buffer.
pub proof fn lemma_nul_position(buf: Seq<u16>)
    ensures
        nul_position(buf) <= buf.len(),
        forall|j: int| 0 <= j < nul_position(buf) ==> buf[j] != 0,
        nul_position(buf) < buf.len() ==> buf[nul_position(buf) as int] == 0,
    decreases buf.len(),
{
    if buf.len() == 0 || buf[0] == 0 {
    } else {
        let rest = buf.drop_first();
        lemma_nul_position(rest);
        assert forall|j: int| 0 <= j < nul_position(buf) implies buf[j] != 0 by {
            if j > 0 {
                assert(buf[j] == rest[j - 1]);
            }
        }
        if nul_position(buf) < buf.len() {
            assert(buf[nul_position(buf) as int] == rest[nul_position(rest) as int]);
        }
    }
}

/// The first zero unit is found by what precedes it: if no unit before `i` is
/// zero and `i` is the end of the buffer or holds a zero, then `i` is the
/// [`nul_position`].
pub proof fn lemma_nul_position_is(buf: Seq<u16>, i: int)
    requires
        0 <= i <= buf.len(),
        forall|j: int| 0 <= j < i ==> buf[j] != 0,
        i < buf.len() ==> buf[i] == 0,
    ensures
        nul_position(buf) == i,
{
    lemma_nul_position(buf);
    let n = nul_position(buf) as int;
    if n < i {
        assert(buf[n] != 0);
    } else if i < n {
        assert(buf[i] == 0);
    }
}

/// The segments of a list are its strings: none is empty, and none holds a
/// zero unit.
pub proof fn lemma_split_list(buf: Seq<u16>)
    ensures
        forall|i: int|
            0 <= i < split_list(buf).len() ==> (#[trigger] split_list(buf)[i]).len() > 0,
        forall|i: int, j: int|
            0 <= i < split_list(buf).len() && 0 <= j < split_list(buf)[i].len()
                ==> #[trigger] split_list(buf)[i][j] != 0,
    decreases buf.len(),
{
    let n = nul_position(buf) as int;
    if 0 < n < buf.len() {
        let rest = buf.skip(n + 1);
        lemma_nul_position(buf);
        lemma_split_list(rest);
        let list = split_list(buf);
        assert(list =~= seq![buf.take(n)] + split_list(rest));
        assert forall|i: int| 0 <= i < list.len() implies (#[trigger] list[i]).len() > 0 by {
            if i > 0 {
                assert(list[i] == split_list(rest)[i - 1]);
            }
        }
        assert forall|i: int, j: int|
            0 <= i < list.len() && 0 <= j < list[i].len() implies #[trigger] list[i][j] != 0 by {
            if i > 0 {
                assert(list[i] == split_list(rest)[i - 1]);
                assert(split_list(rest)[i - 1][j] != 0);
            } else {
                assert(list[0][j] == buf[j]);
            }
        }
    }
}

/// `String::from_utf16_lossy`: decodes UTF-16 code units, replacing what is
/// not valid by U+FFFD. The result is [`utf16_lossy`] of the units.
#[verifier::external_body]
fn decode_utf16_lossy(units: &[u16]) -> (text: String)
    ensures
        text@ == utf16_lossy(units@),
{
    String::from_utf16_lossy(units)
}

/// `str::encode_utf16`: the UTF-16 code units of a text, collected. The result
/// is [`utf16_units`] of the text.
#[verifier::external_body]
fn encode_utf16(text: &str) -> (units: Vec<u16>)
    ensures
        units@ == utf16_units(text@),
{
    text.encode_utf16().collect()
}

/// `str::starts_with` for a string pattern: whether `prefix` stands at the
/// front of `text`.
#[verifier::external_body]
fn str_starts_with(text: &str, prefix: &str) -> (found: bool)
    ensures
        found == prefix@.is_prefix_of(text@),
{
    text.starts_with(prefix)
}

/// `str::ends_with` for a string pattern: whether `suffix` stands at the end
/// of `text`.
#[verifier::external_body]
fn str_ends_with(text: &str, suffix: &str) -> (found: bool)
    ensures
        found == suffix@.is_suffix_of(text@),
{
    text.ends_with(suffix)
}

/// Decodes a zero-terminated wide-character buffer: the units before the first
/// zero unit. A buffer without a zero unit is refused as an invalid parameter.
pub fn to_string(os_str_buf: &[u16]) -> (res: Result<String, MigError>)
    ensures
        match res {
            Ok(text) => terminated(os_str_buf@) && text@ == utf16_lossy(
                os_str_buf@.take(nul_position(os_str_buf@) as int),
            ),
            Err(err) => !terminated(os_str_buf@) && err@ == MigErrorView::bare(
                MigErrorKind::InvParam,
            ),
        },
{
    let mut i: usize = 0;
    while i < os_str_buf.len()
        invariant
            i <= os_str_buf@.len(),
            forall|j: int| 0 <= j < i ==> os_str_buf@[j] != 0,
        decreases os_str_buf@.len() - i,
    {
        if os_str_buf[i] == 0 {
            proof {
                lemma_nul_position_is(os_str_buf@, i as int);
            }
            return Ok(decode_utf16_lossy(&os_str_buf[0..i]));
        }
        i = i + 1;
    }
    proof {
        lemma_nul_position_is(os_str_buf@, i as int);
    }
    Err(MigError::from_kind(MigErrorKind::InvParam))
}

/// Decodes a list of zero-terminated strings that stand one after the other
/// in a wide-character buffer. The list ends at the first empty string; what
/// follows the last terminator is not part of it.
pub fn to_string_list(os_str_buf: &[u16]) -> (res: Result<Vec<String>, MigError>)
    ensures
        res matches Ok(list) && list.deep_view() == decoded(split_list(os_str_buf@)),
{
    let mut str_list: Vec<String> = Vec::new();
    let mut start: usize = 0;
    let mut curr: usize = 0;
    let ghost mut done: Seq<Seq<u16>> = Seq::empty();
    proof {
        assert(os_str_buf@.skip(0) =~= os_str_buf@);
        assert(str_list.deep_view() =~= decoded(done));
    }
    while curr < os_str_buf.len()
        invariant
            start <= curr <= os_str_buf@.len(),
            forall|j: int| start <= j < curr ==> os_str_buf@[j] != 0,
            split_list(os_str_buf@) == done + split_list(os_str_buf@.skip(start as int)),
            str_list.deep_view() == decoded(done),
        decreases os_str_buf@.len() - curr,
    {
        let ghost rest = os_str_buf@.skip(start as int);
        if os_str_buf[curr] == 0 {
            proof {
                lemma_nul_position_is(rest, curr - start);
            }
            if start < curr {
                let segment = &os_str_buf[start..curr + 1];
                proof {
                    lemma_nul_position_is(segment@, curr - start);
                }
                match to_string(segment) {
                    Ok(text) => {
                        proof {
                            let n = curr - start;
                            assert(segment@.take(n) =~= rest.take(n));
                            assert(rest.skip(n + 1) =~= os_str_buf@.skip(curr + 1));
                            assert(done + (seq![rest.take(n)] + split_list(rest.skip(n + 1)))
                                =~= done.push(rest.take(n)) + split_list(rest.skip(n + 1)));
                            done = done.push(rest.take(n));
                        }
                        let ghost before = str_list.deep_view();
                        str_list.push(text);
                        proof {
                            assert(str_list.deep_view() =~= before.push(text@));
                            assert(str_list.deep_view() =~= decoded(done));
                        }
                        start = curr + 1;
                    },
                    Err(err) => {
                        return Err(err);
                    },
                }
            } else {
                proof {
                    assert(done + Seq::<Seq<u16>>::empty() =~= done);
                }
                return Ok(str_list);
            }
        }
        curr = curr + 1;
    }
    proof {
        lemma_nul_position_is(os_str_buf@.skip(start as int), curr - start);
        assert(done + Seq::<Seq<u16>>::empty() =~= done);
    }
    Ok(str_list)
}

/// Cuts `clip_start` off the front of `clip_str` and then `clip_end` off the
/// end of what is left, each only where it is given, not empty and stands
/// there.
pub fn clip<'a>(clip_str: &'a str, clip_start: Option<&str>, clip_end: Option<&str>) -> (res:
    &'a str)
    ensures
        res@ == clip_back(clip_front(clip_str@, pattern_text(clip_start)), pattern_text(clip_end)),
{
    let mut work_str = clip_str;

    if let Some(s) = clip_start {
        if !s.is_empty() && str_starts_with(work_str, s) {
            let len = work_str.unicode_len();
            let cut = s.unicode_len();
            work_str = work_str.substring_char(cut, len);
            proof {
                assert(clip_str@.subrange(cut as int, len as int) =~= clip_str@.skip(cut as int));
            }
        }
    }
    if let Some(s) = clip_end {
        if !s.is_empty() && str_ends_with(work_str, s) {
            let len = work_str.unicode_len();
            let cut = s.unicode_len();
            let ghost whole = work_str@;
            work_str = work_str.substring_char(0, len - cut);
            proof {
                assert(whole.subrange(0, len - cut) =~= whole.take(len - cut));
            }
        }
    }
    work_str
}

/// The wide-character form of a text that platform calls take: its UTF-16 code
/// units and a terminating zero unit.
pub fn to_wide_cstring(text: &str) -> (wide: Vec<u16>)
    ensures
        wide@ == utf16_units(text@).push(0),
{
    let mut wide = encode_utf16(text);
    wide.push(0);
    wide
}

} // verus!
