//! The line grammar of the stored key/value (.env) file.
//!
//! Each line is `KEY=VALUE`; the key is trimmed and must be non-empty and
//! not a comment (a leading '#'); the value is trimmed and stripped of
//! surrounding double quotes, then of surrounding single quotes. Lines
//! without '=' are skipped. Rendering writes one `KEY=VALUE` line per
//! entry. The file I/O around this grammar lives in the surrounding
//! application.

use vstd::prelude::*;
use vstd::string::StrSliceExecFns;
use vstd::string::StringExecFns;

use crate::textutil::find_char;
use crate::textutil::spec_first_index_of;
use crate::textutil::trim_of;
use crate::textutil::trim_str;

verus! {

/// The string with every leading and every trailing occurrence of `c`
/// removed.
pub open spec fn spec_strip_char(s: Seq<char>, c: char) -> Seq<char>
    decreases s.len(),
{
    if s.len() > 0 && s[0] == c {
        spec_strip_char(s.drop_first(), c)
    } else if s.len() > 0 && s.last() == c {
        spec_strip_char(s.drop_last(), c)
    } else {
        s
    }
}

proof fn lemma_strip_char_range(s: Seq<char>, c: char, lo: int, hi: int)
    requires
        0 <= lo <= hi <= s.len(),
        forall|j: int| 0 <= j < lo ==> s[j] == c,
        forall|j: int| hi <= j < s.len() ==> s[j] == c,
        lo < hi ==> s[lo] != c,
        lo < hi ==> s[hi - 1] != c,
    ensures
        spec_strip_char(s, c) == s.subrange(lo, hi),
    decreases s.len(),
{
    if s.len() == 0 {
        assert(s.subrange(lo, hi) =~= s);
    } else if s[0] == c {
        if lo > 0 {
            let t = s.drop_first();
            assert(forall|j: int| 0 <= j < t.len() ==> t[j] == s[j + 1]);
            lemma_strip_char_range(t, c, lo - 1, hi - 1);
            assert(t.subrange(lo - 1, hi - 1) =~= s.subrange(lo, hi));
        } else {
            assert(!(lo < hi));
            let t = s.drop_first();
            assert(forall|j: int| 0 <= j < t.len() ==> t[j] == s[j + 1]);
            lemma_strip_char_range(t, c, 0, 0);
            assert(t.subrange(0, 0) =~= s.subrange(lo, hi));
        }
    } else if s.last() == c {
        assert(lo == 0);
        assert(hi < s.len());
        let t = s.drop_last();
        assert(forall|j: int| 0 <= j < t.len() ==> t[j] == s[j]);
        lemma_strip_char_range(t, c, 0, hi);
        assert(t.subrange(0, hi) =~= s.subrange(lo, hi));
    } else {
        assert(lo == 0);
        assert(hi == s.len());
        assert(s.subrange(0, s.len() as int) =~= s);
    }
}

/// Remove every leading and every trailing occurrence of a character.
fn strip_char<'a>(s: &'a str, c: char) -> (r: &'a str)
    ensures
        r@ == spec_strip_char(s@, c),
{
    let len = s.unicode_len();
    let mut lo: usize = 0;
    while lo < len && s.get_char(lo) == c
        invariant
            lo <= len,
            len == s@.len(),
            forall|j: int| 0 <= j < lo ==> s@[j] == c,
        decreases len - lo,
    {
        lo = lo + 1;
    }
    let mut hi: usize = len;
    while hi > lo && s.get_char(hi - 1) == c
        invariant
            lo <= hi <= len,
            len == s@.len(),
            forall|j: int| hi <= j < len ==> s@[j] == c,
        decreases hi,
    {
        hi = hi - 1;
    }
    proof {
        lemma_strip_char_range(s@, c, lo as int, hi as int);
    }
    s.substring_char(lo, hi)
}

/// The entry a line of the file defines, if any: the trimmed key (when
/// non-empty and not a comment) and the trimmed, quote-stripped value.
pub open spec fn spec_env_entry(line: Seq<char>) -> Option<(Seq<char>, Seq<char>)> {
    let i = spec_first_index_of(line, '=');
    if i < 0 {
        None
    } else {
        let key = trim_of(line.take(i));
        let value = spec_strip_char(spec_strip_char(trim_of(line.skip(i + 1)), '"'), '\'');
        if key.len() > 0 && key[0] != '#' {
            Some((key, value))
        } else {
            None
        }
    }
}

/// Parse one line of the file.
pub fn parse_env_entry(line: &str) -> (r: Option<(String, String)>)
    ensures
        spec_env_entry(line@) matches Some(kv) ==> (r matches Some(p) && p.0@ == kv.0 && p.1@
            == kv.1),
        spec_env_entry(line@) is None ==> r is None,
{
    let len = line.unicode_len();
    match find_char(line, '=') {
        None => None,
        Some(i) => {
            let key = trim_str(line.substring_char(0, i));
            let raw_value = trim_str(line.substring_char(i + 1, len));
            let value = strip_char(strip_char(raw_value, '"'), '\'');
            proof {
                assert(line@.subrange(0, i as int) =~= line@.take(i as int));
                assert(line@.subrange(i + 1, len as int) =~= line@.skip(i + 1));
            }
            if key.unicode_len() > 0 && key.get_char(0) != '#' {
                Some((String::from_str(key), String::from_str(value)))
            } else {
                None
            }
        },
    }
}

/// The rendered file: one `KEY=VALUE` line per entry, joined with
/// newlines.
pub open spec fn spec_env_render(entries: Seq<(String, String)>) -> Seq<char>
    decreases entries.len(),
{
    if entries.len() == 0 {
        Seq::empty()
    } else if entries.len() == 1 {
        entries[0].0@ + "="@ + entries[0].1@
    } else {
        spec_env_render(entries.drop_last()) + "\n"@ + entries.last().0@ + "="@ + entries.last().1@
    }
}

/// Render the entries, in the given order, as the file's text.
pub fn render_env_file(entries: &Vec<(String, String)>) -> (r: String)
    ensures
        r@ == spec_env_render(entries@),
{
    let mut out = String::new();
    let mut i: usize = 0;
    while i < entries.len()
        invariant
            i <= entries@.len(),
            out@ == spec_env_render(entries@.take(i as int)),
        decreases entries@.len() - i,
    {
        if i > 0 {
            out.append("\n");
        }
        let pair = &entries[i];
        out.append(pair.0.as_str());
        out.append("=");
        out.append(pair.1.as_str());
        proof {
            assert(entries@.take(i + 1).drop_last() =~= entries@.take(i as int));
            assert(entries@.take(i + 1).last() == entries@[i as int]);
            assert(out@ =~= spec_env_render(entries@.take(i + 1)));
        }
        i = i + 1;
    }
    proof {
        assert(entries@.take(entries@.len() as int) =~= entries@);
    }
    out
}

} // verus!
