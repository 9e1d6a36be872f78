//! The release check: reading the published crate-index entry out of a
//! fetched index body and comparing its version against the running one.

use vstd::prelude::*;

use crate::text::chars_of;
use crate::text::string_from_chars;

verus! {

/// A crate-index entry: the published name and version.
#[derive(Debug, Clone, PartialEq, Eq)]
pub struct IndexEntry {
    pub name: String,
    pub version: String,
}

/// Mathematical view of an [`IndexEntry`].
#[verifier::ext_equal]
pub struct IndexEntryView {
    pub name: Seq<char>,
    pub version: Seq<char>,
}

impl View for IndexEntry {
    type V = IndexEntryView;

    open spec fn view(&self) -> IndexEntryView {
        IndexEntryView { name: self.name@, version: self.version@ }
    }
}

impl DeepView for IndexEntry {
    type V = IndexEntryView;

    open spec fn deep_view(&self) -> IndexEntryView {
        self.view()
    }
}

/// The text after the last line break, or all of it where none occurs.
pub open spec fn suffix_after_newline(s: Seq<char>) -> Seq<char>
    decreases s.len(),
{
    if s.len() == 0 {
        Seq::empty()
    } else if s.last() == '\n' {
        Seq::empty()
    } else {
        suffix_after_newline(s.drop_last()) + seq![s.last()]
    }
}

/// The last line of a text: `None` only for the empty text; one trailing
/// line break opens no further line, and a carriage return before a line
/// break does not count as line content.
pub open spec fn spec_last_line(s: Seq<char>) -> Option<Seq<char>> {
    if s.len() == 0 {
        None
    } else {
        let t = if s.last() == '\n' {
            s.drop_last()
        } else {
            s
        };
        let u = suffix_after_newline(t);
        if u.len() > 0 && u.last() == '\r' {
            Some(u.drop_last())
        } else {
            Some(u)
        }
    }
}

/// Takes the last line of a text, as [`spec_last_line`] gives it.
pub fn last_line(s: &str) -> (r: Option<String>)
    ensures
        match r {
            Some(line) => spec_last_line(s@) == Some(line@),
            None => s@.len() == 0,
        },
{
    let v = chars_of(s);
    let n = v.len();
    if n == 0 {
        return None;
    }
    let end: usize = if v[n - 1] == '\n' {
        n - 1
    } else {
        n
    };
    let mut start: usize = 0;
    for i in 0..end
        invariant
            n == v@.len(),
            v@ == s@,
            end <= n,
            start <= i,
            suffix_after_newline(v@.take(i as int)) =~= v@.subrange(start as int, i as int),
    {
        if v[i] == '\n' {
            start = i + 1;
        }
        proof {
            assert(v@.take(i + 1).drop_last() =~= v@.take(i as int));
            assert(v@.take(i + 1).last() == v@[i as int]);
            assert(suffix_after_newline(v@.take(i + 1)) =~= v@.subrange(start as int, i + 1));
        }
    }
    proof {
        assert(v@.take(end as int) =~= (if s@.last() == '\n' {
            s@.drop_last()
        } else {
            s@
        }));
    }
    let mut end2 = end;
    if end2 > start && v[end2 - 1] == '\r' {
        end2 = end2 - 1;
        proof {
            let u = v@.subrange(start as int, end as int);
            assert(u.len() > 0 && u.last() == '\r');
            assert(u.drop_last() =~= v@.subrange(start as int, end2 as int));
        }
    }
    let mut out: Vec<char> = Vec::new();
    for j in start..end2
        invariant
            n == v@.len(),
            start <= end2 <= n,
            out@ =~= v@.subrange(start as int, j as int),
    {
        out.push(v[j]);
        proof {
            assert(out@ =~= v@.subrange(start as int, j + 1));
        }
    }
    Some(string_from_chars(&out))
}

/// The crate name and version that one line of a crate-index response
/// carries, where it parses and holds string fields `name` and `vers`.
pub uninterp spec fn index_entry_of(line: Seq<char>) -> Option<(Seq<char>, Seq<char>)>;

/// Relies on `serde_json::from_str` parsing into a `serde_json::Value` and
/// on `Value::get` and `Value::as_str`: parsing a fixed line is
/// deterministic, so which `name` and `vers` string fields are found — or
/// that none are — is a function of the line alone.
#[verifier::external_body]
fn parse_index_entry(line: &str) -> (r: Option<IndexEntry>)
    ensures
        match r {
            Some(e) => index_entry_of(line@) == Some((e.name@, e.version@)),
            None => index_entry_of(line@) is None,
        },
{
    let value: serde_json::Value = match serde_json::from_str(line) {
        Ok(value) => value,
        Err(_) => return None,
    };
    let name = match value.get("name").and_then(serde_json::Value::as_str) {
        Some(s) => s.to_string(),
        None => return None,
    };
    let version = match value.get("vers").and_then(serde_json::Value::as_str) {
        Some(s) => s.to_string(),
        None => return None,
    };
    Some(IndexEntry { name, version })
}

/// Reads the published entry out of a fetched crate-index body: the body's
/// last line names the newest release.
pub fn crate_index_entry(body: &str) -> (r: Option<IndexEntry>)
    ensures
        match r {
            Some(e) => (match spec_last_line(body@) {
                Some(line) => index_entry_of(line) == Some((e.name@, e.version@)),
                None => false,
            }),
            None => (match spec_last_line(body@) {
                Some(line) => index_entry_of(line) is None,
                None => true,
            }),
        },
{
    let line = match last_line(body) {
        Some(line) => line,
        None => {
            return None;
        },
    };
    parse_index_entry(line.as_str())
}

/// Whether the running version is the published one: exact equality of the
/// version texts.
pub fn version_is_latest(current: &str, entry: &IndexEntry) -> (r: bool)
    ensures
        r == (current@ == entry.version@),
{
    let cur = current.to_owned();
    cur == entry.version
}

} // verus!
