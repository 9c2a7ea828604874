//! The note browser's own state: the notes directory, the live search
//! query, and the note being edited.
//!
//! The browser owns the query-matching rule for the autocomplete candidate
//! list: a file is a candidate when it is a note file (its name ends in the
//! `.snot` extension with a non-empty stem) and its name contains the query
//! as a substring.  Reading the directory and the files is the surrounding
//! application's business; the browser works on the names and contents it
//! is handed.

use vstd::prelude::*;

use crate::snote::SNote;

verus! {

/// `q` occurs at position `i` of `s`.
pub open spec fn spec_match_at(s: Seq<char>, q: Seq<char>, i: int) -> bool {
    s.subrange(i, i + q.len()) == q
}

/// `q` occurs somewhere in `s`.  The empty query occurs in every string.
pub open spec fn spec_contains_str(s: Seq<char>, q: Seq<char>) -> bool {
    exists|i: int| 0 <= i <= s.len() - q.len() && spec_match_at(s, q, i)
}

/// The name ends in the `.snot` extension.  The dot must not be the name's
/// first character: a bare `.snot` is a hidden file without an extension.
pub open spec fn spec_has_snot_ext(s: Seq<char>) -> bool {
    &&& s.len() >= 6
    &&& s[s.len() - 5] == '.'
    &&& s[s.len() - 4] == 's'
    &&& s[s.len() - 3] == 'n'
    &&& s[s.len() - 2] == 'o'
    &&& s[s.len() - 1] == 't'
}

/// A file name is an autocomplete candidate for `query`.
pub open spec fn spec_note_matches(name: Seq<char>, query: Seq<char>) -> bool {
    spec_has_snot_ext(name) && spec_contains_str(name, query)
}

/// The candidate predicate for one query, as a function on file names.
pub open spec fn matches_pred(query: Seq<char>) -> spec_fn(String) -> bool {
    |f: String| spec_note_matches(f@, query)
}

/// Whether `q` occurs in `s` as a substring of its characters.
pub fn str_contains(s: &str, q: &str) -> (r: bool)
    ensures
        r == spec_contains_str(s@, q@),
{
    let sl = s.unicode_len();
    let ql = q.unicode_len();
    if ql > sl {
        return false;
    }
    let mut start: usize = 0;
    while start <= sl - ql
        invariant
            sl == s@.len(),
            ql == q@.len(),
            ql <= sl,
            start <= sl - ql + 1,
            forall|i: int| 0 <= i < start ==> !spec_match_at(s@, q@, i),
        decreases sl - ql - start + 1,
    {
        let mut j: usize = 0;
        let mut hit = true;
        while j < ql
            invariant
                sl == s@.len(),
                ql == q@.len(),
                start + ql <= sl,
                j <= ql,
                hit ==> forall|k: int| 0 <= k < j ==> s@[start + k] == q@[k],
                !hit ==> exists|m: int| 0 <= m < ql && s@[start + m] != q@[m],
            decreases ql - j,
        {
            if s.get_char(start + j) != q.get_char(j) {
                hit = false;
                j = ql;
            } else {
                j = j + 1;
            }
        }
        if hit {
            proof {
                assert(s@.subrange(start as int, start + ql) =~= q@);
                assert(spec_match_at(s@, q@, start as int));
            }
            return true;
        }
        proof {
            if spec_match_at(s@, q@, start as int) {
                let m = choose|m: int| 0 <= m < ql && s@[start + m] != q@[m];
                assert(s@.subrange(start as int, start + ql)[m] == q@[m]);
                assert(false);
            }
        }
        start = start + 1;
    }
    false
}

/// Whether a file name carries the `.snot` extension.
pub fn has_snot_extension(name: &str) -> (r: bool)
    ensures
        r == spec_has_snot_ext(name@),
{
    let len = name.unicode_len();
    if len < 6 {
        return false;
    }
    name.get_char(len - 5) == '.' && name.get_char(len - 4) == 's' && name.get_char(len - 3) == 'n'
        && name.get_char(len - 2) == 'o' && name.get_char(len - 1) == 't'
}

/// The note browser.  One instance backs one window: a directory of notes,
/// a search query typed into the search bar, and at most one note open for
/// editing, remembered together with the path it was read from.
#[derive(Debug)]
pub struct Snotter {
    /// The directory the notes live in.
    pub snots_dir: String,
    /// The live text of the search bar.
    pub search_query: String,
    /// The path and contents of the note being edited, if any.
    pub note: (Option<String>, Option<SNote>),
}

impl Default for Snotter {
    fn default() -> (r: Self)
        ensures
            r.snots_dir@.len() == 0,
            r.search_query@.len() == 0,
            r.note.0 is None,
            r.note.1 is None,
    {
        Snotter { snots_dir: String::new(), search_query: String::new(), note: (None, None) }
    }
}

impl Snotter {
    /// The autocomplete candidates among the given directory entries: the
    /// note files whose name contains the current query, in directory
    /// order.  The caller supplies the file names of the notes directory.
    pub fn get_matching_notes(&self, entries: &Vec<String>) -> (r: Vec<String>)
        ensures
            r@ == entries@.filter(matches_pred(self.search_query@)),
    {
        let mut out: Vec<String> = Vec::new();
        let mut k: usize = 0;
        proof {
            assert(entries@.take(0int).filter(matches_pred(self.search_query@)) =~= Seq::empty());
        }
        while k < entries.len()
            invariant
                k <= entries@.len(),
                out@ == entries@.take(k as int).filter(matches_pred(self.search_query@)),
            decreases entries@.len() - k,
        {
            let name = &entries[k];
            let keep = has_snot_extension(name.as_str()) && str_contains(
                name.as_str(),
                self.search_query.as_str(),
            );
            proof {
                broadcast use vstd::seq::Seq::lemma_take_succ_push;
                broadcast use vstd::seq::Seq::lemma_filter_push;

                assert(keep == matches_pred(self.search_query@)(entries@[k as int]));
            }
            if keep {
                out.push(name.clone());
            }
            k = k + 1;
        }
        proof {
            assert(entries@.take(entries@.len() as int) =~= entries@);
        }
        out
    }

    /// Take over the candidate the autocomplete committed: the query becomes
    /// the chosen path, and the note under that path, with the contents the
    /// caller read for it, becomes the note being edited.
    pub fn select_file_from_autocomplete(&mut self, chosen: String, contents: &str)
        ensures
            final(self).snots_dir == old(self).snots_dir,
            final(self).search_query == chosen,
            final(self).note.0 matches Some(p) && p == chosen,
            final(self).note.1 matches Some(n) && n.raw_content@ == contents@ && n.spec_wf(),
    {
        let note = match SNote::from_str(contents) {
            Ok(n) => n,
            Err(_) => SNote::new(),
        };
        self.search_query = chosen.clone();
        self.note = (Some(chosen), Some(note));
    }
}

} // verus!
