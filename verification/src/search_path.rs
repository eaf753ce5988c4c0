//! The list of directories held in a Windows search-path variable.
//!
//! Entries are separated by `;`. A double quote opens or closes a quoted
//! region and is itself dropped; inside a quoted region `;` is an ordinary
//! character. Every separator ends an entry, so `a;` holds two entries, the
//! second one empty, and the empty text holds one empty entry.

use vstd::prelude::*;
use crate::text::{chars_of, texts};

verus! {

/// The entries of `text[at..]`, where `current` is what has been read of the
/// entry in progress and `quoted` says whether a quoted region is open.
pub open spec fn entries_from(text: Seq<char>, at: int, quoted: bool, current: Seq<char>) -> Seq<
    Seq<char>,
>
    decreases text.len() - at,
{
    if at < 0 || at >= text.len() {
        seq![current]
    } else if text[at] == '"' {
        entries_from(text, at + 1, !quoted, current)
    } else if text[at] == ';' && !quoted {
        seq![current] + entries_from(text, at + 1, false, Seq::empty())
    } else {
        entries_from(text, at + 1, quoted, current.push(text[at]))
    }
}

/// The directories that the search path `text` lists, in order.
pub open spec fn entries_of(text: Seq<char>) -> Seq<Seq<char>> {
    entries_from(text, 0, false, Seq::empty())
}

/// A search path always holds at least one entry.
pub proof fn lemma_entries_nonempty(text: Seq<char>, at: int, quoted: bool, current: Seq<char>)
    ensures
        entries_from(text, at, quoted, current).len() >= 1,
    decreases text.len() - at,
{
    if at < 0 || at >= text.len() {
    } else if text[at] == '"' {
        lemma_entries_nonempty(text, at + 1, !quoted, current);
    } else if text[at] == ';' && !quoted {
        lemma_entries_nonempty(text, at + 1, false, Seq::empty());
    } else {
        lemma_entries_nonempty(text, at + 1, quoted, current.push(text[at]));
    }
}

/// A search path without quotes or separators is its own single entry.
pub proof fn lemma_plain_text_is_one_entry(text: Seq<char>, at: int, current: Seq<char>)
    requires
        0 <= at <= text.len(),
        forall|i: int| at <= i < text.len() ==> text[i] != '"' && text[i] != ';',
    ensures
        entries_from(text, at, false, current) == seq![current + text.skip(at)],
    decreases text.len() - at,
{
    if at >= text.len() {
        assert(current + text.skip(at) =~= current);
    } else {
        lemma_plain_text_is_one_entry(text, at + 1, current.push(text[at]));
        assert(current.push(text[at]) + text.skip(at + 1) =~= current + text.skip(at));
    }
}

/// Splits the search path `text` into its directories.
pub fn split_search_path(text: &str) -> (out: Vec<String>)
    ensures
        texts(out@) == entries_of(text@),
        out.len() >= 1,
{
    let chars = chars_of(text);
    let mut out: Vec<String> = Vec::new();
    let mut current = String::new();
    let mut quoted = false;
    let mut from: usize = 0;
    let mut at: usize = 0;
    while at < chars.len()
        invariant
            chars@ == text@,
            from <= at <= chars.len(),
            entries_of(text@) == texts(out@) + entries_from(
                text@,
                at as int,
                quoted,
                current@ + text@.subrange(from as int, at as int),
            ),
        decreases chars.len() - at,
    {
        let c: char = chars[at];
        let ghost pending = current@ + text@.subrange(from as int, at as int);
        if c == '"' {
            current.append(text.substring_char(from, at));
            from = at + 1;
            quoted = !quoted;
            assert(current@ + text@.subrange(from as int, at + 1) =~= pending);
        } else if c == ';' && !quoted {
            current.append(text.substring_char(from, at));
            let ghost before = texts(out@);
            out.push(current);
            assert(texts(out@) =~= before + seq![pending]);
            current = String::new();
            from = at + 1;
            assert(current@ + text@.subrange(from as int, at + 1) =~= Seq::<char>::empty());
            assert(entries_of(text@) =~= texts(out@) + entries_from(
                text@,
                at + 1,
                false,
                Seq::empty(),
            ));
        } else {
            assert(current@ + text@.subrange(from as int, at + 1) =~= pending.push(text@[at as int]));
        }
        at = at + 1;
    }
    current.append(text.substring_char(from, at));
    let ghost before = texts(out@);
    out.push(current);
    assert(texts(out@) =~= before + seq![current@]);
    out
}

} // verus!
