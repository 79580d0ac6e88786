//! Splitting the rhotic suffix off: an iterator that yields the `r` of a
//! rhotic syllable as an element of its own.

use crate::error::ParseError;
use crate::parser::{lemma_pull_advances, text_of, IterModel, PinyinParserIter, Pull};
use vstd::prelude::*;
use vstd::string::StrSliceExecFns;

verus! {

/// Whether a text is one of `er`, `ēr`, `ér`, `ěr`, `èr`: the syllables
/// whose `r` is no suffix.
pub open spec fn is_er_root(text: Seq<char>) -> bool {
    &&& text.len() == 2
    &&& text[1] == 'r'
    &&& (text[0] == 'e' || text[0] == '\u{113}' || text[0] == '\u{e9}' || text[0] == '\u{11b}'
        || text[0] == '\u{e8}')
}

/// Whether a text ends in an `r` that is split off.
pub open spec fn splits_r(text: Seq<char>) -> bool {
    text.len() > 0 && text.last() == 'r' && !is_er_root(text)
}

/// The text without the `r` that is split off, or the text as it is.
pub open spec fn head_of(text: Seq<char>) -> Seq<char> {
    if splits_r(text) {
        text.drop_last()
    } else {
        text
    }
}

/// The one or two elements that a text becomes.
pub open spec fn split_one(text: Seq<char>) -> Seq<Seq<char>> {
    if splits_r(text) {
        seq![text.drop_last(), seq!['r']]
    } else {
        seq![text]
    }
}

/// The elements that a list of texts becomes, text by text.
pub open spec fn split_all(texts: Seq<Seq<char>>) -> Seq<Seq<char>>
    decreases texts.len(),
{
    if texts.len() == 0 {
        seq![]
    } else {
        split_one(texts.first()) + split_all(texts.drop_first())
    }
}

/// A list of elements put together again: each `r` that has an element
/// before it is glued onto that element.
pub open spec fn glue(parts: Seq<Seq<char>>) -> Seq<Seq<char>>
    decreases parts.len(),
{
    if parts.len() == 0 {
        seq![]
    } else {
        let before = glue(parts.drop_last());
        if parts.last() =~= seq!['r'] && before.len() > 0 {
            before.drop_last().push(before.last() + seq!['r'])
        } else {
            before.push(parts.last())
        }
    }
}

/// Splitting goes text by text, so the elements of a list that ends in
/// `text` are those of the list before it and then those of `text`.
pub proof fn lemma_split_all_push(texts: Seq<Seq<char>>, text: Seq<char>)
    ensures
        split_all(texts.push(text)) == split_all(texts) + split_one(text),
    decreases texts.len(),
{
    if texts.len() == 0 {
        assert(texts.push(text).drop_first() =~= seq![]);
        assert(split_all(texts.push(text)) =~= split_one(text) + split_all(seq![]));
    } else {
        assert(texts.push(text).drop_first() =~= texts.drop_first().push(text));
        lemma_split_all_push(texts.drop_first(), text);
        assert(split_all(texts.push(text)) =~= split_all(texts) + split_one(text));
    }
}

/// Gluing undoes splitting: the elements of a list of texts, with each `r`
/// glued back, are the texts again. The one text that does not come back
/// is `rr`, whose first `r` would be taken for a suffix; no syllable is
/// written so.
pub proof fn lemma_glue_undoes_split(texts: Seq<Seq<char>>)
    requires
        forall|i: int| 0 <= i < texts.len() ==> !(#[trigger] texts[i] =~= seq!['r', 'r']),
    ensures
        glue(split_all(texts)) == texts,
    decreases texts.len(),
{
    if texts.len() > 0 {
        let init = texts.drop_last();
        let last = texts.last();
        assert(texts =~= init.push(last));
        lemma_glue_undoes_split(init);
        lemma_split_all_push(init, last);
        let parts = split_all(texts);
        if splits_r(last) {
            let head = last.drop_last();
            let upto = split_all(init).push(head);
            assert(parts =~= upto.push(seq!['r']));
            assert(parts.drop_last() =~= upto);
            assert(upto.drop_last() =~= split_all(init));
            assert(!(head =~= seq!['r'])) by {
                if head =~= seq!['r'] {
                    assert(last =~= head.push('r'));
                    assert(last =~= seq!['r', 'r']);
                    assert(texts[texts.len() - 1] =~= seq!['r', 'r']);
                }
            }
            assert(upto.last() == head);
            assert(glue(upto.drop_last()) == init);
            assert(glue(upto) =~= init.push(head));
            assert(head + seq!['r'] =~= last);
            assert(glue(parts) =~= texts);
        } else {
            assert(parts =~= split_all(init).push(last));
            assert(parts.drop_last() =~= split_all(init));
            assert(!(last =~= seq!['r']));
            assert(parts.last() == last);
            assert(glue(parts.drop_last()) == init);
            assert(glue(parts) =~= texts);
        }
    }
}

/// The mathematical model of [`PinyinParserIterWithSplitR`].
pub struct SplitModel {
    /// The iterator whose texts are split.
    pub inner: IterModel,
    /// Whether the `r` of the text that was pulled last is still to be
    /// yielded.
    pub pending_r: bool,
}

impl SplitModel {
    /// Whether `text` and `after` are what a pull from `self` owes. The `r`
    /// that is pending comes first; else the next text of the inner
    /// iterator is pulled and its head is yielded.
    pub open spec fn pulls(self, text: Option<Seq<char>>, after: SplitModel) -> bool {
        if self.pending_r {
            &&& text == Some(seq!['r'])
            &&& after.inner == self.inner
            &&& !after.pending_r
        } else {
            match self.inner.pull() {
                Pull::Syllable { text: whole, .. } | Pull::Kept { text: whole, .. } => {
                    &&& text == Some(head_of(whole))
                    &&& after.pending_r == splits_r(whole)
                    &&& self.inner.pulls(Some(whole), after.inner)
                },
                _ => {
                    &&& text is None
                    &&& !after.pending_r
                    &&& self.inner.pulls(None, after.inner)
                },
            }
        }
    }

    /// Everything that is still to come: the pending `r`, and then the
    /// elements of all the texts that the inner iterator has left; or the
    /// error.
    pub open spec fn rest(self) -> Result<Seq<Seq<char>>, ParseError> {
        match self.inner.rest() {
            Ok(texts) => Ok(
                if self.pending_r {
                    seq![seq!['r']] + split_all(texts)
                } else {
                    split_all(texts)
                },
            ),
            Err(e) => Err(e),
        }
    }
}

/// What a splitting iterator yields, glued, is what the iterator that it
/// was made from yields: where the inner run comes to the end and none of
/// its texts is `rr`, the split run comes to the end too, and its elements
/// with each `r` glued back are the texts of the inner run.
pub proof fn lemma_split_run_glues_back(m: SplitModel)
    requires
        !m.pending_r,
        m.inner.rest() is Ok,
        forall|i: int|
            0 <= i < m.inner.rest()->Ok_0.len() ==> !(#[trigger] m.inner.rest()->Ok_0[i]
                =~= seq!['r', 'r']),
    ensures
        m.rest() is Ok,
        glue(m.rest()->Ok_0) == m.inner.rest()->Ok_0,
{
    lemma_glue_undoes_split(m.inner.rest()->Ok_0);
}

/// The syllables of a text one by one, with the `r` of each rhotic syllable
/// as an element of its own.
pub struct PinyinParserIterWithSplitR {
    iter: PinyinParserIter,
    next_is_r: bool,
}

impl View for PinyinParserIterWithSplitR {
    type V = SplitModel;

    closed spec fn view(&self) -> SplitModel {
        SplitModel { inner: self.iter@, pending_r: self.next_is_r }
    }
}

/// Tests whether a text is `er` in one of its five tones.
pub fn er_root(s: &str) -> (b: bool)
    ensures
        b == is_er_root(s@),
{
    if s.unicode_len() != 2 {
        return false;
    }
    let vowel = s.get_char(0);
    s.get_char(1) == 'r' && (vowel == 'e' || vowel == '\u{113}' || vowel == '\u{e9}' || vowel
        == '\u{11b}' || vowel == '\u{e8}')
}

/// Takes a final `r` off a text, if it has one.
pub fn strip_r(s: &str) -> (rest: Option<String>)
    ensures
        match rest {
            Some(rest) => s@.len() > 0 && s@.last() == 'r' && rest@ == s@.drop_last(),
            None => !(s@.len() > 0 && s@.last() == 'r'),
        },
{
    let n = s.unicode_len();
    if n > 0 && s.get_char(n - 1) == 'r' {
        let rest = s.substring_char(0, n - 1).to_owned();
        assert(s@.subrange(0, n - 1) =~= s@.drop_last());
        Some(rest)
    } else {
        None
    }
}

impl PinyinParserIter {
    /// Turns the iterator into one that yields the rhotic `r` by itself.
    #[must_use]
    pub fn split_erhua(self) -> (it: PinyinParserIterWithSplitR)
        ensures
            it@ == (SplitModel { inner: self@, pending_r: false }),
    {
        PinyinParserIterWithSplitR { iter: self, next_is_r: false }
    }
}

impl PinyinParserIterWithSplitR {
    /// The error that ended the iteration, if one did.
    pub fn error(&self) -> (e: Option<ParseError>)
        ensures
            e == self@.inner.failure,
    {
        self.iter.error()
    }

    /// Yields the next element: a syllable without its rhotic `r`, that
    /// `r`, or a grapheme that the configuration keeps. `None` is the end
    /// of the text, or a failure.
    pub fn next(&mut self) -> (r: Option<String>)
        ensures
            old(self)@.pulls(text_of(r), final(self)@),
    {
        if self.next_is_r {
            self.next_is_r = false;
            proof {
                reveal_strlit("r");
                assert("r"@ =~= seq!['r']);
            }
            return Some("r".to_owned());
        }
        let ans = match self.iter.next() {
            Some(ans) => ans,
            None => {
                return None;
            },
        };
        if er_root(ans.as_str()) {
            return Some(ans);
        }
        match strip_r(ans.as_str()) {
            Some(rest) => {
                self.next_is_r = true;
                Some(rest)
            },
            None => Some(ans),
        }
    }

    /// Pulls until the text is used up and returns all the elements, or
    /// the error that ended the iteration.
    pub fn collect(self) -> (r: Result<Vec<String>, ParseError>)
        ensures
            match self@.rest() {
                Ok(parts) => r matches Ok(v) && v.deep_view() == parts,
                Err(e) => r matches Err(e2) && e2 == e,
            },
    {
        let mut it = self;
        let mut parts: Vec<String> = Vec::new();
        loop
            invariant_except_break
                self@.rest() == (match it@.rest() {
                    Ok(more) => Ok(parts.deep_view() + more),
                    Err(e) => Err(e),
                }),
            ensures
                self@.rest() == (match it@.inner.failure {
                    Some(e) => Err(e),
                    None => Ok(parts.deep_view()),
                }),
            decreases
                it@.inner.atoms.len() - it@.inner.position,
                if it@.pending_r { 1int } else { 0int },
        {
            let ghost before = it@;
            let ghost had = parts.deep_view();
            match it.next() {
                Some(part) => {
                    parts.push(part);
                    assert(parts.deep_view() =~= had.push(part@));
                    proof {
                        lemma_rest_after_pull(before, part@, it@);
                        lemma_pull_advances(
                            before.inner.atoms,
                            before.inner.position,
                            before.inner.state,
                            before.inner.config,
                        );
                    }
                    assert(forall|more: Seq<Seq<char>>|
                        had + (seq![part@] + more) =~= #[trigger] (had.push(part@) + more));
                },
                None => {
                    assert(had + Seq::<Seq<char>>::empty() =~= had);
                    assert(split_all(Seq::<Seq<char>>::empty()) =~= Seq::<Seq<char>>::empty());
                    break ;
                },
            }
        }
        match it.error() {
            Some(e) => Err(e),
            None => Ok(parts),
        }
    }
}

/// What is still to come before a pull that yields `part` is `part` and
/// then what is still to come after it.
pub proof fn lemma_rest_after_pull(before: SplitModel, part: Seq<char>, after: SplitModel)
    requires
        before.pulls(Some(part), after),
    ensures
        before.rest() == (match after.rest() {
            Ok(more) => Ok(seq![part] + more),
            Err(e) => Err(e),
        }),
{
    if !before.pending_r {
        match before.inner.pull() {
            Pull::Syllable { text: whole, .. } | Pull::Kept { text: whole, .. } => {
                match after.inner.rest() {
                    Ok(more) => {
                        let texts = seq![whole] + more;
                        assert(before.inner.rest() == Ok::<Seq<Seq<char>>, ParseError>(texts));
                        assert(texts.drop_first() =~= more);
                        assert(split_all(texts) =~= split_one(whole) + split_all(more));
                        if splits_r(whole) {
                            assert(split_one(whole) + split_all(more) =~= seq![part]
                                + (seq![seq!['r']] + split_all(more)));
                        }
                    },
                    Err(e) => {},
                }
            },
            _ => {},
        }
    }
}

} // verus!
