//! Helpers shared by the migration steps: text normalisation of names.

pub mod account_account_cache;
pub mod account_journal_cache;
pub mod crm_stage_cache;
pub mod id_mapping;
pub mod iterate_chunks;
pub mod partner_cache;
pub mod product;
pub mod product_tag_cache;
pub mod search_domains;
pub mod tax_cache;

use vstd::prelude::*;

use crate::error::MigrationError;
use crate::pattern::{regex_compiles, regex_replace, regex_replace_first};

verus! {

/// `c` is a Unicode `White_Space` character, the set that
/// `char::is_whitespace` and `str::split_whitespace` use.
pub open spec fn is_whitespace_char(c: char) -> bool {
    ||| ('\u{9}' <= c && c <= '\u{d}')
    ||| c == ' '
    ||| c == '\u{85}'
    ||| c == '\u{a0}'
    ||| c == '\u{1680}'
    ||| ('\u{2000}' <= c && c <= '\u{200a}')
    ||| c == '\u{2028}'
    ||| c == '\u{2029}'
    ||| c == '\u{202f}'
    ||| c == '\u{205f}'
    ||| c == '\u{3000}'
}

/// The words of `s`: its maximal runs of non-whitespace characters, in order.
pub open spec fn words(s: Seq<char>) -> Seq<Seq<char>>
    decreases s.len(),
{
    if s.len() == 0 {
        seq![]
    } else {
        let prev = words(s.drop_last());
        let c = s.last();
        if is_whitespace_char(c) {
            prev
        } else if s.len() >= 2 && !is_whitespace_char(s[s.len() - 2]) {
            prev.update(prev.len() - 1, prev.last().push(c))
        } else {
            prev.push(seq![c])
        }
    }
}

/// The words of `ws` joined by single spaces.
pub open spec fn join_words(ws: Seq<Seq<char>>) -> Seq<char>
    decreases ws.len(),
{
    if ws.len() == 0 {
        seq![]
    } else if ws.len() == 1 {
        ws[0]
    } else {
        join_words(ws.drop_last()) + seq![' '] + ws.last()
    }
}

/// `s` with leading and trailing whitespace removed and every inner run of
/// whitespace replaced by one space.
pub open spec fn collapse_whitespace(s: Seq<char>) -> Seq<char> {
    join_words(words(s))
}

/// Every word is non-empty and holds no whitespace, and a text that ends in
/// a non-whitespace character has at least one word.
pub proof fn lemma_words_shape(s: Seq<char>)
    ensures
        forall|j: int| 0 <= j < words(s).len() ==> #[trigger] words(s)[j].len() > 0,
        forall|j: int, k: int|
            0 <= j < words(s).len() && 0 <= k < words(s)[j].len() ==> !is_whitespace_char(
                #[trigger] words(s)[j][k],
            ),
        s.len() > 0 && !is_whitespace_char(s.last()) ==> words(s).len() > 0,
    decreases s.len(),
{
    if s.len() > 0 {
        let p = s.drop_last();
        lemma_words_shape(p);
        if s.len() >= 2 && !is_whitespace_char(s[s.len() - 2]) {
            assert(p.last() == s[s.len() - 2]);
        }
        let ws = words(s);
        let pw = words(p);
        assert forall|j: int, k: int|
            0 <= j < ws.len() && 0 <= k < ws[j].len() implies !is_whitespace_char(
            #[trigger] ws[j][k],
        ) by {
            if !is_whitespace_char(s.last()) && j == ws.len() - 1 {
                if s.len() >= 2 && !is_whitespace_char(s[s.len() - 2]) {
                    if k < pw.last().len() {
                        assert(ws[j][k] == pw[j][k]);
                    }
                }
            } else {
                assert(ws[j] == pw[j]);
            }
        }
    }
}

/// Joining words that are all non-empty gives an empty text exactly when
/// there is no word.
proof fn lemma_join_empty(ws: Seq<Seq<char>>)
    requires
        forall|j: int| 0 <= j < ws.len() ==> #[trigger] ws[j].len() > 0,
    ensures
        (join_words(ws).len() == 0) <==> (ws.len() == 0),
{
    if ws.len() >= 2 {
        assert(ws.last().len() > 0);
    } else if ws.len() == 1 {
        assert(ws[0].len() > 0);
    }
}

/// Extending the last word by a character extends the joined text by it.
proof fn lemma_join_extend_last(ws: Seq<Seq<char>>, c: char)
    requires
        ws.len() > 0,
    ensures
        join_words(ws.update(ws.len() - 1, ws.last().push(c))) == join_words(ws).push(c),
{
    let nws = ws.update(ws.len() - 1, ws.last().push(c));
    if ws.len() >= 2 {
        assert(nws.drop_last() == ws.drop_last());
        assert(join_words(nws) == join_words(ws.drop_last()) + seq![' '] + ws.last().push(c));
    }
}

/// Appending a word adds a separating space unless it is the first word.
proof fn lemma_join_push(ws: Seq<Seq<char>>, w: Seq<char>)
    ensures
        join_words(ws.push(w)) == (if ws.len() == 0 {
            w
        } else {
            join_words(ws) + seq![' '] + w
        }),
{
    assert(ws.push(w).drop_last() == ws);
}

/// Appending a word `b` (non-empty, no whitespace) to a text that is empty
/// or ends in whitespace adds exactly that word.
proof fn lemma_words_append_word(t: Seq<char>, b: Seq<char>)
    requires
        b.len() > 0,
        forall|k: int| 0 <= k < b.len() ==> !is_whitespace_char(#[trigger] b[k]),
        t.len() == 0 || is_whitespace_char(t.last()),
    ensures
        words(t + b) == words(t).push(b),
    decreases b.len(),
{
    let c = b.last();
    let bp = b.drop_last();
    assert((t + b).drop_last() == t + bp);
    assert((t + b).last() == c);
    if bp.len() == 0 {
        assert(t + bp == t);
        assert(b == seq![c]);
    } else {
        lemma_words_append_word(t, bp);
        assert((t + b)[(t + b).len() - 2] == bp.last());
        assert(bp.push(c) == b);
    }
}

/// Splitting joined words gives back the words, when each word is non-empty
/// and free of whitespace.
proof fn lemma_words_of_join(ws: Seq<Seq<char>>)
    requires
        forall|j: int| 0 <= j < ws.len() ==> #[trigger] ws[j].len() > 0,
        forall|j: int, k: int|
            0 <= j < ws.len() && 0 <= k < ws[j].len() ==> !is_whitespace_char(#[trigger] ws[j][k]),
    ensures
        words(join_words(ws)) == ws,
    decreases ws.len(),
{
    if ws.len() == 0 {
    } else if ws.len() == 1 {
        let w = ws[0];
        assert forall|k: int| 0 <= k < w.len() implies !is_whitespace_char(#[trigger] w[k]) by {
            assert(w[k] == ws[0][k]);
        }
        lemma_words_append_word(Seq::<char>::empty(), w);
        assert(Seq::<char>::empty() + w == w);
        assert(ws == Seq::<Seq<char>>::empty().push(w));
    } else {
        let init = ws.drop_last();
        let w = ws.last();
        assert forall|k: int| 0 <= k < w.len() implies !is_whitespace_char(#[trigger] w[k]) by {
            assert(w[k] == ws[ws.len() - 1][k]);
        }
        assert forall|j: int, k: int|
            0 <= j < init.len() && 0 <= k < init[j].len() implies !is_whitespace_char(
            #[trigger] init[j][k],
        ) by {
            assert(init[j] == ws[j]);
        }
        lemma_words_of_join(init);
        let t = join_words(init) + seq![' '];
        assert(t.drop_last() == join_words(init));
        assert(is_whitespace_char(t.last()));
        lemma_words_append_word(t, w);
        assert(init.push(w) == ws);
    }
}

/// Law: collapsing whitespace keeps the words of a text, in order.
pub proof fn lemma_collapse_keeps_words(s: Seq<char>)
    ensures
        words(collapse_whitespace(s)) == words(s),
{
    lemma_words_shape(s);
    lemma_words_of_join(words(s));
}

/// Law: collapsing whitespace twice is the same as collapsing it once.
pub proof fn lemma_collapse_idempotent(s: Seq<char>)
    ensures
        collapse_whitespace(collapse_whitespace(s)) == collapse_whitespace(s),
{
    lemma_collapse_keeps_words(s);
}

/// The shape of joined words: every whitespace character in it is a single
/// space with a non-whitespace character on each side.
proof fn lemma_join_shape(ws: Seq<Seq<char>>)
    requires
        forall|j: int| 0 <= j < ws.len() ==> #[trigger] ws[j].len() > 0,
        forall|j: int, k: int|
            0 <= j < ws.len() && 0 <= k < ws[j].len() ==> !is_whitespace_char(#[trigger] ws[j][k]),
    ensures
        forall|i: int|
            0 <= i < join_words(ws).len() && is_whitespace_char(#[trigger] join_words(ws)[i]) ==> {
                &&& join_words(ws)[i] == ' '
                &&& 0 < i < join_words(ws).len() - 1
                &&& !is_whitespace_char(join_words(ws)[i - 1])
                &&& !is_whitespace_char(join_words(ws)[i + 1])
            },
    decreases ws.len(),
{
    if ws.len() == 1 {
        assert forall|i: int|
            0 <= i < join_words(ws).len() implies !is_whitespace_char(
            #[trigger] join_words(ws)[i],
        ) by {
            assert(join_words(ws)[i] == ws[0][i]);
        }
    } else if ws.len() >= 2 {
        let init = ws.drop_last();
        let w = ws.last();
        assert forall|j: int, k: int|
            0 <= j < init.len() && 0 <= k < init[j].len() implies !is_whitespace_char(
            #[trigger] init[j][k],
        ) by {
            assert(init[j] == ws[j]);
        }
        lemma_join_shape(init);
        let a = join_words(init);
        let r = join_words(ws);
        assert(r == a + seq![' '] + w);
        lemma_join_empty(init);
        assert(a.len() > 0);
        assert(w.len() > 0);
        assert forall|i: int| 0 <= i < r.len() && is_whitespace_char(#[trigger] r[i]) implies {
            &&& r[i] == ' '
            &&& 0 < i < r.len() - 1
            &&& !is_whitespace_char(r[i - 1])
            &&& !is_whitespace_char(r[i + 1])
        } by {
            if i < a.len() {
                assert(r[i] == a[i]);
                assert(r[i - 1] == a[i - 1]);
                assert(r[i + 1] == a[i + 1]);
            } else if i == a.len() {
                assert(r[i - 1] == a[a.len() - 1]);
                if a.len() >= 2 {
                    assert(!is_whitespace_char(a[a.len() - 1])) by {
                        if is_whitespace_char(a[a.len() - 1]) {
                            assert(a.len() - 1 < a.len() - 1);
                        }
                    }
                } else {
                    assert(!is_whitespace_char(a[0])) by {
                        if is_whitespace_char(a[0]) {
                            assert(0 < 0int);
                        }
                    }
                }
                assert(r[i + 1] == w[0]);
                assert(!is_whitespace_char(ws[ws.len() - 1][0]));
            } else {
                let k = i - a.len() - 1;
                assert(r[i] == w[k]);
                assert(!is_whitespace_char(ws[ws.len() - 1][k]));
            }
        }
    }
}

/// Law: the result of collapsing has no leading or trailing whitespace, and
/// each whitespace character in it is a lone space between two
/// non-whitespace characters.
pub proof fn lemma_collapse_shape(s: Seq<char>)
    ensures
        forall|i: int|
            0 <= i < collapse_whitespace(s).len() && is_whitespace_char(
                #[trigger] collapse_whitespace(s)[i],
            ) ==> {
                &&& collapse_whitespace(s)[i] == ' '
                &&& 0 < i < collapse_whitespace(s).len() - 1
                &&& !is_whitespace_char(collapse_whitespace(s)[i - 1])
                &&& !is_whitespace_char(collapse_whitespace(s)[i + 1])
            },
{
    lemma_words_shape(s);
    lemma_join_shape(words(s));
}

#[verifier::external_body]
fn push_char(s: &mut String, c: char)
    ensures
        final(s)@ == old(s)@.push(c),
{
    s.push(c)
}

/// Whether `c` is a Unicode whitespace character (as `char::is_whitespace`).
pub fn is_whitespace(c: char) -> (res: bool)
    ensures
        res == is_whitespace_char(c),
{
    ('\u{9}' <= c && c <= '\u{d}') || c == ' ' || c == '\u{85}' || c == '\u{a0}' || c
        == '\u{1680}' || ('\u{2000}' <= c && c <= '\u{200a}') || c == '\u{2028}' || c
        == '\u{2029}' || c == '\u{202f}' || c == '\u{205f}' || c == '\u{3000}'
}

/// Removes leading and trailing whitespace and collapses every inner run of
/// whitespace into a single space.
pub fn trim_whitespace_v2(s: &str) -> (res: String)
    ensures
        res@ == collapse_whitespace(s@),
{
    let mut result = String::new();
    let mut in_word = false;
    let mut started = false;
    let ghost text = s@;
    let ghost mut n: int = 0;
    assert(text.take(0) == Seq::<char>::empty());
    for c in it: s.chars()
        invariant
            it.seq() == text,
            n == it.index(),
            0 <= n <= text.len(),
            result@ == join_words(words(text.take(n))),
            in_word == (n > 0 && !is_whitespace_char(text[n - 1])),
            started == (words(text.take(n)).len() > 0),
    {
        let ghost prefix = text.take(n);
        let ghost next = text.take(n + 1);
        assert(next.drop_last() == prefix);
        assert(next.last() == c);
        proof {
            lemma_words_shape(prefix);
        }
        if is_whitespace(c) {
            in_word = false;
        } else {
            if in_word {
                assert(next[next.len() - 2] == text[n - 1]);
                assert(prefix.last() == text[n - 1]);
                proof {
                    lemma_join_extend_last(words(prefix), c);
                }
            } else {
                proof {
                    lemma_join_push(words(prefix), seq![c]);
                    lemma_join_empty(words(prefix));
                }
                proof {
                    if n >= 1 {
                        assert(next[next.len() - 2] == text[n - 1]);
                    }
                }
                if started {
                    push_char(&mut result, ' ');
                }
            }
            push_char(&mut result, c);
            in_word = true;
            started = true;
        }
        proof {
            n = n + 1;
        }
    }
    assert(text.take(n) == text);
    result
}

/// The Odoo model of contacts.
pub const PARTNER_MODEL_NAME: &'static str = "res.partner";

/// The Odoo model of currencies.
pub const CURRENCY_MODEL_NAME: &'static str = "res.currency";

/// The Odoo model of CRM stages.
pub const CRM_STAGE_MODEL_NAME: &'static str = "crm.stage";

/// The texts of a list of strings.
pub open spec fn texts_view(v: Seq<String>) -> Seq<Seq<char>> {
    v.map_values(|s: String| s@)
}

/// Whether `s` is the text `lit`.
pub fn text_is(s: &str, lit: &str) -> (res: bool)
    ensures
        res == (s@ == lit@),
{
    s.to_owned() == lit.to_owned()
}

/// Owned copies of the texts `lits`, in order.
pub fn strings_from(lits: &[&str]) -> (res: Vec<String>)
    ensures
        texts_view(res@) == lits@.map_values(|s: &str| s@),
{
    let mut res: Vec<String> = Vec::new();
    for i in 0..lits.len()
        invariant
            res@.len() == i,
            forall|j: int| 0 <= j < i ==> #[trigger] res@[j]@ == lits@[j]@,
    {
        res.push(lits[i].to_owned());
    }
    assert(texts_view(res@) =~= lits@.map_values(|s: &str| s@));
    res
}

/// The names of the fields of a record type that are read from Odoo.
pub trait FieldnamesAsStringVec {
    /// The field names, in declaration order.
    spec fn spec_field_names() -> Seq<Seq<char>>;

    /// The field names, in declaration order.
    fn field_names_as_string_vec() -> (res: Vec<String>)
        ensures
            texts_view(res@) == Self::spec_field_names(),
    ;
}

/// The pattern of a bracketed part of a name, such as the `[REF]` that
/// prefixes product names.
pub const BRACKETED_SLICE_PATTERN: &'static str = "\\[[^)]*\\]";

/// Removes the first bracketed part (see `BRACKETED_SLICE_PATTERN`) of `i`.
pub fn remove_slices_from_string(i: &str) -> (res: Result<String, MigrationError>)
    ensures
        res is Ok <==> regex_compiles(BRACKETED_SLICE_PATTERN@),
        res matches Ok(s) ==> s@ == regex_replace_first(BRACKETED_SLICE_PATTERN@, i@, ""@),
        res matches Err(e) ==> e is Regex,
{
    match regex_replace(BRACKETED_SLICE_PATTERN, i, "") {
        Ok(s) => Ok(s),
        Err(e) => Err(MigrationError::Regex(e)),
    }
}

} // verus!
