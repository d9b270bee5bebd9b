//! What a database says of its schema, and how it is compared.

use vstd::prelude::*;
use crate::error::StoreError;
use crate::text::Text;

verus! {

/// Why a database is not served.
#[derive(Debug)]
pub enum SchemaError {
    /// The database is of a version, or in a state, that cannot be used.
    Incompatible { found: i64, detail: Text },
    /// The store refuses what is in it.
    Store(StoreError),
    /// A row that must be there is not.
    RowMissing,
}

/// What a check of a database comes to.
pub enum Finding {
    Fine,
    Refused { found: i64, detail: Seq<char> },
    Failed { error: StoreError },
    Missing,
}

/// Fine where something holds, else refused.
pub open spec fn expect(holds: bool, found: i64, detail: Seq<char>) -> Finding {
    if holds {
        Finding::Fine
    } else {
        Finding::Refused { found, detail }
    }
}

/// The first of two findings that is not fine.
pub open spec fn also(first: Finding, next: Finding) -> Finding {
    match first {
        Finding::Fine => next,
        _ => first,
    }
}

/// Whether a result reports a finding.
pub open spec fn reports<T>(result: Result<T, SchemaError>, finding: Finding) -> bool {
    match (result, finding) {
        (Ok(_), Finding::Fine) => true,
        (
            Err(SchemaError::Incompatible { found, detail }),
            Finding::Refused { found: expected, detail: reason },
        ) => found == expected && detail@ == reason,
        (Err(SchemaError::Store(error)), Finding::Failed { error: expected }) => error == expected,
        (Err(SchemaError::RowMissing), Finding::Missing) => true,
        _ => false,
    }
}

/// The refusal of a database.
pub fn incompatible(found: i64, detail: Text) -> (r: SchemaError)
    ensures
        r == (SchemaError::Incompatible { found, detail }),
{
    SchemaError::Incompatible { found, detail }
}

/// Refuses a database where something does not hold.
pub fn require(holds: bool, found: i64, detail: &str) -> (r: Result<(), SchemaError>)
    ensures
        reports(r, expect(holds, found, detail@)),
{
    if holds {
        Ok(())
    } else {
        Err(incompatible(found, Text::of(detail)))
    }
}

/// Whether a character separates words.
pub open spec fn is_white_space(c: char) -> bool {
    ||| '\u{9}' <= c <= '\u{d}'
    ||| c == '\u{20}'
    ||| c == '\u{85}'
    ||| c == '\u{a0}'
    ||| c == '\u{1680}'
    ||| '\u{2000}' <= c <= '\u{200a}'
    ||| c == '\u{2028}'
    ||| c == '\u{2029}'
    ||| c == '\u{202f}'
    ||| c == '\u{205f}'
    ||| c == '\u{3000}'
}

fn separates(c: char) -> (r: bool)
    ensures
        r == is_white_space(c),
{
    ('\u{9}' <= c && c <= '\u{d}') || c == '\u{20}' || c == '\u{85}' || c == '\u{a0}' || c
        == '\u{1680}' || ('\u{2000}' <= c && c <= '\u{200a}') || c == '\u{2028}' || c == '\u{2029}'
        || c == '\u{202f}' || c == '\u{205f}' || c == '\u{3000}'
}

/// A letter of the basic alphabet in its upper case; any other character as it is.
pub open spec fn ascii_upper(c: char) -> char {
    if 'a' <= c <= 'z' {
        ((c as u32) - 32) as char
    } else {
        c
    }
}

fn raise_letter(c: char) -> (r: char)
    ensures
        r == ascii_upper(c),
{
    if 'a' <= c && c <= 'z' {
        (c as u8 - 32) as char
    } else {
        c
    }
}

/// A text with its letters of the basic alphabet in upper case.
pub open spec fn raised(text: Seq<char>) -> Seq<char> {
    text.map_values(|c: char| ascii_upper(c))
}

/// A text without the semicolons that it ends in.
pub open spec fn without_final_semicolons(text: Seq<char>) -> Seq<char>
    decreases text.len(),
{
    if text.len() > 0 && text.last() == ';' {
        without_final_semicolons(text.drop_last())
    } else {
        text
    }
}

/// The words of a text: its longest stretches without white space.
pub open spec fn words(text: Seq<char>) -> Seq<Seq<char>>
    decreases text.len(),
{
    if text.len() == 0 {
        Seq::empty()
    } else {
        let before = text.drop_last();
        if is_white_space(text.last()) {
            words(before)
        } else if before.len() == 0 || is_white_space(before.last()) {
            words(before).push(seq![text.last()])
        } else {
            words(before).drop_last().push(words(before).last().push(text.last()))
        }
    }
}

/// Words, each separated from the next by one space.
pub open spec fn spaced(words: Seq<Seq<char>>) -> Seq<char>
    decreases words.len(),
{
    if words.len() == 0 {
        Seq::empty()
    } else if words.len() == 1 {
        words[0]
    } else {
        spaced(words.drop_last()).push(' ') + words.last()
    }
}

/// The form of a definition in which white space, case and final semicolons make no difference.
pub open spec fn normal_sql(sql: Seq<char>) -> Seq<char> {
    raised(spaced(words(without_final_semicolons(sql))))
}

proof fn lemma_word_is_open(text: Seq<char>)
    requires
        text.len() > 0,
        !is_white_space(text.last()),
    ensures
        words(text).len() > 0,
        words(text).last().len() > 0,
        words(text).last().last() == text.last(),
    decreases text.len(),
{
    let before = text.drop_last();
    if before.len() > 0 && !is_white_space(before.last()) {
        lemma_word_is_open(before);
    }
}

proof fn lemma_spaced_push(all: Seq<Seq<char>>, word: Seq<char>)
    ensures
        spaced(all.push(word)) == (if all.len() == 0 {
            word
        } else {
            spaced(all).push(' ') + word
        }),
{
    assert(all.push(word).drop_last() =~= all);
    assert(all.push(word).last() == word);
}

proof fn lemma_spaced_grows(all: Seq<Seq<char>>, c: char)
    requires
        all.len() > 0,
    ensures
        spaced(all.drop_last().push(all.last().push(c))) == spaced(all).push(c),
{
    let grown = all.drop_last().push(all.last().push(c));
    assert(grown.drop_last() =~= all.drop_last());
    if all.len() == 1 {
        assert(grown[0] =~= all[0].push(c));
    } else {
        assert(spaced(grown) =~= spaced(all).push(c));
    }
}

fn trimmed_length(sql: &str) -> (r: usize)
    ensures
        r <= sql@.len(),
        sql@.take(r as int) == without_final_semicolons(sql@),
{
    let mut length = sql.unicode_len();
    assert(sql@.take(length as int) =~= sql@);
    while length > 0 && sql.get_char(length - 1) == ';'
        invariant
            length <= sql@.len(),
            without_final_semicolons(sql@.take(length as int)) == without_final_semicolons(sql@),
        decreases length,
    {
        assert(sql@.take(length as int).drop_last() =~= sql@.take(length - 1));
        length -= 1;
    }
    length
}

/// The characters of the normal form of a definition.
pub fn normalize_sql(sql: &str) -> (r: Vec<char>)
    ensures
        r@ == normal_sql(sql@),
{
    let length = trimmed_length(sql);
    let ghost text = without_final_semicolons(sql@);
    let mut normal: Vec<char> = Vec::new();
    let mut in_word: bool = false;
    let mut any_word: bool = false;
    let mut i: usize = 0;
    assert(raised(spaced(words(text.take(0)))) =~= Seq::<char>::empty());
    while i < length
        invariant
            i <= length <= sql@.len(),
            text == sql@.take(length as int),
            normal@ == raised(spaced(words(text.take(i as int)))),
            in_word == (i > 0 && !is_white_space(text[i - 1])),
            any_word == (words(text.take(i as int)).len() > 0),
        decreases length - i,
    {
        let c = sql.get_char(i);
        let ghost before = text.take(i as int);
        let ghost after = text.take(i + 1);
        assert(after.drop_last() =~= before);
        assert(after.last() == c);
        if separates(c) {
            in_word = false;
        } else {
            if in_word {
                proof {
                    lemma_word_is_open(before);
                    lemma_spaced_grows(words(before), c);
                }
                assert(raised(spaced(words(before)).push(c)) =~= raised(spaced(words(before))).push(
                    ascii_upper(c),
                ));
            } else {
                proof {
                    lemma_spaced_push(words(before), seq![c]);
                }
                if any_word {
                    normal.push(' ');
                    assert(raised(spaced(words(before)).push(' ') + seq![c]) =~= raised(
                        spaced(words(before)),
                    ).push(' ').push(ascii_upper(c)));
                } else {
                    assert(spaced(words(before)) =~= Seq::<char>::empty());
                    assert(raised(seq![c]) =~= seq![ascii_upper(c)]);
                    assert(normal@.push(ascii_upper(c)) =~= seq![ascii_upper(c)]);
                }
                any_word = true;
            }
            normal.push(raise_letter(c));
            in_word = true;
        }
        i += 1;
    }
    assert(text.take(i as int) =~= text);
    normal
}

/// Whether a text reads like a literal once its letters are in upper case.
pub fn raises_to(text: &Text, literal: &str) -> (r: bool)
    ensures
        r == (raised(text@) == literal@),
{
    let length = text.value.as_str().unicode_len();
    if length != literal.unicode_len() {
        return false;
    }
    let mut i: usize = 0;
    while i < length
        invariant
            i <= length,
            length == text@.len(),
            length == literal@.len(),
            forall|j: int| 0 <= j < i ==> #[trigger] raised(text@)[j] == literal@[j],
        decreases length - i,
    {
        if raise_letter(text.value.as_str().get_char(i)) != literal.get_char(i) {
            assert(raised(text@)[i as int] != literal@[i as int]);
            return false;
        }
        i += 1;
    }
    assert(raised(text@) =~= literal@);
    true
}

/// Whether two definitions have the same normal form.
pub fn is_same_sql(first: &str, second: &str) -> (r: bool)
    ensures
        r == (normal_sql(first@) == normal_sql(second@)),
{
    let left = normalize_sql(first);
    let right = normalize_sql(second);
    if left.len() != right.len() {
        return false;
    }
    let mut i: usize = 0;
    while i < left.len()
        invariant
            i <= left@.len(),
            left@.len() == right@.len(),
            left@ == normal_sql(first@),
            right@ == normal_sql(second@),
            forall|j: int| 0 <= j < i ==> left@[j] == right@[j],
        decreases left.len() - i,
    {
        if left[i] != right[i] {
            return false;
        }
        i += 1;
    }
    assert(left@ =~= right@);
    true
}

/// Final semicolons make no difference to a definition.
pub proof fn law_final_semicolons_are_ignored(sql: Seq<char>)
    ensures
        normal_sql(sql.push(';')) == normal_sql(sql),
{
    assert(sql.push(';').drop_last() =~= sql);
}

proof fn lemma_raised_words(text: Seq<char>)
    ensures
        words(raised(text)).len() == words(text).len(),
        raised(spaced(words(raised(text)))) == raised(spaced(words(text))),
        forall|i: int|
            0 <= i < words(text).len() ==> #[trigger] words(raised(text))[i] == raised(
                words(text)[i],
            ),
    decreases text.len(),
{
    if text.len() > 0 {
        let before = text.drop_last();
        lemma_raised_words(before);
        assert(raised(text).drop_last() =~= raised(before));
        assert(raised(text).last() == ascii_upper(text.last()));
        if !is_white_space(text.last()) && before.len() > 0 && !is_white_space(before.last()) {
            lemma_word_is_open(before);
        }
        assert forall|i: int| 0 <= i < words(text).len() implies #[trigger] words(raised(text))[i]
            == raised(words(text)[i]) by {
            assert(words(raised(text))[i] =~= raised(words(text)[i]));
        }
    } else {
        assert(raised(text) =~= text);
    }
    lemma_raised_spaced(words(text), words(raised(text)));
}

proof fn lemma_raised_spaced(plain: Seq<Seq<char>>, high: Seq<Seq<char>>)
    requires
        plain.len() == high.len(),
        forall|i: int| 0 <= i < plain.len() ==> #[trigger] high[i] == raised(plain[i]),
    ensures
        raised(spaced(high)) == raised(spaced(plain)),
    decreases plain.len(),
{
    if plain.len() == 1 {
        assert(high[0] == raised(plain[0]));
        assert(raised(high[0]) =~= raised(plain[0]));
    } else if plain.len() > 1 {
        lemma_raised_spaced(plain.drop_last(), high.drop_last());
        assert(high.last() == raised(plain.last()));
        let left = spaced(high.drop_last());
        let right = spaced(plain.drop_last());
        assert(raised(left.push(' ') + high.last()) =~= raised(left).push(' ') + raised(high.last()));
        assert(raised(right.push(' ') + plain.last()) =~= raised(right).push(' ') + raised(
            plain.last(),
        ));
        assert(raised(high.last()) =~= raised(plain.last()));
    }
}

proof fn lemma_raised_trim(text: Seq<char>)
    ensures
        without_final_semicolons(raised(text)) == raised(without_final_semicolons(text)),
    decreases text.len(),
{
    if text.len() > 0 {
        assert(raised(text).drop_last() =~= raised(text.drop_last()));
        if text.last() == ';' {
            lemma_raised_trim(text.drop_last());
        }
    }
}

/// Letter case makes no difference to a definition.
pub proof fn law_letter_case_is_ignored(sql: Seq<char>)
    ensures
        normal_sql(raised(sql)) == normal_sql(sql),
{
    lemma_raised_trim(sql);
    lemma_raised_words(without_final_semicolons(sql));
}

/// How much white space there is at the end of a definition makes no difference.
pub proof fn law_final_white_space_is_ignored(sql: Seq<char>, c: char)
    requires
        is_white_space(c),
        sql.len() == 0 || sql.last() != ';',
    ensures
        normal_sql(sql.push(c)) == normal_sql(sql),
{
    assert(sql.push(c).drop_last() =~= sql);
}

proof fn lemma_words_have_no_space(text: Seq<char>)
    ensures
        forall|i: int, j: int|
            0 <= i < words(text).len() && 0 <= j < words(text)[i].len() ==> !is_white_space(
                #[trigger] words(text)[i][j],
            ),
        forall|i: int| 0 <= i < words(text).len() ==> (#[trigger] words(text)[i]).len() > 0,
    decreases text.len(),
{
    if text.len() > 0 {
        lemma_words_have_no_space(text.drop_last());
        if !is_white_space(text.last()) && text.len() > 1 && !is_white_space(
            text.drop_last().last(),
        ) {
            lemma_word_is_open(text.drop_last());
        }
    }
}

proof fn lemma_words_add_word(text: Seq<char>, word: Seq<char>)
    requires
        text.len() == 0 || is_white_space(text.last()),
        word.len() > 0,
        forall|j: int| 0 <= j < word.len() ==> !is_white_space(#[trigger] word[j]),
    ensures
        words(text + word) == words(text).push(word),
    decreases word.len(),
{
    let whole = text + word;
    assert(whole.drop_last() =~= text + word.drop_last());
    assert(whole.last() == word.last());
    if word.len() == 1 {
        assert(word.drop_last() =~= Seq::<char>::empty());
        assert(whole.drop_last() =~= text);
        assert(word =~= seq![word.last()]);
    } else {
        lemma_words_add_word(text, word.drop_last());
        assert(whole.drop_last().last() == word[word.len() - 2]);
        let shorter = words(text).push(word.drop_last());
        assert(shorter.drop_last() =~= words(text));
        assert(word.drop_last().push(word.last()) =~= word);
    }
}

proof fn lemma_words_of_spaced(all: Seq<Seq<char>>)
    requires
        forall|i: int, j: int|
            0 <= i < all.len() && 0 <= j < all[i].len() ==> !is_white_space(#[trigger] all[i][j]),
        forall|i: int| 0 <= i < all.len() ==> (#[trigger] all[i]).len() > 0,
    ensures
        words(spaced(all)) == all,
    decreases all.len(),
{
    if all.len() == 0 {
        assert(words(spaced(all)) =~= all);
    } else if all.len() == 1 {
        lemma_words_add_word(Seq::empty(), all[0]);
        assert(Seq::<char>::empty() + all[0] =~= all[0]);
        assert(words(spaced(all)) =~= all);
    } else {
        let fewer = all.drop_last();
        assert forall|i: int, j: int| 0 <= i < fewer.len() && 0 <= j < fewer[i].len() implies
            !is_white_space(#[trigger] fewer[i][j]) by {
            assert(fewer[i][j] == all[i][j]);
        }
        lemma_words_of_spaced(fewer);
        let text = spaced(fewer).push(' ');
        assert(text.drop_last() =~= spaced(fewer));
        assert forall|j: int| 0 <= j < all.last().len() implies !is_white_space(
            #[trigger] all.last()[j],
        ) by {
            assert(all.last()[j] == all[all.len() - 1][j]);
        }
        lemma_words_add_word(text, all.last());
        assert(words(spaced(all)) =~= all);
    }
}

proof fn lemma_spaced_holds(all: Seq<Seq<char>>, c: char)
    requires
        c != ' ',
        spaced(all).contains(c),
    ensures
        exists|i: int| 0 <= i < all.len() && (#[trigger] all[i]).contains(c),
    decreases all.len(),
{
    if all.len() == 1 {
        assert(all[0].contains(c));
    } else if all.len() > 1 {
        let at = spaced(all).index_of(c);
        let head = spaced(all.drop_last());
        if at < head.len() {
            assert(head[at] == c);
            lemma_spaced_holds(all.drop_last(), c);
            let i = choose|i: int|
                0 <= i < all.drop_last().len() && (#[trigger] all.drop_last()[i]).contains(c);
            assert(all[i].contains(c));
        } else {
            assert(all.last()[at - head.len() - 1] == c);
            assert(all[all.len() - 1].contains(c));
        }
    }
}

proof fn lemma_words_hold(text: Seq<char>, i: int, c: char)
    requires
        0 <= i < words(text).len(),
        words(text)[i].contains(c),
    ensures
        text.contains(c),
    decreases text.len(),
{
    let before = text.drop_last();
    if is_white_space(text.last()) {
        lemma_words_hold(before, i, c);
        assert(text[before.index_of(c)] == c);
    } else if before.len() == 0 || is_white_space(before.last()) {
        if i < words(before).len() {
            lemma_words_hold(before, i, c);
            assert(text[before.index_of(c)] == c);
        } else {
            assert(text[text.len() - 1] == c);
        }
    } else {
        lemma_word_is_open(before);
        if i < words(before).len() - 1 {
            lemma_words_hold(before, i, c);
            assert(text[before.index_of(c)] == c);
        } else {
            let at = words(text)[i].index_of(c);
            if at < words(before).last().len() {
                assert(words(before).last()[at] == c);
                lemma_words_hold(before, words(before).len() - 1, c);
                assert(text[before.index_of(c)] == c);
            } else {
                assert(text[text.len() - 1] == c);
            }
        }
    }
}

/// The normal form of a definition without semicolons is its own normal form.
pub proof fn law_normal_form_is_stable(sql: Seq<char>)
    requires
        !sql.contains(';'),
    ensures
        normal_sql(normal_sql(sql)) == normal_sql(sql),
{
    if sql.len() > 0 {
        assert(sql.contains(sql.last()));
    }
    assert(without_final_semicolons(sql) == sql);
    let all = words(sql);
    let plain = spaced(all);
    lemma_words_have_no_space(sql);
    lemma_words_of_spaced(all);
    if plain.len() > 0 && plain.last() == ';' {
        assert(plain.contains(';'));
        lemma_spaced_holds(all, ';');
        let i = choose|i: int| 0 <= i < all.len() && (#[trigger] all[i]).contains(';');
        lemma_words_hold(sql, i, ';');
    }
    lemma_raised_trim(plain);
    lemma_raised_words(plain);
    assert(without_final_semicolons(plain) == plain);
}

} // verus!
