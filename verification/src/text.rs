//! Text, and equality by content.

use vstd::prelude::*;
use vstd::string::StringExecFns;

verus! {

/// Equality by content, as `==` computes it.
pub trait Same: PartialEq {
    spec fn same(&self, other: &Self) -> bool;
}

impl<T: PartialEq> Same for T {
    open spec fn same(&self, other: &Self) -> bool {
        vstd::std_specs::cmp::PartialEqSpec::eq_spec(self, other)
    }
}

/// A piece of text, compared by its characters.
#[derive(Debug)]
pub struct Text {
    pub value: String,
}

impl View for Text {
    type V = Seq<char>;

    open spec fn view(&self) -> Seq<char> {
        self.value@
    }
}

impl PartialEq for Text {
    fn eq(&self, other: &Self) -> (r: bool) {
        self.value == other.value
    }
}

impl Eq for Text {
}

impl vstd::std_specs::cmp::PartialEqSpecImpl for Text {
    open spec fn obeys_eq_spec() -> bool {
        true
    }

    open spec fn eq_spec(&self, other: &Self) -> bool {
        self@ == other@
    }
}

impl Clone for Text {
    fn clone(&self) -> (r: Self)
        ensures
            r == *self,
    {
        Text { value: self.value.clone() }
    }
}

/// Whether one text comes before another: at the first character in which they differ, or because
/// it is the beginning of the other.
pub open spec fn text_precedes(first: Seq<char>, second: Seq<char>) -> bool
    decreases first.len(),
{
    if second.len() == 0 {
        false
    } else if first.len() == 0 {
        true
    } else if first[0] != second[0] {
        first[0] < second[0]
    } else {
        text_precedes(first.drop_first(), second.drop_first())
    }
}

/// No text comes before itself.
pub proof fn lemma_precedes_irreflexive(text: Seq<char>)
    ensures
        !text_precedes(text, text),
    decreases text.len(),
{
    if text.len() > 0 {
        lemma_precedes_irreflexive(text.drop_first());
    }
}

/// A text that comes before another comes before all that the other comes before.
pub proof fn lemma_precedes_transitive(first: Seq<char>, second: Seq<char>, third: Seq<char>)
    requires
        text_precedes(first, second),
        text_precedes(second, third),
    ensures
        text_precedes(first, third),
    decreases first.len(),
{
    if first.len() > 0 && second.len() > 0 && third.len() > 0 && first[0] == second[0] && second[0]
        == third[0] {
        lemma_precedes_transitive(first.drop_first(), second.drop_first(), third.drop_first());
    }
}

/// Of two different texts one comes before the other.
pub proof fn lemma_precedes_total(first: Seq<char>, second: Seq<char>)
    requires
        first != second,
    ensures
        text_precedes(first, second) || text_precedes(second, first),
    decreases first.len(),
{
    if first.len() == 0 {
        assert(second.len() > 0) by {
            if second.len() == 0 {
                assert(first =~= second);
            }
        }
    } else if second.len() > 0 && first[0] == second[0] {
        if first.drop_first() == second.drop_first() {
            assert(first =~= seq![first[0]] + first.drop_first());
            assert(second =~= seq![second[0]] + second.drop_first());
        }
        lemma_precedes_total(first.drop_first(), second.drop_first());
    }
}

/// The digit of a number below ten.
pub open spec fn digit(n: int) -> char {
    ((('0' as u32) + n) as u32) as char
}

/// A number in decimal digits.
pub open spec fn digits(n: nat) -> Seq<char>
    decreases n,
{
    if n < 10 {
        seq![digit(n as int)]
    } else {
        digits(n / 10).push(digit((n % 10) as int))
    }
}

/// A number with its sign, where it is negative, in decimal digits.
pub open spec fn decimal(n: int) -> Seq<char> {
    if n < 0 {
        seq!['-'] + digits((-n) as nat)
    } else {
        digits(n as nat)
    }
}

fn digit_text(n: u64) -> (r: &'static str)
    requires
        n < 10,
    ensures
        r@ == seq![digit(n as int)],
{
    proof {
        reveal_strlit("0");
        reveal_strlit("1");
        reveal_strlit("2");
        reveal_strlit("3");
        reveal_strlit("4");
        reveal_strlit("5");
        reveal_strlit("6");
        reveal_strlit("7");
        reveal_strlit("8");
        reveal_strlit("9");
    }
    let text = match n {
        0 => "0",
        1 => "1",
        2 => "2",
        3 => "3",
        4 => "4",
        5 => "5",
        6 => "6",
        7 => "7",
        8 => "8",
        _ => "9",
    };
    assert(text@ =~= seq![digit(n as int)]);
    text
}

fn write_digits(n: u64) -> (r: String)
    ensures
        r@ == digits(n as nat),
    decreases n,
{
    if n < 10 {
        digit_text(n).to_owned()
    } else {
        let text = write_digits(n / 10).concat(digit_text(n % 10));
        assert(text@ =~= digits(n as nat));
        text
    }
}

impl Text {
    /// A number in decimal.
    pub fn number(n: i64) -> (r: Text)
        ensures
            r@ == decimal(n as int),
    {
        if n < 0 {
            proof {
                reveal_strlit("-");
            }
            let size: u64 = ((-(n + 1)) as u64) + 1;
            let text = "-".to_owned().concat(write_digits(size).as_str());
            assert(text@ =~= decimal(n as int));
            Text { value: text }
        } else {
            Text { value: write_digits(n as u64) }
        }
    }

    /// A natural number in decimal.
    pub fn natural(n: u64) -> (r: Text)
        ensures
            r@ == digits(n as nat),
    {
        Text { value: write_digits(n) }
    }

    /// Whether the text comes before another.
    pub fn precedes(&self, other: &Text) -> (r: bool)
        ensures
            r == text_precedes(self@, other@),
    {
        let first = self.value.as_str().unicode_len();
        let second = other.value.as_str().unicode_len();
        let mut i: usize = 0;
        assert(self@.skip(0) =~= self@);
        assert(other@.skip(0) =~= other@);
        while i < first && i < second
            invariant
                first == self@.len(),
                second == other@.len(),
                i <= first,
                i <= second,
                text_precedes(self@, other@) == text_precedes(
                    self@.skip(i as int),
                    other@.skip(i as int),
                ),
            decreases first - i,
        {
            assert(self@.skip(i as int).drop_first() =~= self@.skip(i + 1));
            assert(other@.skip(i as int).drop_first() =~= other@.skip(i + 1));
            let left = self.value.as_str().get_char(i);
            let right = other.value.as_str().get_char(i);
            if left != right {
                return left < right;
            }
            i += 1;
        }
        second > i
    }

    /// The text of a literal.
    pub fn of(literal: &str) -> (r: Text)
        ensures
            r@ == literal@,
    {
        Text { value: literal.to_owned() }
    }

    /// The size of the text in bytes.
    pub fn size(&self) -> (r: usize)
        ensures
            r == vstd::utf8::encode_utf8(self@).len() as usize,
    {
        self.value.as_str().len()
    }

    /// A literal followed by a text.
    pub fn prefixed(literal: &str, text: &Text) -> (r: Text)
        ensures
            r@ == literal@ + text@,
    {
        Text { value: literal.to_owned().concat(text.value.as_str()) }
    }

    /// A text between two literals.
    pub fn around(before: &str, text: &Text, after: &str) -> (r: Text)
        ensures
            r@ == before@ + text@ + after@,
    {
        Text { value: before.to_owned().concat(text.value.as_str()).concat(after) }
    }

    /// The text followed by another.
    pub fn followed_by(self, text: &Text) -> (r: Text)
        ensures
            r@ == self@ + text@,
    {
        Text { value: self.value.concat(text.value.as_str()) }
    }

    /// Whether the text is written in exactly these bytes.
    pub fn has_bytes(&self, bytes: &Vec<u8>) -> (r: bool)
        ensures
            r == (bytes@ == vstd::utf8::encode_utf8(self@)),
    {
        let own = self.value.as_str().as_bytes_vec();
        if own.len() != bytes.len() {
            return false;
        }
        let mut i: usize = 0;
        while i < own.len()
            invariant
                i <= own@.len(),
                own@ == vstd::utf8::encode_utf8(self@),
                own@.len() == bytes@.len(),
                forall|j: int| 0 <= j < i ==> own@[j] == bytes@[j],
            decreases own.len() - i,
        {
            if own[i] != bytes[i] {
                return false;
            }
            i += 1;
        }
        assert(own@ =~= bytes@);
        true
    }

    /// Whether the text is empty.
    pub fn is_empty(&self) -> (r: bool)
        ensures
            r == (self@.len() == 0),
    {
        self.value.as_str().unicode_len() == 0
    }

    /// Whether the text reads exactly like `literal`.
    pub fn is(&self, literal: &str) -> (r: bool)
        ensures
            r == (self@ == literal@),
    {
        self.value == literal.to_owned()
    }
}

} // verus!
