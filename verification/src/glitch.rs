//! The l33t-speak table of the start-up animation.
use vstd::prelude::*;

verus! {

/// Characters and the look-alikes they may be drawn as.
pub struct LeetMap {
    entries: Vec<(char, Vec<char>)>,
}

/// The table: each character with its four look-alikes.
pub open spec fn leet_table() -> Seq<(char, Seq<char>)> {
    seq![
        ('a', seq!['4', '@', 'Δ', 'α']),
        ('A', seq!['4', '@', 'Δ', 'Λ']),
        ('e', seq!['3', '€', 'ε', '£']),
        ('E', seq!['3', '€', 'Ξ', 'Σ']),
        ('i', seq!['1', '!', '|', 'í']),
        ('I', seq!['1', '!', '|', 'Ì']),
        ('o', seq!['0', 'ø', 'Ω', '°']),
        ('O', seq!['0', 'Ø', 'Θ', '°']),
        ('s', seq!['5', '$', 'ß', '§']),
        ('S', seq!['5', '$', 'Š', '§']),
        ('t', seq!['7', '+', '†', 'ţ']),
        ('T', seq!['7', '+', '†', 'Ŧ']),
        ('l', seq!['1', '|', 'ł', 'ļ']),
        ('L', seq!['1', '|', 'Ł', '£']),
        ('g', seq!['9', '6', 'ģ', 'ğ']),
        ('G', seq!['9', '6', 'Ģ', 'Ğ']),
        ('b', seq!['8', 'ß', 'þ', 'ḅ']),
        ('B', seq!['8', 'ß', 'Þ', 'ß']),
        ('c', seq!['¢', 'ç', '(', 'č']),
        ('C', seq!['¢', 'Ç', '(', 'Ć']),
        ('d', seq!['đ', 'ď', 'Ð', 'ð']),
        ('D', seq!['Đ', 'Ď', 'Ð', 'Ð']),
        ('n', seq!['ñ', 'ň', 'η', 'ņ']),
        ('N', seq!['Ñ', 'Ň', 'Ń', 'Π']),
        ('u', seq!['µ', 'ü', 'ù', 'û']),
        ('U', seq!['Ü', 'Ù', 'Û', 'Ų']),
        ('p', seq!['þ', 'ρ', 'þ', 'ṕ']),
        ('P', seq!['Þ', 'Ṕ', 'Ṗ', 'ρ']),
        ('h', seq!['#', 'ħ', 'ĥ', 'ḥ']),
        ('H', seq!['#', 'Ħ', 'Ĥ', 'Η']),
        ('m', seq!['М', 'ṁ', 'ɱ', 'ḿ']),
        ('M', seq!['М', 'Ṁ', 'Ṃ', 'ʍ']),
        ('f', seq!['ƒ', 'ḟ', 'ғ', 'ḟ']),
        ('F', seq!['Ƒ', 'Ḟ', 'Ғ', 'Ḟ']),
        ('y', seq!['¥', 'ý', 'ÿ', 'ŷ']),
        ('Y', seq!['¥', 'Ý', 'Ÿ', 'Ŷ']),
    ]
}

impl LeetMap {
    /// The table's rows, as characters and look-alike sequences.
    pub closed spec fn rows(&self) -> Seq<(char, Seq<char>)> {
        Seq::new(self.entries@.len(), |i: int| (self.entries@[i].0, self.entries@[i].1@))
    }

    /// Whether a character has look-alikes.
    pub fn contains_key(&self, c: &char) -> (r: bool)
        ensures
            r == exists|i: int| 0 <= i < self.rows().len() && self.rows()[i].0 == *c,
    {
        let n = self.entries.len();
        for i in 0..n
            invariant
                n == self.entries@.len(),
                forall|j: int| 0 <= j < i ==> self.rows()[j].0 != *c,
        {
            if self.entries[i].0 == *c {
                assert(self.rows()[i as int].0 == *c);
                return true;
            }
        }
        false
    }

    /// The look-alikes of a character, from its first row.
    pub fn get(&self, c: &char) -> (r: Option<&Vec<char>>)
        ensures
            r is None <==> !(exists|i: int| 0 <= i < self.rows().len() && self.rows()[i].0 == *c),
            r matches Some(v) ==> exists|i: int|
                0 <= i < self.rows().len() && self.rows()[i].0 == *c && self.rows()[i].1 == v@,
    {
        let n = self.entries.len();
        for i in 0..n
            invariant
                n == self.entries@.len(),
                forall|j: int| 0 <= j < i ==> self.rows()[j].0 != *c,
        {
            if self.entries[i].0 == *c {
                assert(self.rows()[i as int].0 == *c && self.rows()[i as int].1 == self.entries@[i as int].1@);
                return Some(&self.entries[i].1);
            }
        }
        None
    }
}

/// The mapping of regular characters to their l33t-speak look-alikes.
#[verifier::rlimit(100)]
pub fn leet_map() -> (r: LeetMap)
    ensures
        r.rows() == leet_table(),
{
    let mut entries: Vec<(char, Vec<char>)> = Vec::new();
    entries.push(('a', vec!['4', '@', 'Δ', 'α']));
    entries.push(('A', vec!['4', '@', 'Δ', 'Λ']));
    entries.push(('e', vec!['3', '€', 'ε', '£']));
    entries.push(('E', vec!['3', '€', 'Ξ', 'Σ']));
    entries.push(('i', vec!['1', '!', '|', 'í']));
    entries.push(('I', vec!['1', '!', '|', 'Ì']));
    entries.push(('o', vec!['0', 'ø', 'Ω', '°']));
    entries.push(('O', vec!['0', 'Ø', 'Θ', '°']));
    entries.push(('s', vec!['5', '$', 'ß', '§']));
    entries.push(('S', vec!['5', '$', 'Š', '§']));
    entries.push(('t', vec!['7', '+', '†', 'ţ']));
    entries.push(('T', vec!['7', '+', '†', 'Ŧ']));
    entries.push(('l', vec!['1', '|', 'ł', 'ļ']));
    entries.push(('L', vec!['1', '|', 'Ł', '£']));
    entries.push(('g', vec!['9', '6', 'ģ', 'ğ']));
    entries.push(('G', vec!['9', '6', 'Ģ', 'Ğ']));
    entries.push(('b', vec!['8', 'ß', 'þ', 'ḅ']));
    entries.push(('B', vec!['8', 'ß', 'Þ', 'ß']));
    entries.push(('c', vec!['¢', 'ç', '(', 'č']));
    entries.push(('C', vec!['¢', 'Ç', '(', 'Ć']));
    entries.push(('d', vec!['đ', 'ď', 'Ð', 'ð']));
    entries.push(('D', vec!['Đ', 'Ď', 'Ð', 'Ð']));
    entries.push(('n', vec!['ñ', 'ň', 'η', 'ņ']));
    entries.push(('N', vec!['Ñ', 'Ň', 'Ń', 'Π']));
    entries.push(('u', vec!['µ', 'ü', 'ù', 'û']));
    entries.push(('U', vec!['Ü', 'Ù', 'Û', 'Ų']));
    entries.push(('p', vec!['þ', 'ρ', 'þ', 'ṕ']));
    entries.push(('P', vec!['Þ', 'Ṕ', 'Ṗ', 'ρ']));
    entries.push(('h', vec!['#', 'ħ', 'ĥ', 'ḥ']));
    entries.push(('H', vec!['#', 'Ħ', 'Ĥ', 'Η']));
    entries.push(('m', vec!['М', 'ṁ', 'ɱ', 'ḿ']));
    entries.push(('M', vec!['М', 'Ṁ', 'Ṃ', 'ʍ']));
    entries.push(('f', vec!['ƒ', 'ḟ', 'ғ', 'ḟ']));
    entries.push(('F', vec!['Ƒ', 'Ḟ', 'Ғ', 'Ḟ']));
    entries.push(('y', vec!['¥', 'ý', 'ÿ', 'ŷ']));
    entries.push(('Y', vec!['¥', 'Ý', 'Ÿ', 'Ŷ']));
    let r = LeetMap { entries };
    assert(r.rows() =~= leet_table());
    r
}

} // verus!
