//! Small algorithms over vectors, hash maps and strings.

use std::collections::HashMap;
use vstd::prelude::*;
use vstd::string::StrSliceExecFns;
use vstd::string::StringExecFns;

verus! {

/// How often `value` occurs in `list`.
pub open spec fn occurrences(list: Seq<i32>, value: i32) -> nat
    decreases list.len(),
{
    if list.len() == 0 {
        0
    } else {
        occurrences(list.drop_last(), value) + if list.last() == value {
            1nat
        } else {
            0nat
        }
    }
}

/// Whether no value occurs in `list` more often than `value` does.
pub open spec fn is_most_frequent(list: Seq<i32>, value: i32) -> bool {
    forall|other: i32| occurrences(list, other) <= occurrences(list, value)
}

/// Whether `value` completes its full number of occurrences with the element
/// at position `at - 1`, at a moment when every other value has occurred less
/// often than that.
pub open spec fn wins_at(list: Seq<i32>, value: i32, at: int) -> bool {
    &&& 0 < at <= list.len()
    &&& list[at - 1] == value
    &&& occurrences(list.take(at), value) == occurrences(list, value)
    &&& forall|other: i32|
        other != value ==> occurrences(list.take(at), other) < occurrences(list, value)
}

proof fn lemma_occurrences_step(list: Seq<i32>, i: int, value: i32)
    requires
        0 <= i < list.len(),
    ensures
        occurrences(list.take(i + 1), value) == occurrences(list.take(i), value) + if list[i]
            == value {
            1nat
        } else {
            0nat
        },
{
    assert(list.take(i + 1).drop_last() =~= list.take(i));
}

proof fn lemma_occurrences_grow(list: Seq<i32>, i: int, j: int, value: i32)
    requires
        0 <= i <= j <= list.len(),
    ensures
        occurrences(list.take(i), value) <= occurrences(list.take(j), value),
    decreases j - i,
{
    if i < j {
        lemma_occurrences_grow(list, i, j - 1, value);
        lemma_occurrences_step(list, j - 1, value);
    }
}

/// A most frequent value that wins at some position is the only one that
/// does: the two conditions together single out one value of the list.
pub proof fn lemma_mode_is_unique(list: Seq<i32>, a: i32, b: i32, at_a: int, at_b: int)
    requires
        is_most_frequent(list, a),
        is_most_frequent(list, b),
        wins_at(list, a, at_a),
        wins_at(list, b, at_b),
    ensures
        a == b,
{
    if a != b {
        if at_a <= at_b {
            lemma_occurrences_grow(list, at_a, at_b, a);
        } else {
            lemma_occurrences_grow(list, at_b, at_a, b);
        }
    }
}

/// The mode of a non-empty list: the value that occurs most often. Where
/// several values share the highest count, it is the one that reaches that
/// count first when the list is read from the front.
pub fn mode(integers: &Vec<i32>) -> (value: i32)
    requires
        integers@.len() > 0,
    ensures
        is_most_frequent(integers@, value),
        exists|at: int| wins_at(integers@, value, at),
{
    broadcast use vstd::std_specs::hash::group_hash_axioms;

    let ghost list = integers@;
    let mut map: HashMap<i32, usize> = HashMap::new();
    let mut modc: usize = 0;
    let mut modv: i32 = integers[0];
    let ghost mut won_at: int = 0;
    let mut i: usize = 0;
    while i < integers.len()
        invariant
            list == integers@,
            i <= list.len(),
            modc <= i,
            forall|v: i32| #[trigger] map@.contains_key(v) <==> occurrences(list.take(i as int), v) > 0,
            forall|v: i32| map@.contains_key(v) ==> #[trigger] map@[v] == occurrences(list.take(i as int), v),
            forall|v: i32| occurrences(list.take(i as int), v) <= modc,
            i == 0 ==> modc == 0,
            i > 0 ==> {
                &&& 0 < won_at <= i
                &&& list[won_at - 1] == modv
                &&& occurrences(list.take(won_at), modv) == modc
                &&& forall|v: i32| v != modv ==> occurrences(list.take(won_at), v) < modc
            },
        decreases list.len() - i,
    {
        let key = integers[i];
        let seen: usize = match map.get(&key) {
            Some(count) => *count,
            None => 0,
        };
        proof {
            assert forall|v: i32| #[trigger] occurrences(list.take(i as int + 1), v) == occurrences(
                list.take(i as int),
                v,
            ) + if v == key {
                1nat
            } else {
                0nat
            } by {
                lemma_occurrences_step(list, i as int, v);
            }
            assert(seen == occurrences(list.take(i as int), key));
        }
        let count: usize = seen + 1;
        map.insert(key, count);
        if count > modc {
            modc = count;
            modv = key;
            proof {
                won_at = i as int + 1;
            }
        }
        i += 1;
    }
    proof {
        assert(list.take(list.len() as int) =~= list);
        lemma_occurrences_grow(list, won_at, list.len() as int, modv);
        assert(wins_at(list, modv, won_at));
    }
    modv
}

/// Whether `c` is one of the five vowels, in either case.
pub open spec fn is_vowel(c: char) -> bool {
    ||| c == 'a' || c == 'A'
    ||| c == 'e' || c == 'E'
    ||| c == 'i' || c == 'I'
    ||| c == 'o' || c == 'O'
    ||| c == 'u' || c == 'U'
}

/// The pig latin form of a word: a word that starts with a vowel gets
/// `-hay` appended; any other word has its first character moved behind a
/// hyphen at the end, followed by `ay`.
pub open spec fn pig_latin_of(word: Seq<char>) -> Seq<char> {
    if is_vowel(word[0]) {
        word + seq!['-', 'h', 'a', 'y']
    } else {
        word.subrange(1, word.len() as int) + seq!['-', word[0], 'a', 'y']
    }
}

/// Converts a non-empty word to pig latin; characters are whole Unicode
/// scalar values, never parts of one.
pub fn pig_latin(txt: &str) -> (result: String)
    requires
        txt@.len() > 0,
    ensures
        result@ == pig_latin_of(txt@),
{
    proof {
        reveal_strlit("-hay");
        reveal_strlit("-");
        reveal_strlit("ay");
    }
    let length = txt.unicode_len();
    let first = txt.get_char(0);
    if first == 'a' || first == 'A' || first == 'e' || first == 'E' || first == 'i' || first == 'I'
        || first == 'o' || first == 'O' || first == 'u' || first == 'U' {
        let result = String::from_str(txt).concat("-hay");
        assert(result@ =~= pig_latin_of(txt@));
        result
    } else {
        let rest = txt.substring_char(1, length);
        let head = txt.substring_char(0, 1);
        let mut result = String::from_str(rest);
        result.append("-");
        result.append(head);
        result.append("ay");
        assert(result@ =~= pig_latin_of(txt@));
        result
    }
}

} // verus!
