//! Small computations over vectors, strings and maps.
use std::collections::HashMap;
use vstd::prelude::*;
use vstd::string::{StrSliceExecFns, StringExecFns};
use crate::shape::{size_text, size_description, Attributes, Type};
use crate::text::{decimal, push_decimal};

verus! {

broadcast use vstd::std_specs::hash::group_hash_axioms;

/// The middle of a list: its middle item, or its two middle items when
/// its length is even; `[-1]` for an empty list.
pub fn median_of(list: &Vec<i32>) -> (r: Vec<i32>)
    ensures
        list@.len() == 0 ==> r@ == seq![-1i32],
        list@.len() > 0 && list@.len() % 2 == 0 ==> r@ == seq![
            list@[list@.len() / 2 - 1],
            list@[(list@.len() / 2) as int],
        ],
        list@.len() % 2 == 1 ==> r@ == seq![list@[(list@.len() / 2) as int]],
{
    let len = list.len();
    if len == 0 {
        return vec![-1];
    }
    if len % 2 == 0 {
        let first = list[len / 2 - 1];
        let second = list[len / 2];
        return vec![first, second];
    }
    let median = list[len / 2];
    vec![median]
}

/// How often `k` occurs in `s`.
pub open spec fn count(s: Seq<i32>, k: i32) -> nat
    decreases s.len(),
{
    if s.len() == 0 {
        0
    } else {
        count(s.drop_last(), k) + if s.last() == k {
            1nat
        } else {
            0nat
        }
    }
}

proof fn lemma_count_bounded(s: Seq<i32>, k: i32)
    ensures
        count(s, k) <= s.len(),
    decreases s.len(),
{
    if s.len() > 0 {
        lemma_count_bounded(s.drop_last(), k);
    }
}

proof fn lemma_count_positive(s: Seq<i32>, i: int)
    requires
        0 <= i < s.len(),
    ensures
        count(s, s[i]) >= 1,
    decreases s.len(),
{
    if i < s.len() - 1 {
        lemma_count_positive(s.drop_last(), i);
    }
}

/// Whether `k` occurs in `s` at least as often as any item of `s`.
pub open spec fn is_mode(s: Seq<i32>, k: i32) -> bool {
    &&& s.contains(k)
    &&& forall|j: int| 0 <= j < s.len() ==> count(s, #[trigger] s[j]) <= count(s, k)
}

/// A most frequent item of `iter`, cast to `usize`; 0 for an empty list.
/// Which of several equally frequent items is returned is not fixed.
pub fn mode_of(iter: &Vec<i32>) -> (r: usize)
    ensures
        iter@.len() == 0 ==> r == 0,
        iter@.len() > 0 ==> exists|k: i32| is_mode(iter@, k) && r == k as usize,
{
    let s = Ghost(iter@);
    let n = iter.len();
    let mut counts: HashMap<i32, usize> = HashMap::new();
    let mut i: usize = 0;
    while i < n
        invariant
            n == iter@.len(),
            s@ == iter@,
            i <= n,
            forall|k: i32|
                #![trigger counts@.contains_key(k)]
                #![trigger count(s@.take(i as int), k)]
                (counts@.contains_key(k) ==> counts@[k] == count(s@.take(i as int), k))
                    && (!counts@.contains_key(k) ==> count(s@.take(i as int), k) == 0),
        decreases n - i,
    {
        let e = iter[i];
        let c: usize = match counts.get(&e) {
            Some(c) => *c,
            None => 0,
        };
        proof {
            assert(s@.take(i + 1).drop_last() =~= s@.take(i as int));
            lemma_count_bounded(s@.take(i as int), e);
            assert(c == count(s@.take(i as int), e));
        }
        counts.insert(e, c + 1);
        proof {
            assert forall|k: i32| #![trigger counts@.contains_key(k)] counts@.contains_key(k) ==> counts@[k] == count(
                s@.take(i + 1),
                k,
            ) by {
                assert(s@.take(i + 1).drop_last() =~= s@.take(i as int));
            }
            assert forall|k: i32| #![trigger count(s@.take(i + 1), k)] !counts@.contains_key(k) ==> count(
                s@.take(i + 1),
                k,
            ) == 0 by {
                assert(s@.take(i + 1).drop_last() =~= s@.take(i as int));
            }
        }
        i = i + 1;
    }
    assert(s@.take(n as int) =~= s@);
    let mut max: usize = 0;
    let mut max_value: usize = 0;
    let ghost mut best: i32 = 0;
    let mut j: usize = 0;
    while j < n
        invariant
            n == iter@.len(),
            s@ == iter@,
            j <= n,
            forall|k: i32|
                #![trigger counts@.contains_key(k)]
                (counts@.contains_key(k) ==> counts@[k] == count(s@, k))
                    && (!counts@.contains_key(k) ==> count(s@, k) == 0),
            j == 0 ==> max == 0 && max_value == 0,
            j > 0 ==> s@.contains(best) && max == best as usize && max_value == count(s@, best),
            forall|l: int| 0 <= l < j ==> count(s@, #[trigger] s@[l]) <= max_value,
        decreases n - j,
    {
        let e = iter[j];
        proof {
            lemma_count_positive(s@, j as int);
            assert(counts@.contains_key(e));
        }
        let value: usize = match counts.get(&e) {
            Some(c) => *c,
            None => 0,
        };
        if value > max_value {
            max_value = value;
            #[verifier::truncate]
            let cast = e as usize;
            max = cast;
            proof {
                best = e;
            }
        }
        j = j + 1;
    }
    proof {
        if n > 0 {
            assert(is_mode(s@, best));
        }
    }
    max
}

/// The code of `c` in lower case, for ASCII letters.
pub open spec fn ascii_lower_code(c: char) -> u32 {
    if 65 <= c as u32 <= 90 {
        (c as u32 + 32) as u32
    } else {
        c as u32
    }
}

/// Whether the low byte of `letter`'s lower-case code is that of a, e, i,
/// o or u.
pub open spec fn vowel(letter: char) -> bool {
    let b = ascii_lower_code(letter) % 256;
    b == 97 || b == 101 || b == 105 || b == 111 || b == 117
}

/// Whether `letter` counts as a vowel: its lower-case form, cut to one
/// byte, is one of a, e, i, o, u.
pub fn is_vowel(letter: &char) -> (r: bool)
    ensures
        r == vowel(*letter),
{
    let vowels: [u32; 5] = [97, 101, 105, 111, 117];
    let code = *letter as u32;
    let lower: u32 = if 65 <= code && code <= 90 {
        code + 32
    } else {
        code
    };
    let letter_ascii = lower % 256;
    let mut i: usize = 0;
    while i < 5
        invariant
            i <= 5,
            vowels@ == seq![97u32, 101, 105, 111, 117],
            letter_ascii == ascii_lower_code(*letter) % 256,
            forall|j: int| 0 <= j < i ==> vowels@[j] != letter_ascii,
        decreases 5 - i,
    {
        if letter_ascii == vowels[i] {
            return true;
        }
        i = i + 1;
    }
    false
}

/// The pig latin form of `word`: a word that starts with a consonant
/// moves it to the end as "-Cay"; one that starts with a vowel gets
/// "-hay"; the empty word stays empty.
pub open spec fn pig_latin(word: Seq<char>) -> Seq<char> {
    if word.len() == 0 {
        Seq::empty()
    } else if !vowel(word[0]) {
        word.drop_first() + "-"@ + seq![word[0]] + "ay"@
    } else {
        word + "-hay"@
    }
}

pub fn to_pig_latin(word: &str) -> (r: String)
    ensures
        r@ == pig_latin(word@),
{
    let n = word.unicode_len();
    if n == 0 {
        return String::new();
    }
    let first = word.get_char(0);
    if !is_vowel(&first) {
        let mut r = String::from_str(word.substring_char(1, n));
        r.append("-");
        r.append(word.substring_char(0, 1));
        r.append("ay");
        assert(word@.subrange(1, n as int) =~= word@.drop_first());
        assert(word@.subrange(0, 1) =~= seq![word@[0]]);
        return r;
    }
    let mut r = String::from_str(word);
    r.append("-hay");
    r
}

/// "Valid!" or "Invalid!".
pub fn ternary_func(valid: bool) -> (r: String)
    ensures
        r@ == if valid {
            "Valid!"@
        } else {
            "Invalid!"@
        },
{
    if valid {
        String::from_str("Valid!")
    } else {
        String::from_str("Invalid!")
    }
}

/// "Longer string" followed by `curr`.
pub fn concatenation(curr: &str) -> (r: String)
    ensures
        r@ == "Longer string"@ + curr@,
{
    let concat = String::from_str("Longer string");
    concat.concat(curr)
}

/// "Name - w: W, h: H".
pub open spec fn labelled_size(label: Seq<char>, a: Attributes) -> Seq<char> {
    label + " - w: "@ + decimal(a.width as nat) + ", h: "@ + decimal(a.height as nat)
}

/// How a shape found in a map is described. A rectangle carries the
/// label "Triangle".
pub open spec fn found_text(found: Option<Type>) -> Seq<char> {
    match found {
        Some(Type::Triangle(a)) => labelled_size("Triangle"@, a),
        Some(Type::Circle(a)) => labelled_size("Circle"@, a),
        Some(Type::Square(a)) => labelled_size("Square"@, a),
        Some(Type::Rectangle(a)) => labelled_size("Triangle"@, a),
        _ => "Non existant shape 🤷‍♀️"@,
    }
}

fn labelled_description(label: &str, a: &Attributes) -> (r: String)
    ensures
        r@ == labelled_size(label@, *a),
{
    let mut r = String::from_str(label);
    r.append(" - w: ");
    push_decimal(&mut r, a.width as u64);
    r.append(", h: ");
    push_decimal(&mut r, a.height as u64);
    r
}

/// Describes a shape that a lookup found, or its absence.
pub fn describe_found(found: Option<&Type>) -> (r: String)
    ensures
        r@ == found_text(
            match found {
                Some(t) => Some(*t),
                None => None,
            },
        ),
{
    match found {
        Some(Type::Triangle(a)) => labelled_description("Triangle", a),
        Some(Type::Circle(a)) => labelled_description("Circle", a),
        Some(Type::Square(a)) => labelled_description("Square", a),
        Some(Type::Rectangle(a)) => labelled_description("Triangle", a),
        _ => String::from_str("Non existant shape 🤷‍♀️"),
    }
}

/// Relies on `HashMap::get` with a `&str` key: the value stored under a key
/// with the same characters, if there is one.
#[verifier::external_body]
fn lookup<'m, 'k>(map: &'m HashMap<&'k str, Type>, key: &str) -> (r: Option<&'m Type>)
    ensures
        r matches Some(v) ==> exists|k: &str| #[trigger] map@.contains_key(k) && k@ == key@ && map@[k] == *v,
        r is None ==> forall|k: &str| #[trigger] map@.contains_key(k) ==> k@ != key@,
{
    map.get(key)
}

/// Describes the shape stored under `shape` in `map`.
pub fn get_shape(map: &HashMap<&str, Type>, shape: &str) -> (r: String)
    ensures
        (exists|k: &str| #[trigger] map@.contains_key(k) && k@ == shape@ && r@ == found_text(Some(map@[k])))
            || ((forall|k: &str| #[trigger] map@.contains_key(k) ==> k@ != shape@) && r@ == found_text(None)),
{
    let found = lookup(map, shape);
    describe_found(found)
}

} // verus!
