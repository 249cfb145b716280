//! The character classes and the alphabet that a request selects.
use vstd::prelude::*;

verus! {

/// The shortest string that may be requested.
pub const MIN_REQUIRED_LENGTH: usize = 20;

/// The longest string that may be requested.
pub const MAX_ALLOWED_LENGTH: usize = 64;

/// The 52 Latin letters, lowercase first, each class in alphabetical order.
pub open spec fn letters() -> Seq<char> {
    seq![
        'a', 'b', 'c', 'd', 'e', 'f', 'g', 'h', 'i', 'j', 'k', 'l', 'm',
        'n', 'o', 'p', 'q', 'r', 's', 't', 'u', 'v', 'w', 'x', 'y', 'z',
        'A', 'B', 'C', 'D', 'E', 'F', 'G', 'H', 'I', 'J', 'K', 'L', 'M',
        'N', 'O', 'P', 'Q', 'R', 'S', 'T', 'U', 'V', 'W', 'X', 'Y', 'Z',
    ]
}

/// The ten decimal digits in ascending order.
pub open spec fn digits() -> Seq<char> {
    seq!['0', '1', '2', '3', '4', '5', '6', '7', '8', '9']
}

/// The 27 special characters, in the order in which they are appended.
pub open spec fn specials() -> Seq<char> {
    seq![
        '!', '@', '#', '$', '%', '^', '&', '*', '(', ')', '-', '_', '=', '+',
        '[', ']', '{', '}', '|', ';', ':', ',', '.', '<', '>', '?',
    ]
}

/// The alphabet of one request: the letters, then the digits if asked for,
/// then the special characters if asked for.
pub open spec fn alphabet(numbers: bool, special_chars: bool) -> Seq<char> {
    letters()
        + (if numbers { digits() } else { Seq::empty() })
        + (if special_chars { specials() } else { Seq::empty() })
}

/// Without digits or special characters the alphabet is exactly the 52
/// letters; each class adds its own count of characters.
pub proof fn lemma_alphabet_size(numbers: bool, special_chars: bool)
    ensures
        alphabet(false, false) == letters(),
        alphabet(numbers, special_chars).len() == 52 + (if numbers { 10int } else { 0int }) + (
        if special_chars {
            26int
        } else {
            0int
        }),
{
    assert(alphabet(false, false) =~= letters());
}

/// Enabling a character class only adds characters: every character allowed
/// before stays allowed (the letters among them), and each class that is
/// switched on brings at least one character that was not allowed before.
pub proof fn lemma_enabling_classes_expands(n1: bool, s1: bool, n2: bool, s2: bool)
    requires
        n1 ==> n2,
        s1 ==> s2,
    ensures
        forall|c: char| alphabet(n1, s1).contains(c) ==> alphabet(n2, s2).contains(c),
        forall|c: char| letters().contains(c) ==> alphabet(n2, s2).contains(c),
        (n1 != n2 || s1 != s2) ==> exists|c: char|
            alphabet(n2, s2).contains(c) && !alphabet(n1, s1).contains(c),
{
    let a1 = alphabet(n1, s1);
    let a2 = alphabet(n2, s2);
    let d1: Seq<char> = if n1 { digits() } else { Seq::empty() };
    let d2: Seq<char> = if n2 { digits() } else { Seq::empty() };
    let p1: Seq<char> = if s1 { specials() } else { Seq::empty() };
    assert forall|c: char| a1.contains(c) implies a2.contains(c) by {
        let i = choose|i: int| 0 <= i < a1.len() && a1[i] == c;
        if i < 52 {
            assert(a2[i] == c);
        } else if i < 52 + d1.len() {
            assert(a2[i] == c);
        } else {
            let k = i - 52 - d1.len();
            assert(p1[k] == c);
            assert(a2[52 + d2.len() as int + k] == c);
        }
    }
    assert forall|c: char| letters().contains(c) implies a2.contains(c) by {
        let i = choose|i: int| 0 <= i < letters().len() && letters()[i] == c;
        assert(a2[i] == c);
    }
    if n1 != n2 {
        assert(a2[52] == '0');
        assert(!a1.contains('0'));
    } else if s1 != s2 {
        assert(a2[52 + d2.len() as int] == '!');
        assert(!a1.contains('!'));
    }
}

/// No character occurs twice in any alphabet.
pub proof fn lemma_alphabet_no_duplicates(numbers: bool, special_chars: bool)
    ensures
        alphabet(numbers, special_chars).no_duplicates(),
{
    let a = alphabet(numbers, special_chars);
    assert forall|i: int, j: int| 0 <= i < a.len() && 0 <= j < a.len() && i != j implies a[i]
        != a[j] by {
        assert(a[i] != a[j]);
    }
}

/// Builds the alphabet selected by the two character-class flags.
pub fn build_alphabet(numbers: bool, special_chars: bool) -> (r: Vec<char>)
    ensures
        r@ == alphabet(numbers, special_chars),
{
    let mut r: Vec<char> = vec![
        'a', 'b', 'c', 'd', 'e', 'f', 'g', 'h', 'i', 'j', 'k', 'l', 'm',
        'n', 'o', 'p', 'q', 'r', 's', 't', 'u', 'v', 'w', 'x', 'y', 'z',
        'A', 'B', 'C', 'D', 'E', 'F', 'G', 'H', 'I', 'J', 'K', 'L', 'M',
        'N', 'O', 'P', 'Q', 'R', 'S', 'T', 'U', 'V', 'W', 'X', 'Y', 'Z',
    ];
    assert(r@ =~= letters());
    if numbers {
        let mut d: Vec<char> = vec!['0', '1', '2', '3', '4', '5', '6', '7', '8', '9'];
        assert(d@ =~= digits());
        r.append(&mut d);
    }
    if special_chars {
        let mut s: Vec<char> = vec![
            '!', '@', '#', '$', '%', '^', '&', '*', '(', ')', '-', '_', '=', '+',
            '[', ']', '{', '}', '|', ';', ':', ',', '.', '<', '>', '?',
        ];
        assert(s@ =~= specials());
        r.append(&mut s);
    }
    assert(r@ =~= alphabet(numbers, special_chars));
    r
}

} // verus!
