use vstd::prelude::*;

verus! {

/// What `str::split_whitespace` yields for a text: its words, in order.
pub uninterp spec fn whitespace_words(s: Seq<char>) -> Seq<Seq<char>>;

/// The character sequences of a list of strings.
pub open spec fn texts(ws: Seq<String>) -> Seq<Seq<char>> {
    ws.map_values(|w: String| w@)
}

/// How many times `w` occurs in `ws`.
pub open spec fn occurrences(ws: Seq<Seq<char>>, w: Seq<char>) -> nat
    decreases ws.len(),
{
    if ws.len() == 0 {
        0
    } else {
        occurrences(ws.drop_last(), w) + if ws.last() == w { 1nat } else { 0nat }
    }
}

/// `(w, c)` names the most frequent word of `ws` and its count; among words
/// of equal count the one that occurs first wins. No words gives `("", 0)`.
pub open spec fn is_most_frequent(ws: Seq<Seq<char>>, w: Seq<char>, c: nat) -> bool {
    if ws.len() == 0 {
        w.len() == 0 && c == 0
    } else {
        &&& c == occurrences(ws, w)
        &&& forall|j: int| 0 <= j < ws.len() ==> occurrences(ws, #[trigger] ws[j]) <= c
        &&& exists|i: int|
            0 <= i < ws.len() && ws[i] == w && forall|j: int|
                0 <= j < i ==> occurrences(ws, #[trigger] ws[j]) < c
    }
}

/// Relies on str::split_whitespace: the words of a text, in order, each made
/// an owned string.
#[verifier::external_body]
fn split_words(text: &str) -> (r: Vec<String>)
    ensures
        texts(r@) == whitespace_words(text@),
        text@.len() == 0 ==> r@.len() == 0,
{
    text.split_whitespace().map(|w| w.to_string()).collect()
}

/// Counts how many entries of `words` equal `w`.
fn count_of(words: &Vec<String>, w: &String) -> (r: usize)
    ensures
        r == occurrences(texts(words@), w@),
{
    let mut c: usize = 0;
    let mut k: usize = 0;
    while k < words.len()
        invariant
            k <= words.len(),
            c == occurrences(texts(words@).subrange(0, k as int), w@),
            c <= k,
        decreases words.len() - k,
    {
        proof {
            let ws = texts(words@);
            assert(ws.subrange(0, k + 1).drop_last() =~= ws.subrange(0, k as int));
        }
        if words[k] == *w {
            c = c + 1;
        }
        k = k + 1;
    }
    proof {
        assert(texts(words@).subrange(0, words.len() as int) =~= texts(words@));
    }
    c
}

/// The most frequent word of `words` and how often it occurs; ties go to the
/// word that occurs first, and no words give an empty word with count zero.
pub fn most_frequent_in(words: &Vec<String>) -> (r: (String, usize))
    ensures
        is_most_frequent(texts(words@), r.0@, r.1 as nat),
{
    let ghost ws = texts(words@);
    let mut best = String::new();
    let mut best_count: usize = 0;
    let mut i: usize = 0;
    while i < words.len()
        invariant
            ws == texts(words@),
            i <= words.len(),
            forall|j: int| 0 <= j < i ==> occurrences(ws, #[trigger] ws[j]) <= best_count,
            i == 0 ==> best@.len() == 0 && best_count == 0,
            i > 0 ==> {
                &&& best_count == occurrences(ws, best@)
                &&& exists|b: int|
                    0 <= b < i && ws[b] == best@ && forall|j: int|
                        0 <= j < b ==> occurrences(ws, #[trigger] ws[j]) < best_count
            },
        decreases words.len() - i,
    {
        let c = count_of(words, &words[i]);
        proof {
            assert(ws[i as int] == words@[i as int]@);
            lemma_occurs_once(ws, i as int);
        }
        if c > best_count {
            best = words[i].clone();
            best_count = c;
            proof {
                assert(ws[i as int] == best@);
            }
        }
        i = i + 1;
    }
    (best, best_count)
}

/// A word at some position of `ws` occurs in it at least once.
proof fn lemma_occurs_once(ws: Seq<Seq<char>>, i: int)
    requires
        0 <= i < ws.len(),
    ensures
        occurrences(ws, ws[i]) >= 1,
    decreases ws.len(),
{
    if i < ws.len() - 1 {
        lemma_occurs_once(ws.drop_last(), i);
        assert(ws.drop_last()[i] == ws[i]);
    }
}

/// The most frequent whitespace-separated word of `text` and its count; ties
/// go to the word that occurs first, and a text without words gives `("", 0)`.
pub fn most_frequent_word(text: &str) -> (r: (String, usize))
    ensures
        is_most_frequent(whitespace_words(text@), r.0@, r.1 as nat),
{
    let words = split_words(text);
    most_frequent_in(&words)
}

/// Compares a guess with the secret: `0` when equal, `1` when the guess is
/// too high, `-1` when it is too low.
pub fn check_guess(guess: i32, secret: i32) -> (r: i32)
    ensures
        guess == secret ==> r == 0,
        guess > secret ==> r == 1,
        guess < secret ==> r == -1,
{
    if guess == secret {
        0
    } else if guess > secret {
        1
    } else {
        -1
    }
}

/// Whether `n` is divisible by two.
pub fn is_even(n: i32) -> (r: bool)
    ensures
        r == (n % 2 == 0),
{
    n % 2 == 0
}

} // verus!
