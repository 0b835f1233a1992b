use vstd::prelude::*;
use vstd::string::*;

verus! {

/// Longest title that the automatic derivation produces, in characters.
pub const MAX_TITLE_CHARS: usize = 30;

/// Number of leading words that make up a derived title.
pub const TITLE_WORDS: usize = 3;

/// The whitespace-separated words of a text, in order.
pub uninterp spec fn words_of(s: Seq<char>) -> Seq<Seq<char>>;

/// Relies on `str::split_whitespace`: the words of `s`, in order, which
/// depend on the characters of `s` alone.
#[verifier::external_body]
fn split_words(s: &str) -> (r: Vec<String>)
    ensures
        r@.map_values(|w: String| w@) == words_of(s@),
{
    s.split_whitespace().map(|w| w.to_string()).collect()
}

/// The words joined with single spaces.
pub open spec fn join_words(ws: Seq<Seq<char>>) -> Seq<char>
    decreases ws.len(),
{
    if ws.len() == 0 {
        Seq::empty()
    } else if ws.len() == 1 {
        ws[0]
    } else {
        join_words(ws.drop_last()) + seq![' '] + ws.last()
    }
}

/// The first `n` characters of `s`, or all of `s` where it is shorter.
pub open spec fn first_chars(s: Seq<char>, n: nat) -> Seq<char> {
    if s.len() <= n {
        s
    } else {
        s.take(n as int)
    }
}

/// The first three words of the message, joined by single spaces.
pub open spec fn short_title(words: Seq<Seq<char>>) -> Seq<char> {
    join_words(
        if words.len() <= TITLE_WORDS {
            words
        } else {
            words.take(TITLE_WORDS as int)
        },
    )
}

/// The title derived from a message whose words are `words`: the short
/// form, unless that form is longer than the limit, in which case the
/// message itself cut to the limit.
pub open spec fn title_of(words: Seq<Seq<char>>, message: Seq<char>) -> Seq<char> {
    if short_title(words).len() > MAX_TITLE_CHARS {
        first_chars(message, MAX_TITLE_CHARS as nat)
    } else {
        short_title(words)
    }
}

/// A derived title never exceeds the limit.
pub proof fn lemma_title_bounded(words: Seq<Seq<char>>, message: Seq<char>)
    ensures
        title_of(words, message).len() <= MAX_TITLE_CHARS,
{
}

/// The title of `message`, given the words that `message` splits into.
pub fn title_from_words(words: &Vec<String>, message: &str) -> (r: String)
    ensures
        r@ == title_of(words@.map_values(|w: String| w@), message@),
        r@.len() <= MAX_TITLE_CHARS,
{
    let ghost ws = words@.map_values(|w: String| w@);
    let n: usize = if words.len() < TITLE_WORDS {
        words.len()
    } else {
        TITLE_WORDS
    };
    proof {
        let taken = if ws.len() <= TITLE_WORDS {
            ws
        } else {
            ws.take(TITLE_WORDS as int)
        };
        assert(taken =~= ws.take(n as int));
    }
    let mut short = String::new();
    let mut i: usize = 0;
    while i < n
        invariant
            n <= words@.len(),
            i <= n,
            ws == words@.map_values(|w: String| w@),
            short@ == join_words(ws.take(i as int)),
        decreases n - i,
    {
        let ghost before = short@;
        if i > 0 {
            proof {
                reveal_strlit(" ");
            }
            short.append(" ");
            assert(short@ == before + seq![' ']);
        }
        short.append(words[i].as_str());
        proof {
            let next = ws.take(i as int + 1);
            assert(next.last() == words@[i as int]@);
            assert(next.drop_last() =~= ws.take(i as int));
            if i == 0 {
                assert(short@ =~= next[0]);
            } else {
                assert(short@ =~= join_words(next.drop_last()) + seq![' '] + next.last());
            }
        }
        i = i + 1;
    }
    if short.as_str().unicode_len() > MAX_TITLE_CHARS {
        let len = message.unicode_len();
        let end: usize = if len < MAX_TITLE_CHARS {
            len
        } else {
            MAX_TITLE_CHARS
        };
        let cut = message.substring_char(0, end);
        proof {
            assert(cut@ =~= first_chars(message@, MAX_TITLE_CHARS as nat));
        }
        String::from_str(cut)
    } else {
        short
    }
}

/// The title derived from a conversation's first user message.
pub fn derive_title(message: &str) -> (r: String)
    ensures
        r@ == title_of(words_of(message@), message@),
        r@.len() <= MAX_TITLE_CHARS,
{
    let words = split_words(message);
    title_from_words(&words, message)
}

} // verus!
