//! Whitespace tokenization of argument fragments and their composition
//! into one ordered argument vector.

use vstd::prelude::*;
use vstd::string::*;

verus! {

/// The code points that carry the Unicode `White_Space` property.
pub open spec fn is_space(c: char) -> bool {
    let u = c as u32;
    ||| 0x09 <= u <= 0x0D
    ||| u == 0x20
    ||| u == 0x85
    ||| u == 0xA0
    ||| u == 0x1680
    ||| 0x2000 <= u <= 0x200A
    ||| u == 0x2028
    ||| u == 0x2029
    ||| u == 0x202F
    ||| u == 0x205F
    ||| u == 0x3000
}

/// The index of the first whitespace character of `s` at or after `from`,
/// or `s.len()` when there is none.
pub open spec fn word_end(s: Seq<char>, from: int) -> int
    decreases s.len() - from,
{
    if from < 0 || from >= s.len() {
        s.len() as int
    } else if is_space(s[from]) {
        from
    } else {
        word_end(s, from + 1)
    }
}

/// Whether a token starts at `at`: a non-whitespace character that opens
/// the sequence or follows a whitespace character.
pub open spec fn is_word_start(s: Seq<char>, at: int) -> bool {
    &&& 0 <= at < s.len()
    &&& !is_space(s[at])
    &&& (at == 0 || is_space(s[at - 1]))
}

/// The tokens of `s` that start at or after `from`: the maximal runs of
/// non-whitespace characters, in order.
pub open spec fn tokens_from(s: Seq<char>, from: int) -> Seq<Seq<char>>
    decreases s.len() - from,
{
    if from < 0 || from >= s.len() {
        Seq::empty()
    } else if is_word_start(s, from) {
        seq![s.subrange(from, word_end(s, from))] + tokens_from(s, from + 1)
    } else {
        tokens_from(s, from + 1)
    }
}

/// The whitespace-delimited tokens of a fragment. There is no quoting: a
/// token never holds whitespace.
pub open spec fn tokens(s: Seq<char>) -> Seq<Seq<char>> {
    tokens_from(s, 0)
}

/// The views of a vector of strings.
pub open spec fn strings_view(v: Seq<String>) -> Seq<Seq<char>> {
    Seq::new(v.len(), |i: int| v[i]@)
}

/// `word_end` stays inside the sequence and moves past a non-space start.
pub proof fn lemma_word_end_bounds(s: Seq<char>, from: int)
    requires
        0 <= from <= s.len(),
    ensures
        from <= word_end(s, from) <= s.len(),
        from < s.len() && !is_space(s[from]) ==> from < word_end(s, from),
        word_end(s, from) < s.len() ==> is_space(s[word_end(s, from)]),
        forall|k: int| from <= k < word_end(s, from) ==> !is_space(#[trigger] s[k]),
    decreases s.len() - from,
{
    if from < s.len() && !is_space(s[from]) {
        lemma_word_end_bounds(s, from + 1);
    }
}

/// Whether `c` is a whitespace character.
pub fn is_whitespace(c: char) -> (b: bool)
    ensures
        b == is_space(c),
{
    let u: u32 = c as u32;
    (0x09 <= u && u <= 0x0D) || u == 0x20 || u == 0x85 || u == 0xA0 || u == 0x1680 || (0x2000 <= u
        && u <= 0x200A) || u == 0x2028 || u == 0x2029 || u == 0x202F || u == 0x205F || u == 0x3000
}

/// Splits a fragment on runs of whitespace. An empty or all-whitespace
/// fragment gives no token.
pub fn tokenize(fragment: &str) -> (out: Vec<String>)
    ensures
        strings_view(out@) == tokens(fragment@),
{
    let n: usize = fragment.unicode_len();
    let mut out: Vec<String> = Vec::new();
    let mut i: usize = 0;
    assert(strings_view(out@) =~= Seq::<Seq<char>>::empty());
    while i < n
        invariant
            n == fragment@.len(),
            i <= n,
            i == 0 || i == n || is_space(fragment@[i - 1]),
            strings_view(out@) + tokens_from(fragment@, i as int) == tokens(fragment@),
        decreases n - i,
    {
        if is_whitespace(fragment.get_char(i)) {
            i = i + 1;
        } else {
            let start: usize = i;
            i = i + 1;
            while i < n && !is_whitespace(fragment.get_char(i))
                invariant
                    n == fragment@.len(),
                    start < i <= n,
                    !is_space(fragment@[i - 1]),
                    word_end(fragment@, i as int) == word_end(fragment@, start as int),
                    tokens_from(fragment@, i as int) == tokens_from(fragment@, start + 1),
                decreases n - i,
            {
                i = i + 1;
            }
            let word: String = String::from_str(fragment.substring_char(start, i));
            let ghost before = strings_view(out@);
            out.push(word);
            assert(strings_view(out@) =~= before + seq![
                fragment@.subrange(start as int, i as int),
            ]);
            if i < n {
                i = i + 1;
            }
        }
    }
    out
}

/// The composed argument list: the tokens of the base fragment, then
/// those of the transaction fragment if asked for, then those of the
/// network fragment if asked for.
pub open spec fn composed(
    base: Seq<char>,
    tx: Seq<char>,
    network: Seq<char>,
    include_tx: bool,
    include_network: bool,
) -> Seq<Seq<char>> {
    tokens(base) + (if include_tx {
        tokens(tx)
    } else {
        Seq::empty()
    }) + (if include_network {
        tokens(network)
    } else {
        Seq::empty()
    })
}

/// Concatenates the tokens of the selected fragments in the fixed order
/// base, transaction, network.
pub fn compose_args(
    base: &str,
    tx: &str,
    network: &str,
    include_tx: bool,
    include_network: bool,
) -> (out: Vec<String>)
    ensures
        strings_view(out@) == composed(base@, tx@, network@, include_tx, include_network),
{
    let mut out: Vec<String> = tokenize(base);
    if include_tx {
        let ghost before = out@;
        let mut more: Vec<String> = tokenize(tx);
        let ghost added = more@;
        out.append(&mut more);
        assert(strings_view(out@) =~= strings_view(before) + strings_view(added));
    }
    if include_network {
        let ghost before = out@;
        let mut more: Vec<String> = tokenize(network);
        let ghost added = more@;
        out.append(&mut more);
        assert(strings_view(out@) =~= strings_view(before) + strings_view(added));
    }
    assert(strings_view(out@) =~= composed(base@, tx@, network@, include_tx, include_network));
    out
}

/// With neither the transaction nor the network group selected, the
/// composed arguments are the tokens of the base fragment alone.
pub proof fn lemma_base_only(base: Seq<char>, tx: Seq<char>, network: Seq<char>)
    ensures
        composed(base, tx, network, false, false) == tokens(base),
{
    assert(composed(base, tx, network, false, false) =~= tokens(base));
}

/// With every group selected, the composed arguments are the tokens of
/// the three fragments in order: none is dropped, none is added, and an
/// empty fragment contributes nothing.
pub proof fn lemma_all_groups(base: Seq<char>, tx: Seq<char>, network: Seq<char>)
    ensures
        composed(base, tx, network, true, true) == tokens(base) + tokens(tx) + tokens(network),
        composed(base, tx, network, true, true).len() == tokens(base).len() + tokens(tx).len()
            + tokens(network).len(),
        tokens(Seq::<char>::empty()) == Seq::<Seq<char>>::empty(),
        base.len() == 0 ==> composed(base, tx, network, true, true) == tokens(tx) + tokens(network),
        tx.len() == 0 ==> composed(base, tx, network, true, true) == tokens(base) + tokens(network),
        network.len() == 0 ==> composed(base, tx, network, true, true) == tokens(base) + tokens(tx),
{
    assert(tokens(Seq::<char>::empty()) =~= Seq::<Seq<char>>::empty());
    if base.len() == 0 {
        assert(tokens(base) + tokens(tx) =~= tokens(tx));
    }
    if tx.len() == 0 {
        assert(tokens(base) + tokens(tx) =~= tokens(base));
    }
    if network.len() == 0 {
        assert(tokens(base) + tokens(tx) + tokens(network) =~= tokens(base) + tokens(tx));
    }
}

/// Every token is a non-empty run without whitespace, bounded on both
/// sides by whitespace or by an end of the fragment.
pub proof fn lemma_tokens_are_words(s: Seq<char>, from: int)
    requires
        0 <= from <= s.len(),
    ensures
        forall|k: int|
            0 <= k < tokens_from(s, from).len() ==> {
                let t = #[trigger] tokens_from(s, from)[k];
                &&& t.len() > 0
                &&& forall|j: int| 0 <= j < t.len() ==> !is_space(#[trigger] t[j])
            },
    decreases s.len() - from,
{
    if from < s.len() {
        lemma_tokens_are_words(s, from + 1);
        if is_word_start(s, from) {
            lemma_word_end_bounds(s, from);
            let w = s.subrange(from, word_end(s, from));
            let rest = tokens_from(s, from + 1);
            assert forall|k: int| 0 <= k < tokens_from(s, from).len() implies {
                let t = #[trigger] tokens_from(s, from)[k];
                &&& t.len() > 0
                &&& forall|j: int| 0 <= j < t.len() ==> !is_space(#[trigger] t[j])
            } by {
                if k == 0 {
                    assert(tokens_from(s, from)[0] == w);
                    assert forall|j: int| 0 <= j < w.len() implies !is_space(#[trigger] w[j]) by {
                        assert(w[j] == s[from + j]);
                    }
                } else {
                    assert(tokens_from(s, from)[k] == rest[k - 1]);
                }
            }
        }
    }
}

} // verus!
