//! Signature formatting: an ordered word sample is joined into a camelCase
//! function name — the first word verbatim, every later word title-cased —
//! and the fixed argument-type list is appended in parentheses.

use vstd::prelude::*;
use vstd::string::StringExecFns;

verus! {

/// The title-case form of a word, as heck computes it.  The result depends
/// on the characters of the word alone.
pub uninterp spec fn title_case_of(word: Seq<char>) -> Seq<char>;

/// Relies on heck's `ToTitleCase::to_title_case`: a pure conversion of the
/// input characters (each word capitalized, words joined by spaces; on the
/// space-free dictionary words used here, a single capitalized word).
#[verifier::external_body]
fn to_title_case(word: &str) -> (r: String)
    ensures
        r@ == title_case_of(word@),
{
    heck::ToTitleCase::to_title_case(word)
}

/// The function name formed from an ordered word list: the first word
/// verbatim, every later word in title case, concatenated without
/// separators.
pub open spec fn spec_name(words: Seq<Seq<char>>) -> Seq<char>
    decreases words.len(),
{
    if words.len() == 0 {
        Seq::empty()
    } else if words.len() == 1 {
        words[0]
    } else {
        spec_name(words.drop_last()) + title_case_of(words.last())
    }
}

/// The full signature: the joined name followed by the argument-type list
/// in parentheses.
pub open spec fn spec_signature(words: Seq<Seq<char>>, args: Seq<char>) -> Seq<char> {
    spec_name(words) + seq!['('] + args + seq![')']
}

/// Formats an ordered word list and an argument-type list into a candidate
/// signature.  The argument-type list is passed through unmodified.
pub fn format_signature(words: &Vec<String>, args: &str) -> (r: String)
    ensures
        r@ == spec_signature(words.deep_view(), args@),
{
    let ghost w: Seq<Seq<char>> = words.deep_view();
    let mut name = String::new();
    assert(name@ =~= spec_name(w.take(0)));
    for i in 0..words.len()
        invariant
            w == words.deep_view(),
            name@ == spec_name(w.take(i as int)),
    {
        if i == 0 {
            name.append(words[i].as_str());
            assert(w.take(1).len() == 1);
            assert(w.take(1)[0] == w[0]);
            assert(name@ =~= spec_name(w.take(i + 1)));
        } else {
            let titled = to_title_case(words[i].as_str());
            name.append(titled.as_str());
            assert(w.take(i + 1).drop_last() =~= w.take(i as int));
            assert(w.take(i + 1).last() == w[i as int]);
            assert(name@ =~= spec_name(w.take(i + 1)));
        }
    }
    assert(w.take(words@.len() as int) =~= w);
    let mut sig = name;
    sig.append("(");
    sig.append(args);
    sig.append(")");
    proof {
        reveal_strlit("(");
        reveal_strlit(")");
        assert(sig@ =~= spec_signature(w, args@));
    }
    sig
}

} // verus!
