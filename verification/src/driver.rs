//! The search driver: one iteration samples a candidate, formats it, hashes
//! it and claims its selector in the registry; a run repeats this up to a
//! caller-chosen budget, collects every newly seen pair, and stops early
//! when the target selector is claimed.

use vstd::prelude::*;

use crate::flags::RakeFlags;
use crate::formatter::format_signature;
use crate::formatter::spec_signature;
use crate::hasher::keccak256_of;
use crate::hasher::lemma_distinct_keys_distinct_selectors;
use crate::hasher::selector_and_key_of;
use crate::hasher::spec_selector;
use crate::hasher::spec_selector_key;
use crate::registry::DedupRegistry;
use crate::registry::InsertOutcome;
use crate::sampler::is_candidate_of;
use crate::sampler::sample_candidate;

verus! {

/// The iteration budget a full-length run uses: a large finite bound
/// standing in for exhaustive enumeration of the sampled space.
pub const MAX_ITER_COUNT: u64 = 0xffffffffffff;

/// A newly seen signature/selector pair, as emitted to the caller.
pub struct FunctionData {
    pub signature: String,
    pub selector: String,
}

/// A configuration the search refuses before it starts.
#[derive(Clone, Copy, Debug, PartialEq, Eq)]
pub enum ConfigError {
    /// The dictionary holds no words, so no candidate can be sampled.
    EmptyDictionary,
}

/// Well-formedness of an emitted pair under a dictionary and argument list:
/// the signature is formatted from a without-replacement word sample, the
/// selector is the signature's own selector, and the signature's digest has
/// its 32-byte length (recorded so selectors can be compared through keys).
pub open spec fn is_valid_report(fd: FunctionData, dict: Seq<Seq<char>>, args: Seq<char>) -> bool {
    &&& exists|words: Seq<Seq<char>>|
        is_candidate_of(dict, words) && fd.signature@ == spec_signature(words, args)
    &&& fd.selector@ == spec_selector(fd.signature@)
    &&& keccak256_of(fd.signature@).len() == 32
}

/// What one search iteration did.
pub enum StepOutcome {
    /// The candidate's selector had already been claimed; nothing changed.
    Duplicate,
    /// The candidate's selector was new and is not the target; the pair is
    /// handed out for reporting.
    Reported(FunctionData),
    /// The candidate's selector was new and equals the target.
    Matched(FunctionData),
}

/// One search iteration: samples a candidate from the dictionary, formats
/// and hashes it, and claims its selector in the registry.  Exactly the
/// first iteration to see a selector claims it; the claimed pair is handed
/// back, marked `Matched` when its selector equals the target.  A step can
/// be a duplicate only after some selector has been claimed, so a step on
/// an empty registry always claims one.
pub fn search_step(registry: &mut DedupRegistry, flags: &RakeFlags) -> (r:
    StepOutcome)
    requires
        flags.spec_dictionary().len() >= 1,
    ensures
        match r {
            StepOutcome::Duplicate => final (registry)@ == old(registry)@ && old(registry)@
                != Map::<u32, String>::empty(),
            StepOutcome::Reported(fd) => {
                &&& is_valid_report(fd, flags.spec_dictionary(), flags.spec_func_args())
                &&& fd.selector@ != flags.spec_match_selector()
                &&& !old(registry)@.contains_key(spec_selector_key(fd.signature@) as u32)
                &&& final (registry)@ == old(registry)@.insert(
                    spec_selector_key(fd.signature@) as u32,
                    fd.signature,
                )
            },
            StepOutcome::Matched(fd) => {
                &&& is_valid_report(fd, flags.spec_dictionary(), flags.spec_func_args())
                &&& fd.selector@ == flags.spec_match_selector()
                &&& !old(registry)@.contains_key(spec_selector_key(fd.signature@) as u32)
                &&& final (registry)@ == old(registry)@.insert(
                    spec_selector_key(fd.signature@) as u32,
                    fd.signature,
                )
            },
        },
{
    let dict = flags.dictionary_words();
    let words = sample_candidate(dict);
    let signature = format_signature(&words, flags.func_args_str().as_str());
    let (selector, key) = selector_and_key_of(signature.as_str());
    let outcome = registry.check_and_maybe_insert(key, signature.clone());
    match outcome {
        InsertOutcome::AlreadyPresent => {
            proof {
                assert(old(registry)@.contains_key(key));
                assert(!Map::<u32, String>::empty().contains_key(key));
            }
            StepOutcome::Duplicate
        },
        InsertOutcome::Inserted => {
            let fd = FunctionData { signature, selector };
            assert(is_valid_report(fd, flags.spec_dictionary(), flags.spec_func_args())) by {
                assert(is_candidate_of(flags.spec_dictionary(), words.deep_view())
                    && fd.signature@ == spec_signature(words.deep_view(), flags.spec_func_args()));
            }
            if fd.selector.eq(flags.match_selector_str()) {
                StepOutcome::Matched(fd)
            } else {
                StepOutcome::Reported(fd)
            }
        },
    }
}

/// What a completed run hands back: every newly seen non-target pair in
/// completion order, and the matching pair when the target was found.
pub struct SearchOutcome {
    pub reported: Vec<FunctionData>,
    pub matched: Option<FunctionData>,
}

/// Runs up to `budget` search iterations and collects the results.
///
/// An empty dictionary is refused before the search starts.  On success:
/// every collected pair is a well-formed candidate report; no two pairs in
/// the whole output — reported list and match together — share a selector;
/// reported pairs never carry the target selector; and a match is exactly
/// the target selector.  The search stops at the first match and never
/// halts on any other selector.  Whenever the budget allows an iteration at
/// all, at least one selector is claimed — the first iteration inserts into
/// the empty registry unconditionally — and at most `budget` pairs are
/// collected in all.
pub fn run_search(flags: &RakeFlags, budget: u64) -> (r: Result<SearchOutcome, ConfigError>)
    ensures
        (r is Err) <==> flags.spec_dictionary().len() == 0,
        r matches Err(e) ==> e == ConfigError::EmptyDictionary,
        r matches Ok(out) ==> {
            &&& forall|i: int|
                0 <= i < out.reported@.len() ==> is_valid_report(
                    #[trigger] out.reported@[i],
                    flags.spec_dictionary(),
                    flags.spec_func_args(),
                ) && out.reported@[i].selector@ != flags.spec_match_selector()
            &&& forall|i: int, j: int|
                0 <= i < j < out.reported@.len() ==> #[trigger] out.reported@[i].selector@
                    != #[trigger] out.reported@[j].selector@
            &&& out.matched matches Some(fd) ==> is_valid_report(
                fd,
                flags.spec_dictionary(),
                flags.spec_func_args(),
            ) && fd.selector@ == flags.spec_match_selector()
            &&& out.matched matches Some(fd) ==> forall|i: int|
                0 <= i < out.reported@.len() ==> #[trigger] out.reported@[i].selector@
                    != fd.selector@
            &&& out.reported@.len() + (if out.matched is Some {
                1int
            } else {
                0int
            }) <= budget as int
            &&& budget >= 1 ==> out.reported@.len() > 0 || out.matched is Some
        },
{
    let dict_len = flags.dictionary_words().len();
    if dict_len == 0 {
        return Err(ConfigError::EmptyDictionary);
    }
    let mut registry = DedupRegistry::new();
    let mut reported: Vec<FunctionData> = Vec::new();
    let mut matched: Option<FunctionData> = None;
    let mut it: u64 = 0;
    while it < budget && matched.is_none()
        invariant
            flags.spec_dictionary().len() >= 1,
            it <= budget,
            it == 0 ==> registry@ == Map::<u32, String>::empty(),
            reported@.len() + (if matched is Some {
                1int
            } else {
                0int
            }) <= it as int,
            it >= 1 ==> reported@.len() > 0 || matched is Some,
            forall|i: int|
                0 <= i < reported@.len() ==> is_valid_report(
                    #[trigger] reported@[i],
                    flags.spec_dictionary(),
                    flags.spec_func_args(),
                ) && reported@[i].selector@ != flags.spec_match_selector(),
            forall|i: int|
                0 <= i < reported@.len() ==> registry@.contains_key(
                    spec_selector_key(#[trigger] reported@[i].signature@) as u32,
                ),
            forall|i: int, j: int|
                0 <= i < j < reported@.len() ==> spec_selector_key(#[trigger] reported@[i].signature@)
                    != spec_selector_key(#[trigger] reported@[j].signature@),
            matched matches Some(fd) ==> is_valid_report(
                fd,
                flags.spec_dictionary(),
                flags.spec_func_args(),
            ) && fd.selector@ == flags.spec_match_selector(),
        decreases budget - it,
    {
        match search_step(&mut registry, flags) {
            StepOutcome::Duplicate => {},
            StepOutcome::Reported(fd) => {
                reported.push(fd);
            },
            StepOutcome::Matched(fd) => {
                matched = Some(fd);
            },
        }
        it = it + 1;
    }
    proof {
        assert forall|i: int, j: int| 0 <= i < j < reported@.len() implies #[trigger] reported@[i].selector@
            != #[trigger] reported@[j].selector@ by {
            lemma_distinct_keys_distinct_selectors(reported@[i].signature@, reported@[j].signature@);
        }
    }
    Ok(SearchOutcome { reported, matched })
}

} // verus!
