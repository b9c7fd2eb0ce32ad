use std::sync::{Arc, Mutex, PoisonError};
use nucleo_matcher::pattern;
use nucleo_matcher::pattern::Pattern;
use nucleo_matcher::{Config, Matcher, Utf32Str};
use vstd::prelude::*;
use vstd::utf8::encode_utf8;
use crate::scorer::Scorer;

verus! {

/// `nucleo_matcher::Matcher`, the fuzzy matching engine: its settings and its
/// scratch memory.
#[verifier::external_type_specification]
#[verifier::external_body]
pub struct ExMatcher(Matcher);

/// `std::sync::Mutex`, a lock around a value shared between threads.
#[verifier::external_type_specification]
#[verifier::external_body]
#[verifier::reject_recursive_types(T)]
pub struct ExMutex<T: ?Sized>(Mutex<T>);

/// How a difference in case between query and entry is treated.
#[derive(Debug, Clone, Copy, PartialEq, Eq, Structural)]
pub enum CaseMatching {
    /// A letter never matches its other case.
    Respect,
    /// A letter always matches its other case.
    Ignore,
    /// As `Ignore` for a word of the query that is all lower case, as
    /// `Respect` for any other.
    Smart,
}

/// How a difference in accents between query and entry is treated.
#[derive(Debug, Clone, Copy, PartialEq, Eq, Structural)]
pub enum Normalization {
    /// A letter never matches its plain form.
    Never,
    /// A plain letter of the query matches its accented forms, unless the
    /// word it stands in has an accented letter itself.
    Smart,
}

/// What the fuzzy scorer reads of an entry.
pub struct Context {
    pub match_string: String,
}

/// The longest word of a query, in bytes, that is handed to the engine. The
/// engine matches a word by a needle made of it, which may have close to two
/// characters for each byte of the word: in a word that is not all ASCII, it
/// writes every backslash that follows a backslash twice. It adds up the
/// score of a needle in sixteen bits, at most 40 for the first character and
/// 26 for each further one; the needle of a word of this size stays below
/// what sixteen bits hold.
pub const MAX_WORD_BYTES: usize = 1024;

/// The longest query, in bytes, that is handed to the engine. The engine adds
/// up the scores of the words in thirty-two bits, which a query of this size
/// cannot fill.
pub const MAX_PATTERN_BYTES: usize = 0x0100_0000;

/// The longest entry text, in bytes, that is handed to the engine: the engine
/// takes no text of more characters.
pub const MAX_HAYSTACK_BYTES: u64 = 0xffff_ffff;

/// Whether the byte at `at` parts two words of the query: a space that no
/// backslash stands in front of.
pub open spec fn separates(query: Seq<u8>, at: int) -> bool {
    query[at] == 0x20 && (at == 0 || query[at - 1] != 0x5c)
}

/// Whether the bytes from `from` up to `to` lie within one word: none of them
/// parts two words.
pub open spec fn is_stretch(query: Seq<u8>, from: int, to: int) -> bool {
    &&& 0 <= from <= to <= query.len()
    &&& forall|at: int| from <= at < to ==> !#[trigger] separates(query, at)
}

/// Whether no word of the query is longer than `limit` bytes.
pub open spec fn words_within(query: Seq<u8>, limit: int) -> bool {
    forall|from: int, to: int| #[trigger] is_stretch(query, from, to) ==> to - from <= limit
}

/// Whether no word of the query is longer than `limit` bytes.
pub fn words_fit(query: &[u8], limit: usize) -> (fit: bool)
    ensures
        fit == words_within(query@, limit as int),
{
    let mut start: usize = 0;
    let mut at: usize = 0;
    while at < query.len()
        invariant
            start <= at <= query.len(),
            is_stretch(query@, start as int, at as int),
            at - start <= limit,
            start == 0 || separates(query@, start - 1),
            forall|from: int, to: int|
                to <= at && #[trigger] is_stretch(query@, from, to) ==> to - from <= limit,
        decreases query.len() - at,
    {
        let parts = query[at] == 0x20 && (at == 0 || query[at - 1] != 0x5c);
        if parts {
            start = at + 1;
        } else if at + 1 - start > limit {
            assert(is_stretch(query@, start as int, at + 1));
            return false;
        }
        proof {
            assert forall|from: int, to: int|
                to <= at + 1 && #[trigger] is_stretch(query@, from, to) implies to - from
                <= limit by {
                if to == at + 1 && from <= at {
                    if parts {
                        assert(separates(query@, at as int));
                    } else if from < start {
                        assert(separates(query@, start - 1));
                    }
                }
            }
        }
        at += 1;
    }
    true
}

/// Whether the engine is asked at all: the entry text, the query and each
/// word of the query are within the sizes it is handed.
pub open spec fn scorable(haystack: Seq<char>, pattern: Seq<char>) -> bool {
    &&& encode_utf8(haystack).len() <= MAX_HAYSTACK_BYTES
    &&& encode_utf8(pattern).len() <= MAX_PATTERN_BYTES
    &&& words_within(encode_utf8(pattern), MAX_WORD_BYTES as int)
}

/// The score the engine gives the text `haystack` for the query `pattern`
/// under its default settings: the query is read as a list of words with the
/// engine's markers for prefix, suffix, exact and negated matches, and the
/// result is `None` where the text does not match. The settings for file
/// paths have no such name: under them the engine goes by the path delimiters
/// of the platform it is built for.
pub uninterp spec fn pattern_score(
    case: CaseMatching,
    normalization: Normalization,
    haystack: Seq<char>,
    pattern: Seq<char>,
) -> Option<u32>;

/// `Matcher::new` with the engine's default settings, behind a lock.
#[verifier::external_body]
fn new_engine() -> Mutex<Matcher> {
    Mutex::new(Matcher::new(Config::DEFAULT))
}

/// `Pattern::parse` followed by `Pattern::score`, on an engine set to its
/// default settings or to those for paths, so that nothing an earlier call
/// left in the engine enters the result. Under the default settings the
/// result is the named one. Under either, a query without a word scores zero.
/// A lock that a panicking thread left behind is taken all the same. The
/// engine panics on longer texts than the contract admits, and its sums can
/// overflow on longer words and queries.
#[verifier::external_body]
fn score_with(
    engine: &Mutex<Matcher>,
    match_paths: bool,
    case: CaseMatching,
    normalization: Normalization,
    haystack: &str,
    pattern: &str,
) -> (score: Option<u32>)
    requires
        scorable(haystack@, pattern@),
    ensures
        !match_paths ==> score == pattern_score(case, normalization, haystack@, pattern@),
        pattern@.len() == 0 ==> score == Some(0u32),
{
    let mut engine = engine.lock().unwrap_or_else(PoisonError::into_inner);
    engine.config = match match_paths {
        true => Config::DEFAULT.match_paths(),
        false => Config::DEFAULT,
    };
    let case = match case {
        CaseMatching::Respect => pattern::CaseMatching::Respect,
        CaseMatching::Ignore => pattern::CaseMatching::Ignore,
        CaseMatching::Smart => pattern::CaseMatching::Smart,
    };
    let normalization = match normalization {
        Normalization::Never => pattern::Normalization::Never,
        Normalization::Smart => pattern::Normalization::Smart,
    };
    Pattern::parse(pattern, case, normalization).score(Utf32Str::new(haystack, &mut Vec::new()), &mut engine)
}

/// The score of a text for a query, from what the engine says: the engine's
/// score where the text matches, `0` where it does not.
pub open spec fn score_or_zero(found: Option<u32>) -> u32 {
    match found {
        Some(score) => score,
        None => 0,
    }
}

/// A fuzzy scorer: entries are scored by how well their text matches the
/// query.
pub struct NucleoMatcher {
    matcher: Arc<Mutex<Matcher>>,
    match_paths: bool,
    case: CaseMatching,
    normalization: Normalization,
}

impl NucleoMatcher {
    /// Whether word boundaries are scored as in file paths.
    pub closed spec fn match_paths(&self) -> bool {
        self.match_paths
    }

    /// How case is treated.
    pub closed spec fn case(&self) -> CaseMatching {
        self.case
    }

    /// How accents are treated.
    pub closed spec fn normalization(&self) -> Normalization {
        self.normalization
    }

    /// Whether this scorer may give `score` to the text `haystack` for the
    /// query `pattern`. The score is `0`, as for no match, where the text, the
    /// query or a word of it is beyond the sizes the engine is handed, and
    /// where the query is empty. Otherwise a scorer with the engine's default
    /// settings gives what the engine says of the two. Of a scorer for file
    /// paths no more is said: its scores differ from platform to platform.
    pub open spec fn may_score(&self, haystack: Seq<char>, pattern: Seq<char>, score: u32) -> bool {
        if !scorable(haystack, pattern) || pattern.len() == 0 {
            score == 0
        } else if self.match_paths() {
            true
        } else {
            score == score_or_zero(
                pattern_score(self.case(), self.normalization(), haystack, pattern),
            )
        }
    }

    pub fn new(match_path: bool, case: CaseMatching, normalization: Normalization) -> (scorer: Self)
        ensures
            scorer.match_paths() == match_path,
            scorer.case() == case,
            scorer.normalization() == normalization,
    {
        Self { matcher: Arc::new(new_engine()), match_paths: match_path, case, normalization }
    }
}

impl Scorer for NucleoMatcher {
    type Context = Context;

    /// The scores of an entry under a query: those of its text.
    open spec fn rates(&self, ctx: &Context, input: Seq<char>, score: u32) -> bool {
        self.may_score(ctx.match_string@, input, score)
    }

    fn predicate_score(&self, ctx: &Context, input: &str) -> (score: u32) {
        let haystack = ctx.match_string.as_str();
        let query = input.as_bytes();
        if haystack.as_bytes().len() as u64 > MAX_HAYSTACK_BYTES || query.len() > MAX_PATTERN_BYTES
            || !words_fit(query, MAX_WORD_BYTES) {
            return 0;
        }
        let found = score_with(
            &self.matcher,
            self.match_paths,
            self.case,
            self.normalization,
            haystack,
            input,
        );
        rate(found)
    }
}

/// The score of a text for a query, from what the engine says.
pub fn rate(found: Option<u32>) -> (score: u32)
    ensures
        score == score_or_zero(found),
{
    match found {
        Some(score) => score,
        None => 0,
    }
}

} // verus!
