//! Repeat annotations: a scene node opts into a repeating-texture material by
//! carrying `[repeat: H, V]` in its name, matched without regard to case.

use vstd::prelude::*;
use vstd::string::StrSliceExecFns;

verus! {

/// The pattern of a repeat annotation, in the syntax of the `regex` crate:
/// group 1 holds the horizontal count and group 2 the vertical one.
pub const REPEAT_PATTERN: &'static str = "\\[repeat:\\s*(\\d+),\\s*(\\d+)\\]";

/// How often a texture repeats on each axis. The two padding fields keep the
/// uniform at sixteen bytes and are always zero in values that this library
/// builds.
#[derive(Clone, Copy, Debug, Hash, PartialEq, Eq, Structural)]
pub struct Repeats {
    pub horizontal: u32,
    pub vertical: u32,
    pub _wasm_padding1: u32,
    pub _wasm_padding2: u32,
}

impl Default for Repeats {
    fn default() -> (r: Repeats)
        ensures
            r == Repeats::of(0, 0),
    {
        Repeats { horizontal: 0, vertical: 0, _wasm_padding1: 0, _wasm_padding2: 0 }
    }
}

impl Repeats {
    /// The repeat pair with the given counts and zero padding.
    pub open spec fn of(horizontal: u32, vertical: u32) -> Repeats {
        Repeats { horizontal, vertical, _wasm_padding1: 0, _wasm_padding2: 0 }
    }

    /// Builds the repeat pair with the given counts.
    pub fn new(horizontal: u32, vertical: u32) -> (r: Repeats)
        ensures
            r == Repeats::of(horizontal, vertical),
    {
        Repeats { horizontal, vertical, _wasm_padding1: 0, _wasm_padding2: 0 }
    }
}

/// Why a node that asked for a repeating material did not get one.
#[derive(Clone, Copy, Debug, PartialEq, Eq, Structural)]
pub enum RepeatError {
    /// A count of the annotation is not a decimal number that fits 32 bits.
    MalformedRepeat,
    /// A child's material handle resolves to no material.
    MissingMaterial,
    /// A child's material has no base texture.
    MissingTexture,
}

impl RepeatError {
    /// The message that goes to the log for this error.
    pub fn message(&self) -> (text: &'static str)
        ensures
            text@ == (match *self {
                RepeatError::MalformedRepeat => "Failed to parse repeat"@,
                RepeatError::MissingMaterial => "Failed to get standard material from handle"@,
                RepeatError::MissingTexture =>
                    "Failed to get texture from standard material. Is the texture missing?"@,
            }),
    {
        match self {
            RepeatError::MalformedRepeat => "Failed to parse repeat",
            RepeatError::MissingMaterial => "Failed to get standard material from handle",
            RepeatError::MissingTexture =>
                "Failed to get texture from standard material. Is the texture missing?",
        }
    }
}

/// `c` is one of the ten ASCII digits.
pub open spec fn is_digit(c: char) -> bool {
    '0' <= c && c <= '9'
}

/// The number that a sequence of ASCII digits writes in base ten.
pub open spec fn digits_value(s: Seq<char>) -> nat
    decreases s.len(),
{
    if s.len() == 0 {
        0
    } else {
        (digits_value(s.drop_last()) * 10 + (s.last() as u32 - '0' as u32)) as nat
    }
}

/// Every character of `s` is an ASCII digit.
pub open spec fn all_digits(s: Seq<char>) -> bool {
    forall|i: int| 0 <= i < s.len() ==> is_digit(#[trigger] s[i])
}

/// `s` without one leading plus sign.
pub open spec fn unsigned_part(s: Seq<char>) -> Seq<char> {
    if s.len() > 0 && s[0] == '+' {
        s.subrange(1, s.len() as int)
    } else {
        s
    }
}

/// The 32-bit number that `s` writes: an optional plus sign, then one or more
/// ASCII digits whose value fits; `None` for every other text.
pub open spec fn decimal_u32(s: Seq<char>) -> Option<u32> {
    let d = unsigned_part(s);
    if d.len() > 0 && all_digits(d) && digits_value(d) <= u32::MAX {
        Some(digits_value(d) as u32)
    } else {
        None
    }
}

/// A longer run of digits never writes a smaller number than its prefix.
pub proof fn lemma_digits_prefix(s: Seq<char>, k: int)
    requires
        0 <= k <= s.len(),
        all_digits(s),
    ensures
        digits_value(s.subrange(0, k)) <= digits_value(s),
    decreases s.len() - k,
{
    if k == s.len() {
        assert(s.subrange(0, k) =~= s);
    } else {
        lemma_digits_prefix(s, k + 1);
        let longer = s.subrange(0, k + 1);
        assert(longer.drop_last() =~= s.subrange(0, k));
    }
}

/// Reads a 32-bit decimal number the way `u32`'s `FromStr` does.
pub fn parse_u32(text: &str) -> (value: Option<u32>)
    ensures
        value == decimal_u32(text@),
{
    let n: usize = text.unicode_len();
    if n == 0 {
        return None;
    }
    let start: usize = if text.get_char(0) == '+' { 1 } else { 0 };
    if start == n {
        return None;
    }
    let ghost d = unsigned_part(text@);
    let mut acc: u32 = 0;
    let mut i: usize = start;
    while i < n
        invariant
            start <= i <= n,
            n == text@.len(),
            d == text@.subrange(start as int, n as int),
            d == unsigned_part(text@),
            all_digits(d.subrange(0, i - start)),
            acc == digits_value(d.subrange(0, i - start)),
        decreases n - i,
    {
        let c: char = text.get_char(i);
        let ghost before = d.subrange(0, i - start);
        let ghost after = d.subrange(0, i + 1 - start);
        proof {
            assert(after.drop_last() =~= before);
        }
        if !('0' <= c && c <= '9') {
            proof {
                assert(!is_digit(d[i - start]));
            }
            return None;
        }
        let digit: u32 = c as u32 - '0' as u32;
        if acc > (u32::MAX - digit) / 10 {
            proof {
                if all_digits(d) {
                    lemma_digits_prefix(d, i + 1 - start);
                }
            }
            return None;
        }
        acc = acc * 10 + digit;
        proof {
            assert(all_digits(after));
        }
        i = i + 1;
    }
    proof {
        assert(d.subrange(0, n - start) =~= d);
    }
    Some(acc)
}

/// The lower-case form of a text, as `str::to_lowercase` of the standard
/// library gives it.
pub uninterp spec fn lowercase_of(text: Seq<char>) -> Seq<char>;

/// What the `regex` crate captures for the leftmost match of `pattern` in
/// `text`: `None` where the pattern does not compile or matches nowhere, else
/// every group in the order of its opening bracket, the whole match first, an
/// absent group as `None`.
pub uninterp spec fn regex_captures(pattern: Seq<char>, text: Seq<char>) -> Option<Seq<Option<Seq<char>>>>;

/// The mathematical value of a list of captured groups.
pub open spec fn groups_view(groups: Seq<Option<String>>) -> Seq<Option<Seq<char>>> {
    Seq::new(
        groups.len(),
        |i: int|
            match groups[i] {
                Some(g) => Some(g@),
                None => None,
            },
    )
}

/// The mathematical value of the outcome of a capture.
pub open spec fn captures_view(found: Option<Vec<Option<String>>>) -> Option<Seq<Option<Seq<char>>>> {
    match found {
        Some(groups) => Some(groups_view(groups@)),
        None => None,
    }
}

/// Calls `str::to_lowercase`. Trusted: the result is the lower-case form of
/// the argument, a function of the text alone.
#[verifier::external_body]
fn to_lowercase(text: &str) -> (lower: String)
    ensures
        lower@ == lowercase_of(text@),
{
    text.to_lowercase()
}

/// Compiles `pattern` with `regex::Regex::new` and runs `Regex::captures` on
/// `text`. Trusted: the outcome is the one that the crate defines for this
/// pattern and this text, and depends on nothing else. A pattern that does not
/// compile gives `None`, as a text without a match does.
#[verifier::external_body]
fn capture_groups(pattern: &str, text: &str) -> (found: Option<Vec<Option<String>>>)
    ensures
        captures_view(found) == regex_captures(pattern@, text@),
{
    let compiled = regex::Regex::new(pattern).ok()?;
    let captures = compiled.captures(text)?;
    Some(captures.iter().map(|group| group.map(|m| m.as_str().to_string())).collect())
}

/// The repeat pair that captured groups stand for: group 1 and group 2 must
/// both be present and write 32-bit decimal numbers.
pub open spec fn repeats_of_groups(groups: Seq<Option<Seq<char>>>) -> Result<Repeats, RepeatError> {
    if groups.len() >= 3 && groups[1] is Some && groups[2] is Some
        && decimal_u32(groups[1].unwrap()) is Some
        && decimal_u32(groups[2].unwrap()) is Some {
        Ok(Repeats::of(decimal_u32(groups[1].unwrap()).unwrap(), decimal_u32(groups[2].unwrap()).unwrap()))
    } else {
        Err(RepeatError::MalformedRepeat)
    }
}

/// What a capture says of a node: no annotation where nothing matched, else
/// the repeat pair or the error of the matched groups.
pub open spec fn annotation_of_captures(found: Option<Seq<Option<Seq<char>>>>) -> Option<Result<Repeats, RepeatError>> {
    match found {
        Some(groups) => Some(repeats_of_groups(groups)),
        None => None,
    }
}

/// The annotation that a node's name carries.
pub open spec fn annotation_of(name: Seq<char>) -> Option<Result<Repeats, RepeatError>> {
    annotation_of_captures(regex_captures(REPEAT_PATTERN@, lowercase_of(name)))
}

/// Turns the groups of one match into a repeat pair. Fails with
/// `MalformedRepeat` where a count is absent or is not a 32-bit decimal number.
pub fn parse_repeats(groups: &Vec<Option<String>>) -> (parsed: Result<Repeats, RepeatError>)
    ensures
        parsed == repeats_of_groups(groups_view(groups@)),
{
    if groups.len() < 3 {
        return Err(RepeatError::MalformedRepeat);
    }
    let horizontal: Option<u32> = match &groups[1] {
        Some(text) => parse_u32(text.as_str()),
        None => None,
    };
    let vertical: Option<u32> = match &groups[2] {
        Some(text) => parse_u32(text.as_str()),
        None => None,
    };
    match (horizontal, vertical) {
        (Some(h), Some(v)) => Ok(Repeats::new(h, v)),
        _ => Err(RepeatError::MalformedRepeat),
    }
}

/// Interprets the outcome of matching the repeat pattern against a name.
pub fn annotation_from_captures(found: &Option<Vec<Option<String>>>) -> (annotation: Option<Result<Repeats, RepeatError>>)
    ensures
        annotation == annotation_of_captures(captures_view(*found)),
{
    match found {
        Some(groups) => Some(parse_repeats(groups)),
        None => None,
    }
}

/// Reads the repeat annotation of a node's name: `None` where the lower-cased
/// name holds no annotation, else the repeat pair or `MalformedRepeat`.
pub fn repeat_annotation(name: &str) -> (annotation: Option<Result<Repeats, RepeatError>>)
    ensures
        annotation == annotation_of(name@),
{
    let lower: String = to_lowercase(name);
    let found: Option<Vec<Option<String>>> = capture_groups(REPEAT_PATTERN, lower.as_str());
    annotation_from_captures(&found)
}

} // verus!
